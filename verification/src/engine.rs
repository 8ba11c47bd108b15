//! The reconciliation engine: one lease event, worked through step by step.
//!
//! A reconciliation never talks to the provider itself. [`begin`] looks at the
//! event, the mapping table and the holder cache and either ends at once or
//! names the first provider call. The caller makes that call and hands the
//! reply to [`resume`], which again either ends or names the next call:
//!
//! 1. find the floating IP by the mapped name,
//! 2. find the server by the holder's identity,
//! 3. attach the floating IP to the server, unless it is attached already.
//!
//! The holder cache is written in one place only: where the attachment was
//! found right, or was made right.

use crate::cache::{is_synced, HolderCache};
use crate::cloud::{
    servers_view, CloudReply, CloudReplyView, CloudRequest, CloudRequestView, FloatingIpResource,
};
use crate::event::{LeaseEvent, LeaseEventView};
use crate::mapping::MappingTable;
use crate::outcome::{notice_view, Notice, NoticeView, Outcome, OutcomeView, Severity};
use vstd::prelude::*;

verus! {

/// A reconciliation that waits for the reply to a provider call.
#[derive(Debug, Clone, PartialEq, Eq)]
pub enum Pending {
    /// Waiting for the floating IPs named `floating_ip_name`.
    FloatingIp { floating_ip_name: String, holder: String },
    /// Waiting for the servers named `holder`.
    Server { floating_ip_name: String, holder: String, floating_ip: FloatingIpResource },
    /// Waiting for the attach call to finish.
    Assign { floating_ip_name: String, holder: String, floating_ip_id: i64, server_id: i64 },
}

/// The mathematical content of a [`Pending`].
pub enum PendingView {
    FloatingIp { floating_ip_name: Seq<char>, holder: Seq<char> },
    Server { floating_ip_name: Seq<char>, holder: Seq<char>, floating_ip: FloatingIpResource },
    Assign { floating_ip_name: Seq<char>, holder: Seq<char>, floating_ip_id: i64, server_id: i64 },
}

impl View for Pending {
    type V = PendingView;

    open spec fn view(&self) -> PendingView {
        match self {
            Pending::FloatingIp { floating_ip_name, holder } => PendingView::FloatingIp {
                floating_ip_name: floating_ip_name@,
                holder: holder@,
            },
            Pending::Server { floating_ip_name, holder, floating_ip } => PendingView::Server {
                floating_ip_name: floating_ip_name@,
                holder: holder@,
                floating_ip: *floating_ip,
            },
            Pending::Assign { floating_ip_name, holder, floating_ip_id, server_id } => {
                PendingView::Assign {
                    floating_ip_name: floating_ip_name@,
                    holder: holder@,
                    floating_ip_id: *floating_ip_id,
                    server_id: *server_id,
                }
            },
        }
    }
}

impl PendingView {
    /// The provider call whose reply is awaited.
    pub open spec fn request(self) -> CloudRequestView {
        match self {
            PendingView::FloatingIp { floating_ip_name, .. } => CloudRequestView::FindFloatingIp {
                name: floating_ip_name,
            },
            PendingView::Server { holder, .. } => CloudRequestView::FindServer { name: holder },
            PendingView::Assign { floating_ip_id, server_id, .. } => {
                CloudRequestView::AssignFloatingIp { floating_ip_id, server_id }
            },
        }
    }

    /// How many provider calls, this one included, the reconciliation can
    /// still make.
    pub open spec fn calls_left(self) -> nat {
        match self {
            PendingView::FloatingIp { .. } => 3,
            PendingView::Server { .. } => 2,
            PendingView::Assign { .. } => 1,
        }
    }

    /// What is logged before the pending call is made: the attach call is
    /// announced, the lookups are not.
    pub open spec fn notice(self) -> Option<NoticeView> {
        match self {
            PendingView::Assign { floating_ip_name, holder, .. } => Some(
                NoticeView {
                    severity: Severity::Info,
                    line: "assigning floating ip '"@ + floating_ip_name + "' to server '"@ + holder
                        + "'"@,
                },
            ),
            _ => None,
        }
    }
}

impl Pending {
    /// The provider call that the caller has to make now.
    pub fn request(&self) -> (request: CloudRequest)
        ensures
            request@ == self@.request(),
    {
        match self {
            Pending::FloatingIp { floating_ip_name, .. } => CloudRequest::FindFloatingIp {
                name: floating_ip_name.clone(),
            },
            Pending::Server { holder, .. } => CloudRequest::FindServer { name: holder.clone() },
            Pending::Assign { floating_ip_id, server_id, .. } => CloudRequest::AssignFloatingIp {
                floating_ip_id: *floating_ip_id,
                server_id: *server_id,
            },
        }
    }

    /// What is to be logged before the pending call is made, if anything.
    pub fn notice(&self) -> (notice: Option<Notice>)
        ensures
            notice_view(notice) == self@.notice(),
    {
        match self {
            Pending::Assign { floating_ip_name, holder, .. } => Some(
                Notice::about_two(
                    Severity::Info,
                    "assigning floating ip '",
                    floating_ip_name.as_str(),
                    "' to server '",
                    holder.as_str(),
                    "'",
                ),
            ),
            _ => None,
        }
    }
}

/// Where a reconciliation stands after a step.
#[derive(Debug, Clone, PartialEq, Eq)]
pub enum Step {
    /// The caller has to make `pending.request()` and resume with the reply.
    Call(Pending),
    /// The reconciliation is over.
    Done(Outcome),
}

/// The mathematical content of a [`Step`].
pub enum StepView {
    Call(PendingView),
    Done(OutcomeView),
}

impl View for Step {
    type V = StepView;

    open spec fn view(&self) -> StepView {
        match self {
            Step::Call(pending) => StepView::Call(pending@),
            Step::Done(outcome) => StepView::Done(outcome@),
        }
    }
}

impl StepView {
    /// The cache after this step, given the cache before it: only an ending
    /// can write, and only the entry it records.
    pub open spec fn apply(self, cache: Map<Seq<char>, Seq<char>>) -> Map<Seq<char>, Seq<char>> {
        match self {
            StepView::Call(_) => cache,
            StepView::Done(outcome) => outcome.apply(cache),
        }
    }

    /// How many provider calls the reconciliation can still make.
    pub open spec fn calls_left(self) -> nat {
        match self {
            StepView::Call(pending) => pending.calls_left(),
            StepView::Done(_) => 0,
        }
    }

    /// What is logged at this step.
    pub open spec fn notice(self) -> Option<NoticeView> {
        match self {
            StepView::Call(pending) => pending.notice(),
            StepView::Done(outcome) => outcome.notice(),
        }
    }
}

impl Step {
    /// What is to be logged at this step, if anything.
    pub fn notice(&self) -> (notice: Option<Notice>)
        ensures
            notice_view(notice) == self@.notice(),
    {
        match self {
            Step::Call(pending) => pending.notice(),
            Step::Done(outcome) => outcome.notice(),
        }
    }
}

/// Whether a floating IP is attached to the server with id `server_id`.
pub open spec fn attached_to(floating_ip: FloatingIpResource, server_id: i64) -> bool {
    floating_ip.server == Some(server_id)
}

/// The first step of a reconciliation.
///
/// A malformed event is rejected. A lease that the table does not map is not
/// managed. A mapped lease whose holder the cache already records needs no
/// work. Anything else starts with the lookup of the mapped floating IP.
pub open spec fn begin_spec(
    mapping: Map<Seq<char>, Seq<char>>,
    cache: Map<Seq<char>, Seq<char>>,
    event: LeaseEventView,
) -> StepView {
    match event.defect() {
        Some(defect) => StepView::Done(OutcomeView::Rejected { defect }),
        None => {
            let lease_name = event.lease_name->0;
            let holder = event.holder_identity->0;
            if !mapping.contains_key(lease_name) {
                StepView::Done(OutcomeView::Unmapped { lease_name })
            } else if is_synced(cache, mapping[lease_name], holder) {
                StepView::Done(OutcomeView::AlreadySynced { lease_name, holder })
            } else {
                StepView::Call(
                    PendingView::FloatingIp { floating_ip_name: mapping[lease_name], holder },
                )
            }
        },
    }
}

/// The step that follows the provider's reply to the pending call.
///
/// A failed call and an empty listing end the reconciliation. Of several
/// matches the first counts. Once both resources are known, the attach call
/// is asked for only if the floating IP is not attached to the server yet.
pub open spec fn resume_spec(pending: PendingView, reply: CloudReplyView) -> StepView {
    match (pending, reply) {
        (
            PendingView::FloatingIp { floating_ip_name, holder },
            CloudReplyView::FloatingIps(listing),
        ) => match listing {
            Err(error) => StepView::Done(OutcomeView::FloatingIpLookupFailed { error }),
            Ok(found) => if found.len() == 0 {
                StepView::Done(OutcomeView::FloatingIpNotFound { floating_ip_name })
            } else {
                StepView::Call(
                    PendingView::Server { floating_ip_name, holder, floating_ip: found[0] },
                )
            },
        },
        (
            PendingView::Server { floating_ip_name, holder, floating_ip },
            CloudReplyView::Servers(listing),
        ) => match listing {
            Err(error) => StepView::Done(OutcomeView::ServerLookupFailed { error }),
            Ok(found) => if found.len() == 0 {
                StepView::Done(OutcomeView::ServerNotFound { holder })
            } else if attached_to(floating_ip, found[0].id) {
                StepView::Done(OutcomeView::AlreadyAttached { floating_ip_name, holder })
            } else {
                StepView::Call(
                    PendingView::Assign {
                        floating_ip_name,
                        holder,
                        floating_ip_id: floating_ip.id,
                        server_id: found[0].id,
                    },
                )
            },
        },
        (
            PendingView::Assign { floating_ip_name, holder, .. },
            CloudReplyView::Assigned(result),
        ) => match result {
            Err(error) => StepView::Done(OutcomeView::AssignFailed { error }),
            Ok(_) => StepView::Done(OutcomeView::Reassigned { floating_ip_name, holder }),
        },
        _ => StepView::Done(OutcomeView::UnexpectedReply),
    }
}

impl FloatingIpResource {
    /// Whether the floating IP is attached to the server with id `server_id`.
    pub fn is_attached_to(&self, server_id: i64) -> (attached: bool)
        ensures
            attached == attached_to(*self, server_id),
    {
        match self.server {
            Some(id) => id == server_id,
            None => false,
        }
    }
}

/// Starts the reconciliation of one event.
///
/// Reads the cache and writes nothing. The result is either the ending, or
/// the pending lookup of the floating IP that the event's lease controls.
pub fn begin(mapping: &MappingTable, cache: &HolderCache, event: LeaseEvent) -> (step: Step)
    ensures
        step@ == begin_spec(mapping@, cache@, event@),
{
    if let Some(defect) = event.defect() {
        return Step::Done(Outcome::Rejected { defect });
    }
    let LeaseEvent { lease_name, holder_identity } = event;
    let lease_name = lease_name.unwrap();
    let holder = holder_identity.unwrap();
    let floating_ip_name = match mapping.lookup(lease_name.as_str()) {
        Some(floating_ip_name) => floating_ip_name,
        None => {
            return Step::Done(Outcome::Unmapped { lease_name });
        },
    };
    if cache.holds(floating_ip_name.as_str(), &holder) {
        return Step::Done(Outcome::AlreadySynced { lease_name, holder });
    }
    Step::Call(Pending::FloatingIp { floating_ip_name, holder })
}

/// Continues a reconciliation with the provider's reply to its pending call.
///
/// The cache is written only where the reconciliation ends with the
/// attachment right: the entry of the floating IP then holds the event's
/// holder. On every other path the cache stays as it was, so that the next
/// event for the lease starts from scratch.
pub fn resume(cache: &mut HolderCache, pending: Pending, reply: CloudReply) -> (step: Step)
    ensures
        step@ == resume_spec(pending@, reply@),
        final(cache)@ == step@.apply(old(cache)@),
{
    match pending {
        Pending::FloatingIp { floating_ip_name, holder } => match reply {
            CloudReply::FloatingIps(Ok(found)) => {
                if found.len() == 0 {
                    Step::Done(Outcome::FloatingIpNotFound { floating_ip_name })
                } else {
                    Step::Call(Pending::Server { floating_ip_name, holder, floating_ip: found[0] })
                }
            },
            CloudReply::FloatingIps(Err(error)) => Step::Done(
                Outcome::FloatingIpLookupFailed { error },
            ),
            _ => Step::Done(Outcome::UnexpectedReply),
        },
        Pending::Server { floating_ip_name, holder, floating_ip } => match reply {
            CloudReply::Servers(Ok(found)) => {
                if found.len() == 0 {
                    Step::Done(Outcome::ServerNotFound { holder })
                } else {
                    let server_id = found[0].id;
                    assert(servers_view(found@)[0].id == server_id);
                    if floating_ip.is_attached_to(server_id) {
                        cache.set(floating_ip_name.clone(), holder.clone());
                        Step::Done(Outcome::AlreadyAttached { floating_ip_name, holder })
                    } else {
                        Step::Call(
                            Pending::Assign {
                                floating_ip_name,
                                holder,
                                floating_ip_id: floating_ip.id,
                                server_id,
                            },
                        )
                    }
                }
            },
            CloudReply::Servers(Err(error)) => Step::Done(Outcome::ServerLookupFailed { error }),
            _ => Step::Done(Outcome::UnexpectedReply),
        },
        Pending::Assign { floating_ip_name, holder, floating_ip_id: _, server_id: _ } => match reply {
            CloudReply::Assigned(Ok(())) => {
                cache.set(floating_ip_name.clone(), holder.clone());
                Step::Done(Outcome::Reassigned { floating_ip_name, holder })
            },
            CloudReply::Assigned(Err(error)) => Step::Done(Outcome::AssignFailed { error }),
            _ => Step::Done(Outcome::UnexpectedReply),
        },
    }
}

} // verus!
