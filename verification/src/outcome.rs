//! How the reconciliation of one event ended, and what is to be logged of it.
//!
//! No ending is an error of the event stream: each one tells the caller what
//! happened and whether the holder cache recorded the event's holder. The
//! log is the only place where an operator sees the engine at work, so each
//! ending comes with its line and the severity to write it at.

use crate::cloud::CloudError;
use crate::event::EventDefect;
use vstd::prelude::*;
use vstd::string::*;

verus! {

/// How loudly a line is to be logged.
#[derive(Debug, Clone, Copy, PartialEq, Eq, Structural)]
pub enum Severity {
    Debug,
    Info,
    Warn,
    Error,
}

/// One line for the log.
#[derive(Debug, Clone, PartialEq, Eq)]
pub struct Notice {
    pub severity: Severity,
    pub line: String,
}

/// The mathematical content of a [`Notice`].
pub struct NoticeView {
    pub severity: Severity,
    pub line: Seq<char>,
}

impl View for Notice {
    type V = NoticeView;

    open spec fn view(&self) -> NoticeView {
        NoticeView { severity: self.severity, line: self.line@ }
    }
}

/// The view of a notice that may be absent.
pub open spec fn notice_view(notice: Option<Notice>) -> Option<NoticeView> {
    match notice {
        Some(notice) => Some(notice@),
        None => None,
    }
}

impl Notice {
    /// A notice whose line is fixed text.
    pub(crate) fn fixed(severity: Severity, text: &str) -> (notice: Notice)
        ensures
            notice@ == (NoticeView { severity, line: text@ }),
    {
        Notice { severity, line: String::from_str(text) }
    }

    /// A notice whose line is fixed text followed by a detail.
    pub(crate) fn ending_in(severity: Severity, head: &str, detail: &str) -> (notice: Notice)
        ensures
            notice@ == (NoticeView { severity, line: head@ + detail@ }),
    {
        let mut line = String::from_str(head);
        line.append(detail);
        Notice { severity, line }
    }

    /// A notice whose line is fixed text around one name.
    pub(crate) fn about(severity: Severity, head: &str, name: &str, tail: &str) -> (notice: Notice)
        ensures
            notice@ == (NoticeView { severity, line: head@ + name@ + tail@ }),
    {
        let mut line = String::from_str(head);
        line.append(name);
        line.append(tail);
        Notice { severity, line }
    }

    /// A notice whose line is fixed text around two names.
    pub(crate) fn about_two(
        severity: Severity,
        head: &str,
        first: &str,
        middle: &str,
        second: &str,
        tail: &str,
    ) -> (notice: Notice)
        ensures
            notice@ == (NoticeView {
                severity,
                line: head@ + first@ + middle@ + second@ + tail@,
            }),
    {
        let mut line = String::from_str(head);
        line.append(first);
        line.append(middle);
        line.append(second);
        line.append(tail);
        Notice { severity, line }
    }
}

/// The ending of one reconciliation.
#[derive(Debug, Clone, PartialEq, Eq)]
pub enum Outcome {
    /// The event was malformed; nothing was looked up.
    Rejected { defect: EventDefect },
    /// The lease controls no floating IP.
    Unmapped { lease_name: String },
    /// The cache already records this holder; the provider was not contacted.
    AlreadySynced { lease_name: String, holder: String },
    /// Listing the floating IPs failed.
    FloatingIpLookupFailed { error: CloudError },
    /// The provider knows no floating IP of the mapped name.
    FloatingIpNotFound { floating_ip_name: String },
    /// Listing the servers failed.
    ServerLookupFailed { error: CloudError },
    /// The provider knows no server named like the holder.
    ServerNotFound { holder: String },
    /// The attach call failed; the next event for the lease tries again.
    AssignFailed { error: CloudError },
    /// The floating IP was attached to the holder's server already; the
    /// cache now records the holder.
    AlreadyAttached { floating_ip_name: String, holder: String },
    /// The floating IP was attached to the holder's server; the cache now
    /// records the holder.
    Reassigned { floating_ip_name: String, holder: String },
    /// The reply does not answer the request that was pending.
    UnexpectedReply,
}

/// The mathematical content of an [`Outcome`].
pub enum OutcomeView {
    Rejected { defect: EventDefect },
    Unmapped { lease_name: Seq<char> },
    AlreadySynced { lease_name: Seq<char>, holder: Seq<char> },
    FloatingIpLookupFailed { error: Seq<char> },
    FloatingIpNotFound { floating_ip_name: Seq<char> },
    ServerLookupFailed { error: Seq<char> },
    ServerNotFound { holder: Seq<char> },
    AssignFailed { error: Seq<char> },
    AlreadyAttached { floating_ip_name: Seq<char>, holder: Seq<char> },
    Reassigned { floating_ip_name: Seq<char>, holder: Seq<char> },
    UnexpectedReply,
}

impl View for Outcome {
    type V = OutcomeView;

    open spec fn view(&self) -> OutcomeView {
        match self {
            Outcome::Rejected { defect } => OutcomeView::Rejected { defect: *defect },
            Outcome::Unmapped { lease_name } => OutcomeView::Unmapped { lease_name: lease_name@ },
            Outcome::AlreadySynced { lease_name, holder } => OutcomeView::AlreadySynced {
                lease_name: lease_name@,
                holder: holder@,
            },
            Outcome::FloatingIpLookupFailed { error } => OutcomeView::FloatingIpLookupFailed {
                error: error@,
            },
            Outcome::FloatingIpNotFound { floating_ip_name } => OutcomeView::FloatingIpNotFound {
                floating_ip_name: floating_ip_name@,
            },
            Outcome::ServerLookupFailed { error } => OutcomeView::ServerLookupFailed {
                error: error@,
            },
            Outcome::ServerNotFound { holder } => OutcomeView::ServerNotFound { holder: holder@ },
            Outcome::AssignFailed { error } => OutcomeView::AssignFailed { error: error@ },
            Outcome::AlreadyAttached { floating_ip_name, holder } => OutcomeView::AlreadyAttached {
                floating_ip_name: floating_ip_name@,
                holder: holder@,
            },
            Outcome::Reassigned { floating_ip_name, holder } => OutcomeView::Reassigned {
                floating_ip_name: floating_ip_name@,
                holder: holder@,
            },
            Outcome::UnexpectedReply => OutcomeView::UnexpectedReply,
        }
    }
}

impl OutcomeView {
    /// The cache entry that this ending wrote: floating-IP name and holder.
    /// Only an ending that found the attachment right, or made it right,
    /// writes one.
    pub open spec fn recorded(self) -> Option<(Seq<char>, Seq<char>)> {
        match self {
            OutcomeView::AlreadyAttached { floating_ip_name, holder } => Some(
                (floating_ip_name, holder),
            ),
            OutcomeView::Reassigned { floating_ip_name, holder } => Some(
                (floating_ip_name, holder),
            ),
            _ => None,
        }
    }

    /// The cache after this ending, given the cache before it.
    pub open spec fn apply(self, cache: Map<Seq<char>, Seq<char>>) -> Map<Seq<char>, Seq<char>> {
        match self.recorded() {
            Some((floating_ip_name, holder)) => cache.insert(floating_ip_name, holder),
            None => cache,
        }
    }

    /// Whether the event was given up for now, leaving the cache as it was:
    /// a resource was not found, or a provider call failed.
    pub open spec fn is_cloud_skip(self) -> bool {
        self.is_not_found() || self.is_cloud_failure()
    }

    /// Whether the provider had no resource of the name asked for.
    pub open spec fn is_not_found(self) -> bool {
        self is FloatingIpNotFound || self is ServerNotFound
    }

    /// Whether a provider call failed.
    pub open spec fn is_cloud_failure(self) -> bool {
        self is FloatingIpLookupFailed || self is ServerLookupFailed || self is AssignFailed
    }

    /// What is logged of this ending. A failed call or a malformed event is
    /// an error, a missing resource a warning, an unmanaged lease is
    /// informational, and a lease that needs no work is for debugging only.
    /// An ending that recorded the holder has no line of its own.
    pub open spec fn notice(self) -> Option<NoticeView> {
        match self {
            OutcomeView::Rejected { defect: EventDefect::MissingHolder } => Some(
                NoticeView {
                    severity: Severity::Error,
                    line: "skipping lease without a holder identity"@,
                },
            ),
            OutcomeView::Rejected { defect: EventDefect::MissingLeaseName } => Some(
                NoticeView { severity: Severity::Error, line: "skipping lease without a name"@ },
            ),
            OutcomeView::Unmapped { lease_name } => Some(
                NoticeView {
                    severity: Severity::Info,
                    line: "skipping lease '"@ + lease_name
                        + "' which is not mapped to a floating ip"@,
                },
            ),
            OutcomeView::AlreadySynced { lease_name, holder } => Some(
                NoticeView {
                    severity: Severity::Debug,
                    line: "lease '"@ + lease_name + "' is already held by node '"@ + holder
                        + "', skipping"@,
                },
            ),
            OutcomeView::FloatingIpLookupFailed { error } => Some(
                NoticeView {
                    severity: Severity::Error,
                    line: "failed to list floating ips: "@ + error,
                },
            ),
            OutcomeView::FloatingIpNotFound { floating_ip_name } => Some(
                NoticeView {
                    severity: Severity::Warn,
                    line: "floating ip '"@ + floating_ip_name + "' not found"@,
                },
            ),
            OutcomeView::ServerLookupFailed { error } => Some(
                NoticeView {
                    severity: Severity::Error,
                    line: "failed to list servers: "@ + error,
                },
            ),
            OutcomeView::ServerNotFound { holder } => Some(
                NoticeView { severity: Severity::Warn, line: "server '"@ + holder + "' not found"@ },
            ),
            OutcomeView::AssignFailed { error } => Some(
                NoticeView {
                    severity: Severity::Error,
                    line: "failed to assign floating ip: "@ + error,
                },
            ),
            OutcomeView::AlreadyAttached { .. } => None,
            OutcomeView::Reassigned { .. } => None,
            OutcomeView::UnexpectedReply => Some(
                NoticeView {
                    severity: Severity::Error,
                    line: "provider reply does not answer the pending call"@,
                },
            ),
        }
    }

    /// How loudly this ending is logged, if it is logged.
    pub open spec fn severity(self) -> Option<Severity> {
        match self.notice() {
            Some(notice) => Some(notice.severity),
            None => None,
        }
    }
}

impl Outcome {
    /// What is to be logged of this ending, if anything.
    pub fn notice(&self) -> (notice: Option<Notice>)
        ensures
            notice_view(notice) == self@.notice(),
    {
        match self {
            Outcome::Rejected { defect: EventDefect::MissingHolder } => Some(
                Notice::fixed(Severity::Error, "skipping lease without a holder identity"),
            ),
            Outcome::Rejected { defect: EventDefect::MissingLeaseName } => Some(
                Notice::fixed(Severity::Error, "skipping lease without a name"),
            ),
            Outcome::Unmapped { lease_name } => Some(
                Notice::about(
                    Severity::Info,
                    "skipping lease '",
                    lease_name.as_str(),
                    "' which is not mapped to a floating ip",
                ),
            ),
            Outcome::AlreadySynced { lease_name, holder } => Some(
                Notice::about_two(
                    Severity::Debug,
                    "lease '",
                    lease_name.as_str(),
                    "' is already held by node '",
                    holder.as_str(),
                    "', skipping",
                ),
            ),
            Outcome::FloatingIpLookupFailed { error } => Some(
                Notice::ending_in(
                    Severity::Error,
                    "failed to list floating ips: ",
                    error.message.as_str(),
                ),
            ),
            Outcome::FloatingIpNotFound { floating_ip_name } => Some(
                Notice::about(
                    Severity::Warn,
                    "floating ip '",
                    floating_ip_name.as_str(),
                    "' not found",
                ),
            ),
            Outcome::ServerLookupFailed { error } => Some(
                Notice::ending_in(
                    Severity::Error,
                    "failed to list servers: ",
                    error.message.as_str(),
                ),
            ),
            Outcome::ServerNotFound { holder } => Some(
                Notice::about(Severity::Warn, "server '", holder.as_str(), "' not found"),
            ),
            Outcome::AssignFailed { error } => Some(
                Notice::ending_in(
                    Severity::Error,
                    "failed to assign floating ip: ",
                    error.message.as_str(),
                ),
            ),
            Outcome::AlreadyAttached { .. } => None,
            Outcome::Reassigned { .. } => None,
            Outcome::UnexpectedReply => Some(
                Notice::fixed(Severity::Error, "provider reply does not answer the pending call"),
            ),
        }
    }

    /// Whether this ending wrote the event's holder into the cache.
    pub fn is_recorded(&self) -> (recorded: bool)
        ensures
            recorded == self@.recorded().is_some(),
    {
        match self {
            Outcome::AlreadyAttached { .. } => true,
            Outcome::Reassigned { .. } => true,
            _ => false,
        }
    }
}

} // verus!
