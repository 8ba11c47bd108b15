//! Whole reconciliations, and what holds of them.
//!
//! A caller that follows the protocol of the engine (begin, make the call
//! that is pending, resume with the reply, until done) carries out a
//! [`run`]. This module defines the run as a mathematical function of the
//! provider's replies, and proves what the engine guarantees about it:
//! repeated events cost nothing, the cache is written only after the
//! attachment is known to be right, and a failing provider never disturbs
//! the cache.

use crate::cache::is_synced;
use crate::cloud::{CloudReplyView, CloudRequestView, FloatingIpResource, ServerResourceView};
use crate::engine::{attached_to, begin_spec, resume_spec, StepView};
use crate::event::LeaseEventView;
use crate::mapping::{
    lemma_table_maps_binding, lemma_table_misses_foreign_lease, table_of, ServiceBindingView,
};
use crate::outcome::{NoticeView, OutcomeView, Severity};
use vstd::prelude::*;

verus! {

/// What the provider answers during one reconciliation: one reply for each
/// kind of call, whether or not the call is made. A reconciliation makes each
/// kind of call at most once, so three replies describe any provider.
pub struct CloudScript {
    pub floating_ips: Result<Seq<FloatingIpResource>, Seq<char>>,
    pub servers: Result<Seq<ServerResourceView>, Seq<char>>,
    pub assigned: Result<(), Seq<char>>,
}

impl CloudScript {
    /// The provider's reply to a request.
    pub open spec fn answer(self, request: CloudRequestView) -> CloudReplyView {
        match request {
            CloudRequestView::FindFloatingIp { .. } => CloudReplyView::FloatingIps(
                self.floating_ips,
            ),
            CloudRequestView::FindServer { .. } => CloudReplyView::Servers(self.servers),
            CloudRequestView::AssignFloatingIp { .. } => CloudReplyView::Assigned(self.assigned),
        }
    }

    /// Whether the lookup of the floating IP finds one.
    pub open spec fn finds_floating_ip(self) -> bool {
        self.floating_ips is Ok && self.floating_ips->Ok_0.len() > 0
    }

    /// Whether the lookup of the server finds one.
    pub open spec fn finds_server(self) -> bool {
        self.servers is Ok && self.servers->Ok_0.len() > 0
    }

    /// Whether both lookups find their resource and the floating IP found is
    /// attached to the server found.
    pub open spec fn attachment_is_right(self) -> bool {
        &&& self.finds_floating_ip()
        &&& self.finds_server()
        &&& attached_to(self.floating_ips->Ok_0[0], self.servers->Ok_0[0].id)
    }
}

/// A finished reconciliation: the cache it left, the provider calls it made
/// and the lines it logged, each in order, and how it ended.
pub struct Run {
    pub cache: Map<Seq<char>, Seq<char>>,
    pub calls: Seq<CloudRequestView>,
    pub log: Seq<NoticeView>,
    pub outcome: OutcomeView,
}

/// The lines that one step adds to the log: its notice, if it has one.
pub open spec fn logged(notice: Option<NoticeView>) -> Seq<NoticeView> {
    match notice {
        Some(notice) => seq![notice],
        None => Seq::empty(),
    }
}

impl Run {
    /// Whether the reconciliation made no call that changes provider state.
    pub open spec fn is_read_only(self) -> bool {
        forall|k: int| 0 <= k < self.calls.len() ==> !(#[trigger] self.calls[k]).is_mutating()
    }

    /// Whether the reconciliation did nothing: no provider call, and the
    /// cache it left is the cache it found.
    pub open spec fn is_noop(self, cache_before: Map<Seq<char>, Seq<char>>) -> bool {
        self.calls.len() == 0 && self.cache == cache_before
    }
}

/// Carries a reconciliation on from `step` until it is done, answering each
/// pending call from the script and logging what each step logs.
pub open spec fn drive(cache: Map<Seq<char>, Seq<char>>, step: StepView, script: CloudScript) -> Run
    decreases step.calls_left(),
{
    match step {
        StepView::Done(outcome) => Run {
            cache,
            calls: Seq::empty(),
            log: logged(outcome.notice()),
            outcome,
        },
        StepView::Call(pending) => {
            let next = resume_spec(pending, script.answer(pending.request()));
            let rest = drive(next.apply(cache), next, script);
            Run {
                cache: rest.cache,
                calls: seq![pending.request()] + rest.calls,
                log: logged(pending.notice()) + rest.log,
                outcome: rest.outcome,
            }
        },
    }
}

/// The reconciliation of one event from beginning to end.
pub open spec fn run(
    mapping: Map<Seq<char>, Seq<char>>,
    cache: Map<Seq<char>, Seq<char>>,
    event: LeaseEventView,
    script: CloudScript,
) -> Run {
    drive(cache, begin_spec(mapping, cache, event), script)
}

/// One delivery of an event, with what the provider answers while the event
/// is reconciled.
pub struct Delivery {
    pub event: LeaseEventView,
    pub script: CloudScript,
}

/// The cache that a sequence of runs leaves, given the cache before the
/// first of them.
pub open spec fn cache_after(cache: Map<Seq<char>, Seq<char>>, runs: Seq<Run>) -> Map<
    Seq<char>,
    Seq<char>,
> {
    if runs.len() == 0 {
        cache
    } else {
        runs.last().cache
    }
}

/// The reconciliations of a sequence of deliveries, one at a time and in
/// order, each starting from the cache that the one before it left.
pub open spec fn history(
    mapping: Map<Seq<char>, Seq<char>>,
    cache: Map<Seq<char>, Seq<char>>,
    deliveries: Seq<Delivery>,
) -> Seq<Run>
    decreases deliveries.len(),
{
    if deliveries.len() == 0 {
        Seq::empty()
    } else {
        let earlier = history(mapping, cache, deliveries.drop_last());
        earlier.push(
            run(
                mapping,
                cache_after(cache, earlier),
                deliveries.last().event,
                deliveries.last().script,
            ),
        )
    }
}

/// The holder that the latest recording run among `runs` recorded for a
/// floating IP, if any run recorded one.
pub open spec fn last_recorded(runs: Seq<Run>, floating_ip_name: Seq<char>) -> Option<Seq<char>>
    decreases runs.len(),
{
    if runs.len() == 0 {
        None
    } else {
        match runs.last().outcome.recorded() {
            Some((name, holder)) => if name == floating_ip_name {
                Some(holder)
            } else {
                last_recorded(runs.drop_last(), floating_ip_name)
            },
            None => last_recorded(runs.drop_last(), floating_ip_name),
        }
    }
}

/// Whether a reconciliation that ended with `outcome` left the cache holding
/// its event's holder for its event's floating IP: it found the cache so, or
/// recorded the holder itself.
pub open spec fn settled(outcome: OutcomeView) -> bool {
    outcome is AlreadySynced || outcome.recorded() is Some
}

/// A run writes the cache at most once, at its end, and only the entry of
/// the event's floating IP with the event's holder; it writes only when it
/// ends with the attachment right: found so, or made so by an attach call
/// that went through. No entry is ever removed, and the entries of other
/// floating IPs stay as they are.
pub proof fn theorem_cache_written_only_on_success(
    mapping: Map<Seq<char>, Seq<char>>,
    cache: Map<Seq<char>, Seq<char>>,
    event: LeaseEventView,
    script: CloudScript,
)
    ensures
        ({
            let done = run(mapping, cache, event, script);
            &&& done.cache == done.outcome.apply(cache)
            &&& done.outcome.recorded() is Some ==> {
                &&& event.defect() is None
                &&& mapping.contains_key(event.lease_name->0)
                &&& done.outcome.recorded() == Some(
                    (mapping[event.lease_name->0], event.holder_identity->0),
                )
                &&& script.finds_floating_ip()
                &&& script.finds_server()
                &&& (script.attachment_is_right() || script.assigned is Ok)
            }
            &&& done.outcome.recorded() is None ==> done.cache == cache
            &&& forall|name: Seq<char>|
                cache.contains_key(name) ==> #[trigger] done.cache.contains_key(name)
            &&& forall|name: Seq<char>|
                done.outcome.recorded() is Some && name != mapping[event.lease_name->0]
                    ==> #[trigger] done.cache.get(name) == cache.get(name)
        }),
{
    reveal_with_fuel(drive, 4);
}

/// Every run makes its calls in the fixed order and stops at the first that
/// does not lead on: at most one lookup of the floating IP, then at most one
/// of the server, then at most one attach call, which is the only call that
/// changes provider state. The attach call names the resources that the
/// lookups found, and is never made for a floating IP that is attached to
/// the server already.
pub proof fn theorem_calls_are_ordered(
    mapping: Map<Seq<char>, Seq<char>>,
    cache: Map<Seq<char>, Seq<char>>,
    event: LeaseEventView,
    script: CloudScript,
)
    ensures
        ({
            let done = run(mapping, cache, event, script);
            &&& done.calls.len() <= 3
            &&& done.calls.len() >= 1 ==> done.calls[0] == CloudRequestView::FindFloatingIp {
                name: mapping[event.lease_name->0],
            }
            &&& done.calls.len() >= 2 ==> done.calls[1] == CloudRequestView::FindServer {
                name: event.holder_identity->0,
            }
            &&& done.calls.len() == 3 ==> done.calls[2] == CloudRequestView::AssignFloatingIp {
                floating_ip_id: script.floating_ips->Ok_0[0].id,
                server_id: script.servers->Ok_0[0].id,
            }
            &&& done.calls.len() == 3 ==> !script.attachment_is_right()
            &&& done.calls.len() == 3 <==> done.outcome is Reassigned || done.outcome is AssignFailed
            &&& done.calls.len() < 3 ==> done.is_read_only()
        }),
{
    reveal_with_fuel(drive, 4);
}

/// Once the cache holds the event's holder for the event's floating IP, the
/// event is a no-op: no provider call is made and the cache stays as it is.
pub proof fn theorem_synced_event_is_noop(
    mapping: Map<Seq<char>, Seq<char>>,
    cache: Map<Seq<char>, Seq<char>>,
    event: LeaseEventView,
    script: CloudScript,
)
    requires
        event.defect() is None,
        mapping.contains_key(event.lease_name->0),
        is_synced(cache, mapping[event.lease_name->0], event.holder_identity->0),
    ensures
        run(mapping, cache, event, script).is_noop(cache),
        run(mapping, cache, event, script).outcome == (OutcomeView::AlreadySynced {
            lease_name: event.lease_name->0,
            holder: event.holder_identity->0,
        }),
{
    reveal_with_fuel(drive, 1);
}

/// A run that settles leaves the cache synced for its event.
pub proof fn theorem_settled_run_syncs_cache(
    mapping: Map<Seq<char>, Seq<char>>,
    cache: Map<Seq<char>, Seq<char>>,
    event: LeaseEventView,
    script: CloudScript,
)
    requires
        settled(run(mapping, cache, event, script).outcome),
    ensures
        event.defect() is None,
        mapping.contains_key(event.lease_name->0),
        is_synced(
            run(mapping, cache, event, script).cache,
            mapping[event.lease_name->0],
            event.holder_identity->0,
        ),
{
    reveal_with_fuel(drive, 4);
}

/// A history has one run per delivery, and each run is the run of its
/// delivery from the cache that the run before it left, the first from the
/// initial cache.
pub proof fn lemma_history_step(
    mapping: Map<Seq<char>, Seq<char>>,
    cache: Map<Seq<char>, Seq<char>>,
    deliveries: Seq<Delivery>,
    k: int,
)
    requires
        0 <= k < deliveries.len(),
    ensures
        history(mapping, cache, deliveries).len() == deliveries.len(),
        history(mapping, cache, deliveries)[k] == run(
            mapping,
            cache_after(cache, history(mapping, cache, deliveries).take(k)),
            deliveries[k].event,
            deliveries[k].script,
        ),
        history(mapping, cache, deliveries).take(k) == history(mapping, cache, deliveries.take(k)),
    decreases deliveries.len(),
{
    let runs = history(mapping, cache, deliveries);
    let earlier = history(mapping, cache, deliveries.drop_last());
    if deliveries.len() > 1 {
        lemma_history_step(mapping, cache, deliveries.drop_last(), deliveries.len() - 2);
    }
    assert(runs.len() == deliveries.len());
    if k < deliveries.len() - 1 {
        lemma_history_step(mapping, cache, deliveries.drop_last(), k);
        assert(runs.take(k) =~= earlier.take(k));
        assert(deliveries.take(k) =~= deliveries.drop_last().take(k));
    } else {
        assert(runs.take(k) =~= earlier);
        assert(deliveries.take(k) =~= deliveries.drop_last());
    }
}

/// Reconciling is idempotent. When the same event is delivered again and
/// again, whatever the provider answers each time: after the first delivery
/// that settles, every later delivery is a no-op. It makes no provider call,
/// changing or not, and leaves the cache as the settling delivery left it.
pub proof fn theorem_repeated_event_is_noop(
    mapping: Map<Seq<char>, Seq<char>>,
    cache: Map<Seq<char>, Seq<char>>,
    deliveries: Seq<Delivery>,
    i: int,
    j: int,
)
    requires
        0 <= i < j < deliveries.len(),
        forall|k: int| i < k <= j ==> (#[trigger] deliveries[k]).event == deliveries[i].event,
        settled(history(mapping, cache, deliveries)[i].outcome),
    ensures
        history(mapping, cache, deliveries)[j].calls.len() == 0,
        history(mapping, cache, deliveries)[j].cache == history(mapping, cache, deliveries)[i].cache,
        history(mapping, cache, deliveries)[j].outcome is AlreadySynced,
    decreases j - i,
{
    let runs = history(mapping, cache, deliveries);
    let event = deliveries[i].event;
    lemma_history_step(mapping, cache, deliveries, i);
    lemma_history_step(mapping, cache, deliveries, j - 1);
    lemma_history_step(mapping, cache, deliveries, j);
    // The cache that delivery j finds is the one that delivery j - 1 left.
    assert(runs.take(j).last() == runs[j - 1]);
    if i < j - 1 {
        theorem_repeated_event_is_noop(mapping, cache, deliveries, i, j - 1);
    }
    // Delivery j - 1 settled, or was a no-op after the one that did: either
    // way it left the cache synced for the event.
    theorem_settled_run_syncs_cache(
        mapping,
        cache_after(cache, runs.take(j - 1)),
        event,
        deliveries[j - 1].script,
    );
    theorem_synced_event_is_noop(mapping, runs[j - 1].cache, event, deliveries[j].script);
}

/// The cache mirrors what was handled last. After any sequence of
/// deliveries, the entry of a floating IP holds the holder that the latest
/// recording run recorded for it; where no run recorded one, the entry is
/// as it was before the first delivery.
pub proof fn theorem_cache_holds_last_recorded_holder(
    mapping: Map<Seq<char>, Seq<char>>,
    cache: Map<Seq<char>, Seq<char>>,
    deliveries: Seq<Delivery>,
    floating_ip_name: Seq<char>,
)
    ensures
        ({
            let runs = history(mapping, cache, deliveries);
            cache_after(cache, runs).get(floating_ip_name) == match last_recorded(
                runs,
                floating_ip_name,
            ) {
                Some(holder) => Some(holder),
                None => cache.get(floating_ip_name),
            }
        }),
    decreases deliveries.len(),
{
    if deliveries.len() > 0 {
        let earlier = history(mapping, cache, deliveries.drop_last());
        let runs = history(mapping, cache, deliveries);
        theorem_cache_holds_last_recorded_holder(
            mapping,
            cache,
            deliveries.drop_last(),
            floating_ip_name,
        );
        theorem_cache_written_only_on_success(
            mapping,
            cache_after(cache, earlier),
            deliveries.last().event,
            deliveries.last().script,
        );
        assert(runs.drop_last() =~= earlier);
    }
}

/// A lease resolves to the floating IP of its service. For a binding that no
/// later binding overrides, an event for the lease of the binding's service
/// leads to the binding's floating IP: unless the cache is synced already, the
/// run starts by looking up exactly that floating IP, and whatever it records
/// it records under that name.
pub proof fn theorem_bound_lease_resolves_its_floating_ip(
    bindings: Seq<ServiceBindingView>,
    i: int,
    cache: Map<Seq<char>, Seq<char>>,
    holder: Seq<char>,
    script: CloudScript,
)
    requires
        0 <= i < bindings.len(),
        forall|j: int|
            i < j < bindings.len() ==> (#[trigger] bindings[j]).lease_key()
                != bindings[i].lease_key(),
    ensures
        ({
            let event = LeaseEventView::of(bindings[i].lease_key(), holder);
            let done = run(table_of(bindings), cache, event, script);
            let floating_ip_name = bindings[i].floating_ip_name;
            &&& is_synced(cache, floating_ip_name, holder) ==> done.is_noop(cache)
            &&& !is_synced(cache, floating_ip_name, holder) ==> {
                &&& done.calls.len() >= 1
                &&& done.calls[0] == CloudRequestView::FindFloatingIp { name: floating_ip_name }
            }
            &&& done.outcome.recorded() is Some ==> done.outcome.recorded() == Some(
                (floating_ip_name, holder),
            )
        }),
{
    lemma_table_maps_binding(bindings, i);
    reveal_with_fuel(drive, 4);
}

/// Leases of other services are left alone. An event for a lease that no
/// binding's service derives is a no-op: no provider call, no cache write.
pub proof fn theorem_foreign_lease_is_noop(
    bindings: Seq<ServiceBindingView>,
    lease_name: Seq<char>,
    cache: Map<Seq<char>, Seq<char>>,
    holder: Seq<char>,
    script: CloudScript,
)
    requires
        forall|i: int|
            0 <= i < bindings.len() ==> (#[trigger] bindings[i]).lease_key() != lease_name,
    ensures
        ({
            let event = LeaseEventView::of(lease_name, holder);
            let done = run(table_of(bindings), cache, event, script);
            &&& done.is_noop(cache)
            &&& done.outcome == OutcomeView::Unmapped { lease_name }
        }),
{
    lemma_table_misses_foreign_lease(bindings, lease_name);
    reveal_with_fuel(drive, 1);
}

/// A right attachment is confirmed, not repeated. Where the floating IP found
/// is attached to the server found, the run makes no call that changes
/// provider state, and the cache it leaves records the event's holder for the
/// floating IP.
pub proof fn theorem_right_attachment_is_recorded_without_mutation(
    mapping: Map<Seq<char>, Seq<char>>,
    cache: Map<Seq<char>, Seq<char>>,
    event: LeaseEventView,
    script: CloudScript,
)
    requires
        event.defect() is None,
        mapping.contains_key(event.lease_name->0),
        script.attachment_is_right(),
    ensures
        ({
            let done = run(mapping, cache, event, script);
            &&& done.is_read_only()
            &&& done.cache == cache.insert(mapping[event.lease_name->0], event.holder_identity->0)
            &&& settled(done.outcome)
        }),
{
    reveal_with_fuel(drive, 4);
    let floating_ip_name = mapping[event.lease_name->0];
    let holder = event.holder_identity->0;
    if is_synced(cache, floating_ip_name, holder) {
        assert(cache =~= cache.insert(floating_ip_name, holder));
    }
}

/// The engine converges after the cache is lost. From the empty cache, an
/// event whose holder's server already has the floating IP makes the two
/// lookups and no other call, and leaves a cache that holds exactly the
/// event's holder for the floating IP.
pub proof fn theorem_cold_cache_converges_without_mutation(
    mapping: Map<Seq<char>, Seq<char>>,
    event: LeaseEventView,
    script: CloudScript,
)
    requires
        event.defect() is None,
        mapping.contains_key(event.lease_name->0),
        script.attachment_is_right(),
    ensures
        ({
            let done = run(mapping, Map::empty(), event, script);
            let floating_ip_name = mapping[event.lease_name->0];
            let holder = event.holder_identity->0;
            &&& done.calls == seq![
                CloudRequestView::FindFloatingIp { name: floating_ip_name },
                CloudRequestView::FindServer { name: holder },
            ]
            &&& done.is_read_only()
            &&& done.cache == Map::<Seq<char>, Seq<char>>::empty().insert(floating_ip_name, holder)
            &&& done.outcome == OutcomeView::AlreadyAttached { floating_ip_name, holder }
        }),
{
    reveal_with_fuel(drive, 4);
    let done = run(mapping, Map::empty(), event, script);
    assert(done.calls =~= seq![
        CloudRequestView::FindFloatingIp { name: mapping[event.lease_name->0] },
        CloudRequestView::FindServer { name: event.holder_identity->0 },
    ]);
}

/// A failing provider is not fatal and does no harm. Where a lookup that the
/// run makes fails or finds nothing, the run gives the event up: it leaves the
/// cache untouched, makes no call that changes provider state, and logs one
/// line, a warning for a resource that was not found and an error for a call
/// that failed.
pub proof fn theorem_failed_resolution_leaves_cache_untouched(
    mapping: Map<Seq<char>, Seq<char>>,
    cache: Map<Seq<char>, Seq<char>>,
    event: LeaseEventView,
    script: CloudScript,
)
    requires
        event.defect() is None,
        mapping.contains_key(event.lease_name->0),
        !is_synced(cache, mapping[event.lease_name->0], event.holder_identity->0),
        !script.finds_floating_ip() || !script.finds_server(),
    ensures
        ({
            let done = run(mapping, cache, event, script);
            &&& done.cache == cache
            &&& done.is_read_only()
            &&& done.outcome.is_cloud_skip()
            &&& done.outcome.notice() is Some
            &&& done.log == seq![done.outcome.notice()->0]
            &&& done.outcome.is_not_found() ==> done.outcome.severity() == Some(Severity::Warn)
            &&& done.outcome.is_cloud_failure() ==> done.outcome.severity() == Some(
                Severity::Error,
            )
            &&& script.floating_ips is Err ==> done.outcome is FloatingIpLookupFailed
            &&& script.floating_ips is Ok && !script.finds_floating_ip()
                ==> done.outcome is FloatingIpNotFound
            &&& script.finds_floating_ip() && script.servers is Err
                ==> done.outcome is ServerLookupFailed
            &&& script.finds_floating_ip() && script.servers is Ok ==> done.outcome is ServerNotFound
        }),
{
    reveal_with_fuel(drive, 4);
    let done = run(mapping, cache, event, script);
    assert(done.log =~= seq![done.outcome.notice()->0]);
}

/// A failed attach call leaves the cache untouched, so the next delivery of
/// the event starts from scratch, with the lookup of the floating IP.
pub proof fn theorem_failed_assign_is_retried(
    mapping: Map<Seq<char>, Seq<char>>,
    cache: Map<Seq<char>, Seq<char>>,
    event: LeaseEventView,
    script: CloudScript,
    next_script: CloudScript,
)
    requires
        run(mapping, cache, event, script).outcome is AssignFailed,
    ensures
        ({
            let failed = run(mapping, cache, event, script);
            let retry = run(mapping, failed.cache, event, next_script);
            &&& failed.cache == cache
            &&& failed.outcome.severity() == Some(Severity::Error)
            &&& retry.calls.len() >= 1
            &&& retry.calls[0] == CloudRequestView::FindFloatingIp {
                name: mapping[event.lease_name->0],
            }
        }),
{
    reveal_with_fuel(drive, 4);
}

} // verus!
