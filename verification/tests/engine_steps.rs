use fip_reconciler::cache::HolderCache;
use fip_reconciler::cloud::{
    CloudError, CloudReply, CloudRequest, FloatingIpResource, ServerResource,
};
use fip_reconciler::engine::{begin, resume, Pending, Step};
use fip_reconciler::event::{EventDefect, LeaseEvent};
use fip_reconciler::mapping::{MappingTable, ServiceBinding};
use fip_reconciler::outcome::{Notice, Outcome, Severity};

const WEB_LEASE: &str = "cilium-l2announce-default-web";

fn web_table() -> MappingTable {
    MappingTable::from_bindings(&vec![ServiceBinding {
        floating_ip_name: "fip-a".to_string(),
        service_name: "web".to_string(),
        service_namespace: "default".to_string(),
    }])
}

fn failure(message: &str) -> CloudError {
    CloudError { message: message.to_string() }
}

fn awaiting_floating_ip() -> Pending {
    Pending::FloatingIp { floating_ip_name: "fip-a".to_string(), holder: "node-1".to_string() }
}

fn awaiting_server(attached_to: Option<i64>) -> Pending {
    Pending::Server {
        floating_ip_name: "fip-a".to_string(),
        holder: "node-1".to_string(),
        floating_ip: FloatingIpResource { id: 100, server: attached_to },
    }
}

fn awaiting_assign() -> Pending {
    Pending::Assign {
        floating_ip_name: "fip-a".to_string(),
        holder: "node-1".to_string(),
        floating_ip_id: 100,
        server_id: 51,
    }
}

fn server(id: i64, name: &str) -> ServerResource {
    ServerResource { id, name: name.to_string() }
}

fn notice(severity: Severity, line: &str) -> Option<Notice> {
    Some(Notice { severity, line: line.to_string() })
}

#[test]
fn event_without_holder_is_rejected() {
    let event = LeaseEvent { lease_name: Some(WEB_LEASE.to_string()), holder_identity: None };
    assert_eq!(event.defect(), Some(EventDefect::MissingHolder));
    let step = begin(&web_table(), &HolderCache::new(), event);
    assert_eq!(step, Step::Done(Outcome::Rejected { defect: EventDefect::MissingHolder }));
}

#[test]
fn event_without_name_is_rejected() {
    let event = LeaseEvent { lease_name: None, holder_identity: Some("node-1".to_string()) };
    assert_eq!(event.defect(), Some(EventDefect::MissingLeaseName));
    let step = begin(&web_table(), &HolderCache::new(), event);
    assert_eq!(step, Step::Done(Outcome::Rejected { defect: EventDefect::MissingLeaseName }));
}

#[test]
fn missing_holder_is_reported_before_missing_name() {
    let event = LeaseEvent { lease_name: None, holder_identity: None };
    assert_eq!(event.defect(), Some(EventDefect::MissingHolder));
    let step = begin(&web_table(), &HolderCache::new(), event);
    assert_eq!(step, Step::Done(Outcome::Rejected { defect: EventDefect::MissingHolder }));
}

#[test]
fn complete_event_has_no_defect() {
    let event = LeaseEvent::new(WEB_LEASE, "node-1");
    assert_eq!(event.lease_name, Some(WEB_LEASE.to_string()));
    assert_eq!(event.holder_identity, Some("node-1".to_string()));
    assert_eq!(event.defect(), None);
}

#[test]
fn unmapped_lease_ends_at_once() {
    let step = begin(
        &web_table(),
        &HolderCache::new(),
        LeaseEvent::new("cilium-l2announce-default-api", "node-1"),
    );
    assert_eq!(
        step,
        Step::Done(Outcome::Unmapped { lease_name: "cilium-l2announce-default-api".to_string() })
    );
}

#[test]
fn mapped_lease_with_cold_cache_asks_for_the_floating_ip() {
    let step = begin(&web_table(), &HolderCache::new(), LeaseEvent::new(WEB_LEASE, "node-1"));
    assert_eq!(step, Step::Call(awaiting_floating_ip()));
}

#[test]
fn cached_holder_ends_at_once() {
    let mut cache = HolderCache::new();
    cache.set("fip-a".to_string(), "node-1".to_string());
    let step = begin(&web_table(), &cache, LeaseEvent::new(WEB_LEASE, "node-1"));
    assert_eq!(
        step,
        Step::Done(Outcome::AlreadySynced {
            lease_name: WEB_LEASE.to_string(),
            holder: "node-1".to_string(),
        })
    );
}

#[test]
fn changed_holder_asks_for_the_floating_ip_again() {
    let mut cache = HolderCache::new();
    cache.set("fip-a".to_string(), "node-0".to_string());
    let step = begin(&web_table(), &cache, LeaseEvent::new(WEB_LEASE, "node-1"));
    assert_eq!(step, Step::Call(awaiting_floating_ip()));
    assert_eq!(cache.get("fip-a"), Some("node-0".to_string()));
}

#[test]
fn holder_cached_for_another_floating_ip_does_not_count() {
    let mut cache = HolderCache::new();
    cache.set("fip-b".to_string(), "node-1".to_string());
    let step = begin(&web_table(), &cache, LeaseEvent::new(WEB_LEASE, "node-1"));
    assert_eq!(step, Step::Call(awaiting_floating_ip()));
}

#[test]
fn empty_holder_identity_is_looked_up_like_any_other() {
    let step = begin(&web_table(), &HolderCache::new(), LeaseEvent::new(WEB_LEASE, ""));
    assert_eq!(
        step,
        Step::Call(Pending::FloatingIp {
            floating_ip_name: "fip-a".to_string(),
            holder: String::new(),
        })
    );
}

#[test]
fn pending_names_its_request() {
    assert_eq!(
        awaiting_floating_ip().request(),
        CloudRequest::FindFloatingIp { name: "fip-a".to_string() }
    );
    assert_eq!(
        awaiting_server(None).request(),
        CloudRequest::FindServer { name: "node-1".to_string() }
    );
    assert_eq!(
        awaiting_assign().request(),
        CloudRequest::AssignFloatingIp { floating_ip_id: 100, server_id: 51 }
    );
}

#[test]
fn only_the_attach_call_is_mutating() {
    assert!(!awaiting_floating_ip().request().is_mutating());
    assert!(!awaiting_server(None).request().is_mutating());
    assert!(awaiting_assign().request().is_mutating());
}

#[test]
fn found_floating_ip_leads_to_the_server_lookup() {
    let mut cache = HolderCache::new();
    let step = resume(
        &mut cache,
        awaiting_floating_ip(),
        CloudReply::FloatingIps(Ok(vec![FloatingIpResource { id: 100, server: Some(50) }])),
    );
    assert_eq!(step, Step::Call(awaiting_server(Some(50))));
    assert_eq!(cache.get("fip-a"), None);
}

#[test]
fn first_of_several_floating_ips_counts() {
    let mut cache = HolderCache::new();
    let step = resume(
        &mut cache,
        awaiting_floating_ip(),
        CloudReply::FloatingIps(Ok(vec![
            FloatingIpResource { id: 7, server: None },
            FloatingIpResource { id: 100, server: Some(50) },
        ])),
    );
    assert_eq!(
        step,
        Step::Call(Pending::Server {
            floating_ip_name: "fip-a".to_string(),
            holder: "node-1".to_string(),
            floating_ip: FloatingIpResource { id: 7, server: None },
        })
    );
}

#[test]
fn missing_floating_ip_ends_with_a_warning() {
    let mut cache = HolderCache::new();
    let step = resume(&mut cache, awaiting_floating_ip(), CloudReply::FloatingIps(Ok(vec![])));
    let expected = Outcome::FloatingIpNotFound { floating_ip_name: "fip-a".to_string() };
    assert_eq!(expected.notice(), notice(Severity::Warn, "floating ip 'fip-a' not found"));
    assert_eq!(step, Step::Done(expected));
    assert_eq!(cache.get("fip-a"), None);
}

#[test]
fn failed_floating_ip_lookup_ends_with_an_error() {
    let mut cache = HolderCache::new();
    let step = resume(
        &mut cache,
        awaiting_floating_ip(),
        CloudReply::FloatingIps(Err(failure("rate limit exceeded"))),
    );
    let expected = Outcome::FloatingIpLookupFailed { error: failure("rate limit exceeded") };
    assert_eq!(
        expected.notice(),
        notice(Severity::Error, "failed to list floating ips: rate limit exceeded")
    );
    assert_eq!(step, Step::Done(expected));
    assert_eq!(cache.get("fip-a"), None);
}

#[test]
fn found_server_leads_to_the_attach_call() {
    let mut cache = HolderCache::new();
    let step = resume(
        &mut cache,
        awaiting_server(Some(50)),
        CloudReply::Servers(Ok(vec![server(51, "node-1")])),
    );
    assert_eq!(step, Step::Call(awaiting_assign()));
    assert_eq!(cache.get("fip-a"), None);
}

#[test]
fn unattached_floating_ip_leads_to_the_attach_call() {
    let mut cache = HolderCache::new();
    let step = resume(
        &mut cache,
        awaiting_server(None),
        CloudReply::Servers(Ok(vec![server(51, "node-1")])),
    );
    assert_eq!(step, Step::Call(awaiting_assign()));
}

#[test]
fn first_of_several_servers_counts() {
    let mut cache = HolderCache::new();
    let step = resume(
        &mut cache,
        awaiting_server(Some(50)),
        CloudReply::Servers(Ok(vec![server(51, "node-1"), server(50, "node-1")])),
    );
    assert_eq!(step, Step::Call(awaiting_assign()));
}

#[test]
fn right_attachment_is_recorded_without_attach_call() {
    let mut cache = HolderCache::new();
    let step = resume(
        &mut cache,
        awaiting_server(Some(51)),
        CloudReply::Servers(Ok(vec![server(51, "node-1")])),
    );
    let expected = Outcome::AlreadyAttached {
        floating_ip_name: "fip-a".to_string(),
        holder: "node-1".to_string(),
    };
    assert!(expected.is_recorded());
    assert_eq!(step, Step::Done(expected));
    assert_eq!(cache.get("fip-a"), Some("node-1".to_string()));
}

#[test]
fn missing_server_ends_with_a_warning() {
    let mut cache = HolderCache::new();
    cache.set("fip-a".to_string(), "node-0".to_string());
    let step = resume(&mut cache, awaiting_server(Some(50)), CloudReply::Servers(Ok(vec![])));
    let expected = Outcome::ServerNotFound { holder: "node-1".to_string() };
    assert_eq!(expected.notice(), notice(Severity::Warn, "server 'node-1' not found"));
    assert_eq!(step, Step::Done(expected));
    assert_eq!(cache.get("fip-a"), Some("node-0".to_string()));
}

#[test]
fn failed_server_lookup_ends_with_an_error() {
    let mut cache = HolderCache::new();
    let step = resume(
        &mut cache,
        awaiting_server(Some(50)),
        CloudReply::Servers(Err(failure("connection reset"))),
    );
    let expected = Outcome::ServerLookupFailed { error: failure("connection reset") };
    assert_eq!(
        expected.notice(),
        notice(Severity::Error, "failed to list servers: connection reset")
    );
    assert_eq!(step, Step::Done(expected));
    assert_eq!(cache.get("fip-a"), None);
}

#[test]
fn successful_attach_call_is_recorded() {
    let mut cache = HolderCache::new();
    cache.set("fip-a".to_string(), "node-0".to_string());
    cache.set("fip-b".to_string(), "node-9".to_string());
    let step = resume(&mut cache, awaiting_assign(), CloudReply::Assigned(Ok(())));
    let expected =
        Outcome::Reassigned { floating_ip_name: "fip-a".to_string(), holder: "node-1".to_string() };
    assert!(expected.is_recorded());
    assert_eq!(expected.notice(), None);
    assert_eq!(step, Step::Done(expected));
    assert_eq!(cache.get("fip-a"), Some("node-1".to_string()));
    assert_eq!(cache.get("fip-b"), Some("node-9".to_string()));
}

#[test]
fn failed_attach_call_is_not_recorded() {
    let mut cache = HolderCache::new();
    cache.set("fip-a".to_string(), "node-0".to_string());
    let step = resume(&mut cache, awaiting_assign(), CloudReply::Assigned(Err(failure("locked"))));
    let expected = Outcome::AssignFailed { error: failure("locked") };
    assert!(!expected.is_recorded());
    assert_eq!(expected.notice(), notice(Severity::Error, "failed to assign floating ip: locked"));
    assert_eq!(step, Step::Done(expected));
    assert_eq!(cache.get("fip-a"), Some("node-0".to_string()));
}

#[test]
fn reply_of_the_wrong_kind_ends_the_reconciliation() {
    let mut cache = HolderCache::new();
    let step = resume(&mut cache, awaiting_floating_ip(), CloudReply::Assigned(Ok(())));
    assert_eq!(step, Step::Done(Outcome::UnexpectedReply));
    let step = resume(
        &mut cache,
        awaiting_floating_ip(),
        CloudReply::Servers(Ok(vec![server(51, "node-1")])),
    );
    assert_eq!(step, Step::Done(Outcome::UnexpectedReply));
    let step = resume(
        &mut cache,
        awaiting_server(Some(51)),
        CloudReply::FloatingIps(Ok(vec![FloatingIpResource { id: 100, server: Some(51) }])),
    );
    assert_eq!(step, Step::Done(Outcome::UnexpectedReply));
    let step = resume(&mut cache, awaiting_server(Some(51)), CloudReply::Assigned(Ok(())));
    assert_eq!(step, Step::Done(Outcome::UnexpectedReply));
    let step = resume(&mut cache, awaiting_assign(), CloudReply::Servers(Ok(vec![])));
    assert_eq!(step, Step::Done(Outcome::UnexpectedReply));
    let step = resume(&mut cache, awaiting_assign(), CloudReply::FloatingIps(Ok(vec![])));
    assert_eq!(step, Step::Done(Outcome::UnexpectedReply));
    assert_eq!(cache.get("fip-a"), None);
    assert_eq!(
        Outcome::UnexpectedReply.notice(),
        notice(Severity::Error, "provider reply does not answer the pending call")
    );
}

#[test]
fn attachment_is_judged_by_the_server_id() {
    let attached = FloatingIpResource { id: 100, server: Some(51) };
    assert!(attached.is_attached_to(51));
    assert!(!attached.is_attached_to(50));
    assert!(!attached.is_attached_to(100));
    let free = FloatingIpResource { id: 100, server: None };
    assert!(!free.is_attached_to(51));
    assert!(!free.is_attached_to(0));
}

#[test]
fn each_ending_has_its_line() {
    let text = |s: &str| s.to_string();
    assert_eq!(
        Outcome::Rejected { defect: EventDefect::MissingHolder }.notice(),
        notice(Severity::Error, "skipping lease without a holder identity")
    );
    assert_eq!(
        Outcome::Rejected { defect: EventDefect::MissingLeaseName }.notice(),
        notice(Severity::Error, "skipping lease without a name")
    );
    assert_eq!(
        Outcome::Unmapped { lease_name: text("kube-scheduler") }.notice(),
        notice(
            Severity::Info,
            "skipping lease 'kube-scheduler' which is not mapped to a floating ip"
        )
    );
    assert_eq!(
        Outcome::AlreadySynced { lease_name: text(WEB_LEASE), holder: text("node-1") }.notice(),
        notice(
            Severity::Debug,
            "lease 'cilium-l2announce-default-web' is already held by node 'node-1', skipping"
        )
    );
    assert_eq!(
        Outcome::FloatingIpLookupFailed { error: failure("timed out") }.notice(),
        notice(Severity::Error, "failed to list floating ips: timed out")
    );
    assert_eq!(
        Outcome::FloatingIpNotFound { floating_ip_name: text("fip-a") }.notice(),
        notice(Severity::Warn, "floating ip 'fip-a' not found")
    );
    assert_eq!(
        Outcome::ServerLookupFailed { error: failure("timed out") }.notice(),
        notice(Severity::Error, "failed to list servers: timed out")
    );
    assert_eq!(
        Outcome::ServerNotFound { holder: text("node-1") }.notice(),
        notice(Severity::Warn, "server 'node-1' not found")
    );
    assert_eq!(
        Outcome::AssignFailed { error: failure("timed out") }.notice(),
        notice(Severity::Error, "failed to assign floating ip: timed out")
    );
    assert_eq!(
        Outcome::AlreadyAttached { floating_ip_name: text("fip-a"), holder: text("node-1") }
            .notice(),
        None
    );
    assert_eq!(
        Outcome::Reassigned { floating_ip_name: text("fip-a"), holder: text("node-1") }.notice(),
        None
    );
}

#[test]
fn lines_keep_empty_names_and_details() {
    assert_eq!(
        Outcome::ServerNotFound { holder: String::new() }.notice(),
        notice(Severity::Warn, "server '' not found")
    );
    assert_eq!(
        Outcome::AssignFailed { error: failure("") }.notice(),
        notice(Severity::Error, "failed to assign floating ip: ")
    );
    assert_eq!(
        Outcome::AlreadySynced { lease_name: String::new(), holder: String::new() }.notice(),
        notice(Severity::Debug, "lease '' is already held by node '', skipping")
    );
}

#[test]
fn only_the_attach_call_is_announced() {
    assert_eq!(awaiting_floating_ip().notice(), None);
    assert_eq!(awaiting_server(Some(50)).notice(), None);
    assert_eq!(
        awaiting_assign().notice(),
        notice(Severity::Info, "assigning floating ip 'fip-a' to server 'node-1'")
    );
}

#[test]
fn step_logs_what_its_content_logs() {
    assert_eq!(Step::Call(awaiting_floating_ip()).notice(), None);
    assert_eq!(
        Step::Call(awaiting_assign()).notice(),
        notice(Severity::Info, "assigning floating ip 'fip-a' to server 'node-1'")
    );
    assert_eq!(
        Step::Done(Outcome::ServerNotFound { holder: "node-1".to_string() }).notice(),
        notice(Severity::Warn, "server 'node-1' not found")
    );
    assert_eq!(
        Step::Done(Outcome::Reassigned {
            floating_ip_name: "fip-a".to_string(),
            holder: "node-1".to_string(),
        })
        .notice(),
        None
    );
}

#[test]
fn only_endings_with_the_attachment_right_are_recorded() {
    let name = || "x".to_string();
    assert!(Outcome::AlreadyAttached { floating_ip_name: name(), holder: name() }.is_recorded());
    assert!(Outcome::Reassigned { floating_ip_name: name(), holder: name() }.is_recorded());
    assert!(!Outcome::Rejected { defect: EventDefect::MissingHolder }.is_recorded());
    assert!(!Outcome::Unmapped { lease_name: name() }.is_recorded());
    assert!(!Outcome::AlreadySynced { lease_name: name(), holder: name() }.is_recorded());
    assert!(!Outcome::FloatingIpLookupFailed { error: failure("x") }.is_recorded());
    assert!(!Outcome::FloatingIpNotFound { floating_ip_name: name() }.is_recorded());
    assert!(!Outcome::ServerLookupFailed { error: failure("x") }.is_recorded());
    assert!(!Outcome::ServerNotFound { holder: name() }.is_recorded());
    assert!(!Outcome::AssignFailed { error: failure("x") }.is_recorded());
    assert!(!Outcome::UnexpectedReply.is_recorded());
}
