use punch::api::{ApiRequest, Method};
use punch::clock::Timestamp;
use punch::error::{ErrorKind, PunchError};
use punch::removal::{Removal, RemovalAction, RemovalEvent, RemovalNext, RemovalStep};
use punch::types::{LocalProtocol, TunnelRecord, TunnelStatus};

fn record(dns: Option<&str>) -> TunnelRecord {
    TunnelRecord {
        domain: "demo.com".to_string(),
        local_port: 81,
        local_protocol: LocalProtocol::Http,
        zone_id: "z".to_string(),
        zone_name: "demo.com".to_string(),
        account_id: "acc".to_string(),
        tunnel_id: "t".to_string(),
        tunnel_name: "punch-demo-com".to_string(),
        tunnel_token: "tok".to_string(),
        dns_record_id: dns.map(|text| text.to_string()),
        dns_target: "t.cfargotunnel.com".to_string(),
        pid: Some(1),
        detached: true,
        status: TunnelStatus::Running,
        log_file: "/p/demo.log".to_string(),
        created_at: Timestamp::new(0, 0).expect("an instant"),
        started_at: None,
        last_seen_at: None,
        share: None,
    }
}

fn broken() -> PunchError {
    PunchError::outside("broken", Vec::new())
}

fn goes_on(step: RemovalStep) -> Removal {
    assert!(step.notices.is_empty());
    match step.next {
        RemovalNext::Continue(removal) => removal,
        RemovalNext::Finished(result) => panic!("ended with {result:?}"),
    }
}

fn ends(step: RemovalStep) -> Result<(), PunchError> {
    match step.next {
        RemovalNext::Finished(result) => result,
        RemovalNext::Continue(removal) => panic!("waits for {:?}", removal.wants()),
    }
}

fn delete(path: &str) -> ApiRequest {
    ApiRequest { method: Method::Delete, path: path.to_string(), body: None }
}

fn opened(dns: Option<&str>) -> Removal {
    let events = [
        RemovalEvent::Found(Ok(Some(record(dns)))),
        RemovalEvent::Stopped(Ok(())),
        RemovalEvent::Token(Ok(Some("api".to_string()))),
        RemovalEvent::Opened(Ok(())),
    ];
    events
        .into_iter()
        .fold(Removal::begin("demo.com"), |removal, event| goes_on(removal.next(event)))
}

#[test]
fn a_tunnel_is_removed_step_by_step() {
    let removal = Removal::begin("demo.com");
    assert_eq!(removal.wants(), RemovalAction::Find("demo.com".to_string()));
    let removal = goes_on(removal.next(RemovalEvent::Found(Ok(Some(record(Some("d")))))));
    assert_eq!(removal.wants(), RemovalAction::StopProcess("demo.com".to_string()));
    let removal = goes_on(removal.next(RemovalEvent::Stopped(Ok(()))));
    assert_eq!(removal.wants(), RemovalAction::LoadToken);
    let removal = goes_on(removal.next(RemovalEvent::Token(Ok(Some("api".to_string())))));
    assert_eq!(removal.wants(), RemovalAction::Open("api".to_string()));
    let removal = goes_on(removal.next(RemovalEvent::Opened(Ok(()))));
    assert_eq!(removal.wants(), RemovalAction::DeleteDns(delete("zones/z/dns_records/d")));
    let removal = goes_on(removal.next(RemovalEvent::DnsDeleted(Ok(()))));
    assert_eq!(
        removal.wants(),
        RemovalAction::DeleteTunnel(delete("accounts/acc/cfd_tunnel/t"))
    );
    let removal = goes_on(removal.next(RemovalEvent::TunnelDeleted(Ok(()))));
    assert_eq!(removal.wants(), RemovalAction::Forget("demo.com".to_string()));
    let removal = goes_on(removal.next(RemovalEvent::Forgotten(Ok(()))));
    assert_eq!(removal.wants(), RemovalAction::DeleteLog("/p/demo.log".to_string()));
    let step = removal.next(RemovalEvent::LogDeleted);
    assert_eq!(
        step.notices[0].text,
        "\u{1b}[32m✓\u{1b}[39m 已删除 demo.com，远端资源和本地状态已清理"
    );
    assert_eq!(ends(step), Ok(()));
}

#[test]
fn a_tunnel_without_a_dns_record_is_deleted_at_once() {
    assert!(matches!(opened(None).wants(), RemovalAction::DeleteTunnel(_)));
}

#[test]
fn an_unknown_tunnel_cannot_be_removed() {
    let error = ends(Removal::begin("x.y").next(RemovalEvent::Found(Ok(None)))).unwrap_err();
    assert_eq!(error.line(), "未找到隧道: x.y");
}

#[test]
fn removing_needs_a_token() {
    let removal = goes_on(Removal::begin("demo.com").next(RemovalEvent::Found(Ok(Some(record(None))))));
    let removal = goes_on(removal.next(RemovalEvent::Stopped(Ok(()))));
    let error = ends(removal.next(RemovalEvent::Token(Ok(None)))).unwrap_err();
    assert_eq!(error.kind, ErrorKind::NotLoggedIn);
}

#[test]
fn a_refused_deletion_keeps_the_tunnel_registered() {
    let removal = opened(Some("d"));
    assert_eq!(ends(removal.next(RemovalEvent::DnsDeleted(Err(broken())))), Err(broken()));
    let removal = opened(None);
    assert_eq!(ends(removal.next(RemovalEvent::TunnelDeleted(Err(broken())))), Err(broken()));
}

#[test]
fn other_failures_end_the_removal() {
    let begin = || Removal::begin("demo.com");
    assert_eq!(ends(begin().next(RemovalEvent::Found(Err(broken())))), Err(broken()));
    let found = || goes_on(begin().next(RemovalEvent::Found(Ok(Some(record(None))))));
    assert_eq!(ends(found().next(RemovalEvent::Stopped(Err(broken())))), Err(broken()));
    let stopped = || goes_on(found().next(RemovalEvent::Stopped(Ok(()))));
    assert_eq!(ends(stopped().next(RemovalEvent::Token(Err(broken())))), Err(broken()));
    let removal = goes_on(stopped().next(RemovalEvent::Token(Ok(Some("api".to_string())))));
    assert_eq!(ends(removal.next(RemovalEvent::Opened(Err(broken())))), Err(broken()));
    let removal = goes_on(opened(None).next(RemovalEvent::TunnelDeleted(Ok(()))));
    assert_eq!(ends(removal.next(RemovalEvent::Forgotten(Err(broken())))), Err(broken()));
}

#[test]
fn a_removal_ignores_what_it_did_not_ask_for() {
    let removal = goes_on(Removal::begin("demo.com").next(RemovalEvent::LogDeleted));
    assert_eq!(removal.wants(), RemovalAction::Find("demo.com".to_string()));
}
