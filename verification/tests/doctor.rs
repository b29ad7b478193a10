use punch::api::{ApiRequest, Method, TokenVerifyResult, Zone, ZoneAccount};
use punch::clock::Timestamp;
use punch::doctor::{Doctor, DoctorAction, DoctorEvent, DoctorNext, DoctorStep};
use punch::error::PunchError;
use punch::storage::PunchDirs;
use punch::types::{LocalProtocol, TunnelRecord, TunnelStatus};
use std::path::PathBuf;

fn begin() -> DoctorStep {
    let dirs = PunchDirs::discover(Some(PathBuf::from("/p")), None).expect("directories");
    Doctor::begin(&dirs)
}

fn broken() -> PunchError {
    PunchError::outside("broken", vec!["why".to_string()])
}

fn texts(step: &DoctorStep) -> Vec<&str> {
    step.notices.iter().map(|notice| notice.text.as_str()).collect()
}

fn goes_on(step: DoctorStep) -> Doctor {
    match step.next {
        DoctorNext::Continue(stage) => stage,
        DoctorNext::Finished(result) => panic!("ended with {result:?}"),
    }
}

fn ends(step: DoctorStep) -> Result<(), PunchError> {
    match step.next {
        DoctorNext::Finished(result) => result,
        DoctorNext::Continue(stage) => panic!("waits for {:?}", stage.wants()),
    }
}

fn feed(events: Vec<DoctorEvent>) -> Doctor {
    events
        .into_iter()
        .fold(goes_on(begin()), |stage, event| goes_on(stage.next(event)))
}

fn get(path: &str) -> ApiRequest {
    ApiRequest { method: Method::Get, path: path.to_string(), body: None }
}

fn zone(name: &str) -> Zone {
    Zone {
        id: "z".to_string(),
        name: name.to_string(),
        account: ZoneAccount { id: format!("acc-{name}") },
    }
}

fn verifying() -> Doctor {
    feed(vec![
        DoctorEvent::Detected(Err(broken())),
        DoctorEvent::Token(Ok(Some("tok".to_string()))),
        DoctorEvent::Opened(Ok(())),
    ])
}

fn verified(status: &str) -> DoctorEvent {
    DoctorEvent::Verified(Ok(TokenVerifyResult { status: status.to_string() }))
}

#[test]
fn a_look_begins_with_the_home() {
    let step = begin();
    assert_eq!(texts(&step), ["PUNCH DOCTOR", "────────────", "home: /p"]);
    assert_eq!(goes_on(step).wants(), DoctorAction::Detect);
}

#[test]
fn the_version_of_cloudflared_is_told() {
    let stage = feed(vec![DoctorEvent::Detected(Ok(()))]);
    assert_eq!(stage.wants(), DoctorAction::AskVersion);
    let step = stage.next(DoctorEvent::Version(Ok("v1".to_string())));
    assert_eq!(texts(&step), ["\u{1b}[32m✓\u{1b}[39m cloudflared: v1"]);
    assert_eq!(goes_on(step).wants(), DoctorAction::LoadToken);
    let stage = feed(vec![DoctorEvent::Detected(Ok(()))]);
    assert_eq!(ends(stage.next(DoctorEvent::Version(Err(broken())))), Err(broken()));
}

#[test]
fn a_missing_cloudflared_is_told() {
    let step = goes_on(begin()).next(DoctorEvent::Detected(Err(broken())));
    assert_eq!(texts(&step), ["\u{1b}[31m✗\u{1b}[39m cloudflared: broken: why"]);
    assert_eq!(goes_on(step).wants(), DoctorAction::LoadToken);
}

#[test]
fn a_missing_token_is_told() {
    let stage = feed(vec![DoctorEvent::Detected(Err(broken()))]);
    let step = stage.next(DoctorEvent::Token(Ok(None)));
    assert_eq!(texts(&step), ["\u{1b}[33m⚠\u{1b}[39m token: 未登录"]);
    assert_eq!(goes_on(step).wants(), DoctorAction::Refresh);
}

#[test]
fn the_state_of_the_token_is_told() {
    assert_eq!(verifying().wants(), DoctorAction::Verify(get("user/tokens/verify")));
    let step = verifying().next(verified("active"));
    assert_eq!(texts(&step), ["\u{1b}[32m✓\u{1b}[39m token: active"]);
    assert_eq!(
        goes_on(step).wants(),
        DoctorAction::ListZones(get("zones?status=active&per_page=5"))
    );
    let step = verifying().next(verified("expired"));
    assert_eq!(texts(&step), ["\u{1b}[33m⚠\u{1b}[39m token: expired"]);
    assert_eq!(goes_on(step).wants(), DoctorAction::Refresh);
    let step = verifying().next(DoctorEvent::Verified(Err(broken())));
    assert_eq!(texts(&step), ["\u{1b}[31m✗\u{1b}[39m token: broken: why"]);
    assert_eq!(goes_on(step).wants(), DoctorAction::Refresh);
}

#[test]
fn the_zones_are_told() {
    let listing = || goes_on(verifying().next(verified("active")));
    let step = listing().next(DoctorEvent::Zones(Ok(vec![zone("a.b"), zone("c.d")])));
    assert_eq!(
        texts(&step),
        ["\u{1b}[32m✓\u{1b}[39m zone 读取: 2 个，可见示例: a.b, c.d"]
    );
    assert_eq!(
        goes_on(step).wants(),
        DoctorAction::CheckAccess(get("accounts/acc-a.b/cfd_tunnel?per_page=1"))
    );
    let step = listing().next(DoctorEvent::Zones(Ok(Vec::new())));
    assert_eq!(texts(&step), ["\u{1b}[33m⚠\u{1b}[39m zone 读取: 没有可见 zone"]);
    assert_eq!(goes_on(step).wants(), DoctorAction::Refresh);
    let step = listing().next(DoctorEvent::Zones(Err(broken())));
    assert_eq!(texts(&step), ["\u{1b}[31m✗\u{1b}[39m zone 读取: broken: why"]);
    assert_eq!(goes_on(step).wants(), DoctorAction::Refresh);
}

#[test]
fn the_right_to_run_tunnels_is_told() {
    let checking = || {
        let listing = goes_on(verifying().next(verified("active")));
        goes_on(listing.next(DoctorEvent::Zones(Ok(vec![zone("a.b")]))))
    };
    let step = checking().next(DoctorEvent::Access(Ok(())));
    assert_eq!(
        texts(&step),
        ["\u{1b}[32m✓\u{1b}[39m tunnel 权限: 可访问 account acc-a.b"]
    );
    assert_eq!(goes_on(step).wants(), DoctorAction::Refresh);
    let step = checking().next(DoctorEvent::Access(Err(broken())));
    assert_eq!(texts(&step), ["\u{1b}[31m✗\u{1b}[39m tunnel 权限: broken: why"]);
    assert_eq!(goes_on(step).wants(), DoctorAction::Refresh);
}

#[test]
fn the_registered_tunnels_are_told() {
    let now = Timestamp::new(0, 0).expect("an instant");
    let record = TunnelRecord {
        domain: "demo.com".to_string(),
        local_port: 81,
        local_protocol: LocalProtocol::Https,
        zone_id: String::new(),
        zone_name: String::new(),
        account_id: String::new(),
        tunnel_id: String::new(),
        tunnel_name: String::new(),
        tunnel_token: String::new(),
        dns_record_id: None,
        dns_target: String::new(),
        pid: None,
        detached: true,
        status: TunnelStatus::Stopped,
        log_file: String::new(),
        created_at: now,
        started_at: None,
        last_seen_at: None,
        share: None,
    };
    let refreshing = || {
        feed(vec![
            DoctorEvent::Detected(Err(broken())),
            DoctorEvent::Token(Ok(None)),
        ])
    };
    let step = refreshing().next(DoctorEvent::Refreshed(Ok(vec![record])));
    assert_eq!(
        texts(&step),
        [
            "\u{1b}[32m✓\u{1b}[39m 已登记隧道: \u{1b}[1m1\u{1b}[0m",
            "  - demo.com [stopped] https://127.0.0.1:81",
        ]
    );
    assert_eq!(ends(step), Ok(()));
    assert_eq!(
        ends(refreshing().next(DoctorEvent::Refreshed(Err(broken())))),
        Err(broken())
    );
}

#[test]
fn failures_outside_of_the_api_end_the_look() {
    let stage = feed(vec![DoctorEvent::Detected(Err(broken()))]);
    assert_eq!(ends(stage.next(DoctorEvent::Token(Err(broken())))), Err(broken()));
    let stage = feed(vec![
        DoctorEvent::Detected(Err(broken())),
        DoctorEvent::Token(Ok(Some("tok".to_string()))),
    ]);
    assert_eq!(stage.wants(), DoctorAction::Open("tok".to_string()));
    assert_eq!(ends(stage.next(DoctorEvent::Opened(Err(broken())))), Err(broken()));
}
