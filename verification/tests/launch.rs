use punch::api::{DnsRecord, TunnelDetails, Zone, ZoneAccount};
use punch::clock::Timestamp;
use punch::cloudflared::CommandLine;
use punch::error::{ErrorKind, PunchError};
use punch::launch::{
    tunnel_name_for, Launch, LaunchAction, LaunchEvent, LaunchNext, LaunchOptions, LaunchStep,
    PortProbe, SessionEnd,
};
use punch::output::{Notice, Stream};
use punch::storage::PunchDirs;
use punch::types::{LocalProtocol, ShareSettings, TunnelRecord, TunnelStatus};
use std::path::PathBuf;

fn at(seconds: i64) -> Timestamp {
    Timestamp::new(seconds, 0).expect("an instant")
}

fn dirs() -> PunchDirs {
    PunchDirs::discover(Some(PathBuf::from("/p")), None).expect("directories")
}

fn options() -> LaunchOptions {
    LaunchOptions {
        protocol: None,
        insecure: false,
        detach: false,
        export: false,
        share: None,
    }
}

fn begin(options: LaunchOptions) -> Launch {
    Launch::begin(&dirs(), "demo.example.com:3000", options).expect("a launch")
}

fn broken() -> PunchError {
    PunchError::outside("broken", Vec::new())
}

fn zone() -> Zone {
    Zone {
        id: "z1".to_string(),
        name: "example.com".to_string(),
        account: ZoneAccount { id: "acc".to_string() },
    }
}

fn tunnel() -> TunnelDetails {
    TunnelDetails {
        id: "t1".to_string(),
        name: "punch-demo-example-com".to_string(),
        token: "tok".to_string(),
    }
}

fn texts(notices: &[Notice]) -> Vec<&str> {
    notices.iter().map(|notice| notice.text.as_str()).collect()
}

fn goes_on(step: LaunchStep) -> Launch {
    match step.next {
        LaunchNext::Continue(launch) => launch,
        LaunchNext::Finished(result) => panic!("ended with {result:?}"),
    }
}

fn ends(step: LaunchStep) -> Result<(), PunchError> {
    match step.next {
        LaunchNext::Finished(result) => result,
        LaunchNext::Continue(launch) => panic!("waits for {:?}", launch.wants()),
    }
}

fn feed(launch: Launch, events: Vec<LaunchEvent>) -> Launch {
    events
        .into_iter()
        .fold(launch, |launch, event| goes_on(launch.next(event, at(100))))
}

/// A launch that is about to start `cloudflared`.
fn ready(options: LaunchOptions) -> Launch {
    let launch = feed(
        begin(options),
        vec![
            LaunchEvent::Detected(Ok(())),
            LaunchEvent::Token(Ok(Some("api".to_string()))),
            LaunchEvent::Opened(Ok(())),
            LaunchEvent::Port(PortProbe::Open),
        ],
    );
    let launch = match launch.wants() {
        LaunchAction::ProbeHttps(_) => feed(launch, vec![LaunchEvent::Https(Ok(true))]),
        _ => launch,
    };
    feed(
        launch,
        vec![
            LaunchEvent::Zone(Ok(zone())),
            LaunchEvent::Tunnel(Ok(tunnel())),
            LaunchEvent::Configured(Ok(())),
            LaunchEvent::Dns(Ok(DnsRecord { id: "d1".to_string() })),
        ],
    )
}

fn registered(launch: &Launch) -> TunnelRecord {
    match launch.wants() {
        LaunchAction::Register(record) => record,
        other => panic!("expected a registration, got {other:?}"),
    }
}

/// A session that runs in the foreground.
fn running() -> Launch {
    let launch = ready(options());
    let launch = goes_on(launch.next(LaunchEvent::SpawnedForeground(Ok(Some(42))), at(200)));
    feed(
        launch,
        vec![LaunchEvent::Registered(Ok(())), LaunchEvent::Attached(Ok(()))],
    )
}

#[test]
fn names_of_tunnels_are_safe_and_short() {
    assert_eq!(tunnel_name_for("demo.example.com"), "punch-demo-example-com");
    assert_eq!(tunnel_name_for(""), "punch-");
    let long = tunnel_name_for(&"a.".repeat(60));
    assert_eq!(long.len(), 58);
    assert!(long.starts_with("punch-a-a-"));
    assert_eq!(tunnel_name_for(&"x".repeat(52)).len(), 58);
    assert_eq!(tunnel_name_for("域名"), "punch---");
}

#[test]
fn a_bad_target_is_refused_at_once() {
    let error = Launch::begin(&dirs(), "demo", options()).unwrap_err();
    assert_eq!(error.kind, ErrorKind::InvalidDomain("demo".to_string()));
}

#[test]
fn a_launch_asks_for_one_thing_after_the_other() {
    let launch = begin(options());
    assert_eq!(launch.wants(), LaunchAction::Detect);
    let launch = feed(launch, vec![LaunchEvent::Detected(Ok(()))]);
    assert_eq!(launch.wants(), LaunchAction::LoadToken);
    let launch = feed(launch, vec![LaunchEvent::Token(Ok(Some("api".to_string())))]);
    assert_eq!(launch.wants(), LaunchAction::Open("api".to_string()));
    let launch = feed(launch, vec![LaunchEvent::Opened(Ok(()))]);
    assert_eq!(launch.wants(), LaunchAction::ProbePort(3000));
    let launch = feed(launch, vec![LaunchEvent::Port(PortProbe::Open)]);
    assert_eq!(
        launch.wants(),
        LaunchAction::ProbeHttps("https://127.0.0.1:3000".to_string())
    );
    let launch = feed(launch, vec![LaunchEvent::Https(Ok(false))]);
    assert_eq!(
        launch.wants(),
        LaunchAction::ProbeHttp("http://127.0.0.1:3000".to_string())
    );
    let step = launch.next(LaunchEvent::Http(Ok(false)), at(0));
    assert_eq!(texts(&step.notices), ["\u{1b}[36m→\u{1b}[39m 继续创建隧道..."]);
    let launch = goes_on(step);
    assert_eq!(
        launch.wants(),
        LaunchAction::ResolveZone("demo.example.com".to_string())
    );
    let step = launch.next(LaunchEvent::Zone(Ok(zone())), at(0));
    assert_eq!(texts(&step.notices), ["\u{1b}[32m✓\u{1b}[39m Zone: example.com"]);
    let launch = goes_on(step);
    assert_eq!(
        launch.wants(),
        LaunchAction::EnsureTunnel {
            account_id: "acc".to_string(),
            name: "punch-demo-example-com".to_string(),
        }
    );
    let step = launch.next(LaunchEvent::Tunnel(Ok(tunnel())), at(0));
    assert_eq!(
        texts(&step.notices),
        ["\u{1b}[32m✓\u{1b}[39m 隧道: punch-demo-example-com (uuid: t1)"]
    );
    let launch = goes_on(step);
    assert_eq!(
        launch.wants(),
        LaunchAction::Configure {
            account_id: "acc".to_string(),
            tunnel_id: "t1".to_string(),
            hostname: "demo.example.com".to_string(),
            service: "http://127.0.0.1:3000".to_string(),
            insecure: false,
        }
    );
    let launch = feed(launch, vec![LaunchEvent::Configured(Ok(()))]);
    assert_eq!(
        launch.wants(),
        LaunchAction::EnsureDns {
            zone_id: "z1".to_string(),
            hostname: "demo.example.com".to_string(),
            target: "t1.cfargotunnel.com".to_string(),
        }
    );
    let step = launch.next(LaunchEvent::Dns(Ok(DnsRecord { id: "d1".to_string() })), at(0));
    assert_eq!(
        texts(&step.notices),
        ["\u{1b}[32m✓\u{1b}[39m DNS: demo.example.com → CNAME → t1.cfargotunnel.com"]
    );
    let arguments = ["tunnel", "--no-autoupdate", "run", "--token", "tok"];
    assert_eq!(
        goes_on(step).wants(),
        LaunchAction::SpawnForeground(CommandLine {
            arguments: arguments.iter().map(|text| text.to_string()).collect(),
            own_group: false,
        })
    );
}

#[test]
fn without_a_token_the_user_signs_in() {
    let launch = feed(begin(options()), vec![LaunchEvent::Detected(Ok(()))]);
    let step = launch.next(LaunchEvent::Token(Ok(None)), at(0));
    assert_eq!(
        texts(&step.notices),
        [
            "\u{1b}[33m⚠ 未找到凭证，需要登录 Cloudflare\u{1b}[39m",
            "步骤 1: 访问 https://dash.cloudflare.com/profile/api-tokens",
            "步骤 2: 创建令牌，权限: Zone:Read, DNS:Edit, Cloudflare Tunnel:Edit",
            "步骤 3: 粘贴令牌（输入已隐藏）:",
        ]
    );
    let launch = goes_on(step);
    assert_eq!(launch.wants(), LaunchAction::Prompt(Stream::Output));
    let launch = feed(launch, vec![LaunchEvent::Typed(Ok(" api \n".to_string()))]);
    assert_eq!(
        launch.wants(),
        LaunchAction::Authenticate("api".to_string(), Stream::Output)
    );
    let launch = feed(launch, vec![LaunchEvent::Authenticated(Ok(()))]);
    assert_eq!(launch.wants(), LaunchAction::Open("api".to_string()));
}

#[test]
fn a_blank_token_ends_the_launch() {
    let launch = feed(
        begin(options()),
        vec![LaunchEvent::Detected(Ok(())), LaunchEvent::Token(Ok(None))],
    );
    let error = ends(launch.next(LaunchEvent::Typed(Ok("  ".to_string())), at(0))).unwrap_err();
    assert_eq!(error.kind, ErrorKind::EmptyToken);
}

#[test]
fn a_protocol_that_is_known_is_not_looked_for() {
    let launch = feed(
        begin(LaunchOptions { protocol: Some(LocalProtocol::Tcp), ..options() }),
        vec![
            LaunchEvent::Detected(Ok(())),
            LaunchEvent::Token(Ok(Some("api".to_string()))),
            LaunchEvent::Opened(Ok(())),
        ],
    );
    let launch = feed(launch, vec![LaunchEvent::Port(PortProbe::Open)]);
    assert!(matches!(launch.wants(), LaunchAction::ResolveZone(_)));
    let launch = feed(
        launch,
        vec![LaunchEvent::Zone(Ok(zone())), LaunchEvent::Tunnel(Ok(tunnel()))],
    );
    assert!(matches!(
        launch.wants(),
        LaunchAction::Configure { service, .. } if service == "tcp://127.0.0.1:3000"
    ));
}

#[test]
fn local_https_is_told_where_its_certificate_may_be_bad() {
    let probing = |insecure: bool| {
        feed(
            begin(LaunchOptions { insecure, ..options() }),
            vec![
                LaunchEvent::Detected(Ok(())),
                LaunchEvent::Token(Ok(Some("api".to_string()))),
                LaunchEvent::Opened(Ok(())),
                LaunchEvent::Port(PortProbe::Open),
            ],
        )
    };
    let step = probing(true).next(LaunchEvent::Https(Ok(true)), at(0));
    assert_eq!(
        texts(&step.notices),
        [
            "\u{1b}[32m✓\u{1b}[39m 检测到本地 HTTPS，已启用 noTLSVerify",
            "\u{1b}[36m→\u{1b}[39m 继续创建隧道...",
        ]
    );
    let step = probing(false).next(LaunchEvent::Https(Ok(true)), at(0));
    assert_eq!(step.notices.len(), 1);
}

#[test]
fn a_closed_port_ends_the_launch() {
    let probing = || {
        feed(
            begin(options()),
            vec![
                LaunchEvent::Detected(Ok(())),
                LaunchEvent::Token(Ok(Some("api".to_string()))),
                LaunchEvent::Opened(Ok(())),
            ],
        )
    };
    let causes = || vec!["why".to_string()];
    let refused = LaunchEvent::Port(PortProbe::Refused(causes()));
    let error = ends(probing().next(refused, at(0))).unwrap_err();
    assert_eq!(error.line(), "✗ 端口 3000 未监听，无法建立本地映射: why");
    let late = LaunchEvent::Port(PortProbe::TimedOut(causes()));
    let error = ends(probing().next(late, at(0))).unwrap_err();
    assert_eq!(error.line(), "✗ 端口 3000 连接超时: why");
}

#[test]
fn every_failure_before_the_start_ends_the_launch() {
    let steps: Vec<(LaunchEvent, LaunchEvent)> = vec![
        (LaunchEvent::Detected(Ok(())), LaunchEvent::Detected(Err(broken()))),
        (
            LaunchEvent::Token(Ok(Some("api".to_string()))),
            LaunchEvent::Token(Err(broken())),
        ),
        (LaunchEvent::Opened(Ok(())), LaunchEvent::Opened(Err(broken()))),
        (
            LaunchEvent::Port(PortProbe::Open),
            LaunchEvent::Port(PortProbe::Refused(Vec::new())),
        ),
        (LaunchEvent::Https(Ok(false)), LaunchEvent::Https(Err(broken()))),
        (LaunchEvent::Http(Ok(true)), LaunchEvent::Http(Err(broken()))),
        (LaunchEvent::Zone(Ok(zone())), LaunchEvent::Zone(Err(broken()))),
        (LaunchEvent::Tunnel(Ok(tunnel())), LaunchEvent::Tunnel(Err(broken()))),
        (LaunchEvent::Configured(Ok(())), LaunchEvent::Configured(Err(broken()))),
        (
            LaunchEvent::Dns(Ok(DnsRecord { id: "d".to_string() })),
            LaunchEvent::Dns(Err(broken())),
        ),
        (
            LaunchEvent::SpawnedForeground(Ok(Some(1))),
            LaunchEvent::SpawnedForeground(Err(broken())),
        ),
        (LaunchEvent::Registered(Ok(())), LaunchEvent::Registered(Err(broken()))),
        (LaunchEvent::Attached(Ok(())), LaunchEvent::Attached(Err(broken()))),
    ];
    for bad in 0..steps.len() {
        let mut launch = begin(options());
        for (index, (good, failure)) in rebuild(&steps).into_iter().enumerate() {
            if index == bad {
                assert!(ends(launch.next(failure, at(0))).is_err(), "step {bad}");
                break;
            }
            launch = goes_on(launch.next(good, at(0)));
        }
    }
}

fn rebuild(steps: &[(LaunchEvent, LaunchEvent)]) -> Vec<(LaunchEvent, LaunchEvent)> {
    steps.iter().map(|(good, bad)| (copy(good), copy(bad))).collect()
}

fn copy(event: &LaunchEvent) -> LaunchEvent {
    let unit = |result: &Result<(), PunchError>| match result {
        Ok(()) => Ok(()),
        Err(_) => Err(broken()),
    };
    let flag = |result: &Result<bool, PunchError>| match result {
        Ok(value) => Ok(*value),
        Err(_) => Err(broken()),
    };
    match event {
        LaunchEvent::Detected(result) => LaunchEvent::Detected(unit(result)),
        LaunchEvent::Token(Ok(token)) => LaunchEvent::Token(Ok(token.clone())),
        LaunchEvent::Token(Err(_)) => LaunchEvent::Token(Err(broken())),
        LaunchEvent::Opened(result) => LaunchEvent::Opened(unit(result)),
        LaunchEvent::Port(PortProbe::Open) => LaunchEvent::Port(PortProbe::Open),
        LaunchEvent::Port(_) => LaunchEvent::Port(PortProbe::Refused(Vec::new())),
        LaunchEvent::Https(result) => LaunchEvent::Https(flag(result)),
        LaunchEvent::Http(result) => LaunchEvent::Http(flag(result)),
        LaunchEvent::Zone(Ok(zone)) => LaunchEvent::Zone(Ok(zone.clone())),
        LaunchEvent::Zone(Err(_)) => LaunchEvent::Zone(Err(broken())),
        LaunchEvent::Tunnel(Ok(tunnel)) => LaunchEvent::Tunnel(Ok(tunnel.clone())),
        LaunchEvent::Tunnel(Err(_)) => LaunchEvent::Tunnel(Err(broken())),
        LaunchEvent::Configured(result) => LaunchEvent::Configured(unit(result)),
        LaunchEvent::Dns(Ok(record)) => LaunchEvent::Dns(Ok(record.clone())),
        LaunchEvent::Dns(Err(_)) => LaunchEvent::Dns(Err(broken())),
        LaunchEvent::SpawnedForeground(Ok(pid)) => LaunchEvent::SpawnedForeground(Ok(*pid)),
        LaunchEvent::SpawnedForeground(Err(_)) => LaunchEvent::SpawnedForeground(Err(broken())),
        LaunchEvent::Registered(result) => LaunchEvent::Registered(unit(result)),
        LaunchEvent::Attached(result) => LaunchEvent::Attached(unit(result)),
        other => panic!("not part of a start: {other:?}"),
    }
}

#[test]
fn a_detached_tunnel_is_registered_as_running() {
    let share = ShareSettings { expires_at: at(900), password_hint: "**".to_string() };
    let launch = ready(LaunchOptions {
        detach: true,
        share: Some(share.clone()),
        ..options()
    });
    assert!(matches!(
        launch.wants(),
        LaunchAction::SpawnDetached(command, domain)
            if command.own_group && domain == "demo.example.com"
    ));
    let launch = goes_on(launch.next(LaunchEvent::SpawnedDetached(Ok(77)), at(200)));
    assert_eq!(
        registered(&launch),
        TunnelRecord {
            domain: "demo.example.com".to_string(),
            local_port: 3000,
            local_protocol: LocalProtocol::Https,
            zone_id: "z1".to_string(),
            zone_name: "example.com".to_string(),
            account_id: "acc".to_string(),
            tunnel_id: "t1".to_string(),
            tunnel_name: "punch-demo-example-com".to_string(),
            tunnel_token: "tok".to_string(),
            dns_record_id: Some("d1".to_string()),
            dns_target: "t1.cfargotunnel.com".to_string(),
            pid: Some(77),
            detached: true,
            status: TunnelStatus::Running,
            log_file: "/p/logs/demo-example-com.log".to_string(),
            created_at: at(100),
            started_at: Some(at(200)),
            last_seen_at: Some(at(200)),
            share: Some(share),
        }
    );
    let step = launch.next(LaunchEvent::Registered(Ok(())), at(300));
    assert_eq!(
        texts(&step.notices),
        [
            "",
            "\u{1b}[32m➜\u{1b}[39m 服务上线: \u{1b}[1mhttps://demo.example.com\u{1b}[0m",
            "  本地映射: localhost:3000",
            "  日志文件: /p/logs/demo-example-com.log",
            "",
            "\u{1b}[32m✓\u{1b}[39m 后台运行中，PID: 77",
            "\u{1b}[32m✓\u{1b}[39m 日志文件: /p/logs/demo-example-com.log",
            "\u{1b}[33m⚠\u{1b}[39m 分享元数据已记录，但密码保护仍需后续接入 Cloudflare Access API",
        ]
    );
    assert!(step.notices.iter().all(|notice| notice.stream == Stream::Output));
    assert_eq!(ends(step), Ok(()));
}

#[test]
fn an_exported_tunnel_writes_nothing_but_its_address() {
    let mut launch = begin(LaunchOptions { detach: true, export: true, ..options() });
    let events = vec![
        LaunchEvent::Detected(Ok(())),
        LaunchEvent::Token(Ok(None)),
        LaunchEvent::Typed(Ok("api".to_string())),
        LaunchEvent::Authenticated(Ok(())),
        LaunchEvent::Opened(Ok(())),
        LaunchEvent::Port(PortProbe::Open),
        LaunchEvent::Https(Ok(true)),
        LaunchEvent::Zone(Ok(zone())),
        LaunchEvent::Tunnel(Ok(tunnel())),
        LaunchEvent::Configured(Ok(())),
        LaunchEvent::Dns(Ok(DnsRecord { id: "d1".to_string() })),
        LaunchEvent::SpawnedDetached(Ok(77)),
    ];
    for event in events {
        match launch.wants() {
            LaunchAction::Prompt(stream) => assert_eq!(stream, Stream::Errors),
            LaunchAction::Authenticate(_, stream) => assert_eq!(stream, Stream::Errors),
            _ => {}
        }
        let step = launch.next(event, at(0));
        assert!(step.notices.iter().all(|notice| notice.stream == Stream::Errors));
        launch = goes_on(step);
    }
    let step = launch.next(LaunchEvent::Registered(Ok(())), at(0));
    assert_eq!(
        texts(&step.notices),
        [
            "export PUNCH_URL='https://demo.example.com'",
            "export PUNCH_DOMAIN='demo.example.com'",
            "export PUNCH_PORT='3000'",
        ]
    );
    assert!(step.notices.iter().all(|notice| notice.stream == Stream::Output));
    assert_eq!(ends(step), Ok(()));
}

#[test]
fn a_session_in_the_foreground_tells_how_to_stop_it() {
    let launch = goes_on(ready(options()).next(LaunchEvent::SpawnedForeground(Ok(None)), at(200)));
    let record = registered(&launch);
    assert_eq!(record.pid, None);
    assert_eq!(record.status, TunnelStatus::Running);
    assert!(!record.detached);
    let step = launch.next(LaunchEvent::Registered(Ok(())), at(200));
    assert_eq!(step.notices.len(), 6);
    assert_eq!(step.notices[5].text, "\u{1b}[2m按 Ctrl+C 停止\u{1b}[0m");
    let launch = goes_on(step);
    assert_eq!(
        launch.wants(),
        LaunchAction::Attach("/p/logs/demo-example-com.log".to_string())
    );
    assert_eq!(feed(launch, vec![LaunchEvent::Attached(Ok(()))]).wants(), LaunchAction::Wait);
}

#[test]
fn a_session_that_ends_is_forgotten() {
    let exited = LaunchEvent::Ended(SessionEnd::Exited(true, "exit status: 0".to_string()));
    let launch = feed(running(), vec![exited]);
    assert_eq!(launch.wants(), LaunchAction::JoinLogs);
    let launch = feed(launch, vec![LaunchEvent::LogsJoined(Ok(()))]);
    assert_eq!(launch.wants(), LaunchAction::Forget("demo.example.com".to_string()));
    assert_eq!(ends(launch.next(LaunchEvent::Forgotten(Ok(())), at(0))), Ok(()));
}

#[test]
fn a_session_that_crashes_is_forgotten_and_reported() {
    let exited = LaunchEvent::Ended(SessionEnd::Exited(false, "exit status: 1".to_string()));
    let launch = feed(running(), vec![exited, LaunchEvent::LogsJoined(Ok(()))]);
    assert_eq!(launch.wants(), LaunchAction::Forget("demo.example.com".to_string()));
    let error = ends(launch.next(LaunchEvent::Forgotten(Ok(())), at(0))).unwrap_err();
    assert_eq!(error.line(), "cloudflared 异常退出: exit status: 1");
}

#[test]
fn a_session_that_is_interrupted_is_stopped_and_forgotten() {
    let launch = feed(running(), vec![LaunchEvent::Ended(SessionEnd::Interrupted)]);
    assert_eq!(launch.wants(), LaunchAction::Kill);
    let launch = feed(launch, vec![LaunchEvent::Killed(Ok(())), LaunchEvent::LogsJoined(Ok(()))]);
    assert_eq!(launch.wants(), LaunchAction::Forget("demo.example.com".to_string()));
    assert_eq!(ends(launch.next(LaunchEvent::Forgotten(Ok(())), at(0))), Ok(()));
}

#[test]
fn an_interrupted_session_is_forgotten_even_if_it_cannot_be_stopped() {
    let launch = feed(
        running(),
        vec![
            LaunchEvent::Ended(SessionEnd::Interrupted),
            LaunchEvent::Killed(Err(broken())),
        ],
    );
    assert_eq!(launch.wants(), LaunchAction::Forget("demo.example.com".to_string()));
    assert_eq!(
        ends(launch.next(LaunchEvent::Forgotten(Err(PunchError::new(ErrorKind::NoLog))), at(0))),
        Err(broken())
    );
}

#[test]
fn a_log_that_cannot_be_written_out_is_reported_at_the_end() {
    let exited = LaunchEvent::Ended(SessionEnd::Exited(false, "exit status: 1".to_string()));
    let launch = feed(running(), vec![exited, LaunchEvent::LogsJoined(Err(broken()))]);
    assert_eq!(
        ends(launch.next(LaunchEvent::Forgotten(Ok(())), at(0))),
        Err(broken())
    );
}

#[test]
fn a_register_that_cannot_be_written_is_reported() {
    let exited = LaunchEvent::Ended(SessionEnd::Exited(false, "exit status: 1".to_string()));
    let launch = feed(running(), vec![exited, LaunchEvent::LogsJoined(Ok(()))]);
    assert_eq!(
        ends(launch.next(LaunchEvent::Forgotten(Err(broken())), at(0))),
        Err(broken())
    );
}

#[test]
fn a_session_whose_end_is_unknown_stays_registered() {
    let step = running().next(LaunchEvent::Ended(SessionEnd::WaitFailed(broken())), at(0));
    assert_eq!(ends(step), Err(broken()));
}

#[test]
fn what_was_not_waited_for_changes_nothing() {
    let step = begin(options()).next(LaunchEvent::Forgotten(Ok(())), at(0));
    assert!(step.notices.is_empty());
    assert_eq!(goes_on(step).wants(), LaunchAction::Detect);
    let step = ready(options()).next(LaunchEvent::SpawnedDetached(Ok(1)), at(0));
    assert!(matches!(goes_on(step).wants(), LaunchAction::SpawnForeground(_)));
    let detached = ready(LaunchOptions { detach: true, ..options() });
    let step = detached.next(LaunchEvent::SpawnedForeground(Ok(None)), at(0));
    assert!(matches!(goes_on(step).wants(), LaunchAction::SpawnDetached(_, _)));
}
