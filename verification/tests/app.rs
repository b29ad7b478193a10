use punch::app::{
    list_tunnels, list_tunnels_at, print_version, share, share_at, show_logs, stop_tunnel,
    stop_tunnel_at, up, up_next, UpNext,
};
use punch::clock::Timestamp;
use punch::config::{PunchConfig, PunchTunnelConfig};
use punch::error::{ErrorKind, PunchError};
use punch::state::{PersistedState, StateStore};
use punch::types::{LocalProtocol, TunnelRecord, TunnelStatus, TunnelTarget};

fn at(seconds: i64) -> Timestamp {
    Timestamp::new(seconds, 0).expect("an instant")
}

fn record(domain: &str, started: Option<i64>) -> TunnelRecord {
    TunnelRecord {
        domain: domain.to_string(),
        local_port: 81,
        local_protocol: LocalProtocol::Http,
        zone_id: String::new(),
        zone_name: String::new(),
        account_id: String::new(),
        tunnel_id: String::new(),
        tunnel_name: String::new(),
        tunnel_token: String::new(),
        dns_record_id: None,
        dns_target: String::new(),
        pid: Some(9),
        detached: true,
        status: TunnelStatus::Running,
        log_file: format!("/p/{domain}.log"),
        created_at: at(0),
        started_at: started.map(at),
        last_seen_at: None,
        share: None,
    }
}

#[test]
fn versions_are_shown() {
    assert_eq!(
        print_version(Ok("cloudflared version 1".to_string())),
        ["punch 0.1.0", "cloudflared cloudflared version 1"]
    );
    assert_eq!(
        print_version(Err(PunchError::new(ErrorKind::NoCloudflared))),
        ["punch 0.1.0", "cloudflared 未安装"]
    );
}

#[test]
fn an_empty_list_says_so() {
    assert_eq!(list_tunnels_at(&Vec::new(), &at(0)), ["没有已登记的隧道。"]);
}

#[test]
fn a_row_shows_a_tunnel() {
    let rows = list_tunnels_at(&vec![record("demo.com", Some(0))], &at(3 * 3600 + 125));
    assert_eq!(rows[0], "ACTIVE TUNNELS");
    assert_eq!(rows[1], "──────────────");
    let expected = format!(
        "\u{1b}[32m●\u{1b}[39m {:<24} {:<36} {:<8} pid={}",
        "demo.com", "https://demo.com → :81", "3h02m", "9"
    );
    assert_eq!(rows[2], expected);
    assert_eq!(rows.len(), 3);
}

#[test]
fn a_row_shows_every_status() {
    let mut records = vec![record("a.b", None), record("b.c", None), record("c.d", None)];
    records[0].status = TunnelStatus::Stopped;
    records[0].pid = None;
    records[1].status = TunnelStatus::Failed;
    records[2].status = TunnelStatus::Unknown;
    let rows = list_tunnels_at(&records, &at(0));
    assert!(rows[2].starts_with("\u{1b}[2m○\u{1b}[0m a.b "));
    assert!(rows[2].ends_with(" -        pid=-"));
    assert!(rows[3].starts_with("\u{1b}[31m!\u{1b}[39m b.c "));
    assert!(rows[4].starts_with("\u{1b}[33m?\u{1b}[39m c.d "));
}

#[test]
fn long_columns_are_not_cut() {
    let domain = "a-very-long-label.in-a-long-domain.example.com";
    let rows = list_tunnels_at(&vec![record(domain, None)], &at(0));
    assert!(rows[2].contains(&format!(" {domain} https://{domain} → :81 - ")));
}

#[test]
fn the_newest_tunnel_stands_first() {
    let records = vec![
        record("none-a.x", None),
        record("old.x", Some(10)),
        record("same-a.x", Some(20)),
        record("same-b.x", Some(20)),
        record("none-b.x", None),
        record("new.x", Some(30)),
    ];
    let mut sorted: Vec<&TunnelRecord> = records.iter().collect();
    sorted.sort_by_key(|record| std::cmp::Reverse(record.started_at.map(|time| time.seconds())));
    let rows = list_tunnels_at(&records, &at(40));
    for (row, record) in rows[2..].iter().zip(sorted) {
        assert!(row.contains(&format!(" {} ", record.domain)), "{row}");
    }
    assert!(rows[2].contains("new.x"));
    assert!(rows[3].contains("same-a.x"));
    assert!(rows[4].contains("same-b.x"));
    assert!(rows[7].contains("none-b.x"));
}

#[test]
fn a_list_can_be_shown_now() {
    let rows = list_tunnels(&vec![record("demo.com", Some(0))]);
    assert_eq!(rows.len(), 3);
    assert!(rows[2].contains("demo.com"));
}

fn state(detached: bool) -> PersistedState {
    let mut state = PersistedState::default();
    StateStore::upsert(&mut state, record("a.b", None));
    let mut other = record("b.c", None);
    other.detached = detached;
    StateStore::upsert(&mut state, other);
    state
}

#[test]
fn a_detached_tunnel_that_is_stopped_stays_registered() {
    let mut state = state(true);
    let stopped = stop_tunnel_at(&mut state, "b.c", &vec![9], at(5));
    assert_eq!(stopped, Ok((Some(9), "\u{1b}[32m✓\u{1b}[39m 已停止 b.c".to_string())));
    let record = StateStore::find(&state, "b.c").expect("a tunnel");
    assert_eq!((record.pid, record.status), (None, TunnelStatus::Stopped));
}

#[test]
fn a_tunnel_of_the_foreground_that_is_stopped_is_forgotten() {
    let mut state = state(false);
    let (signal, _) = stop_tunnel(&mut state, "b.c", &vec![]).expect("a tunnel");
    assert_eq!(signal, None);
    assert_eq!(StateStore::find(&state, "b.c"), None);
    assert!(StateStore::find(&state, "a.b").is_some());
    assert_eq!(state.recent_domain.as_deref(), Some("a.b"));
}

#[test]
fn an_unknown_tunnel_cannot_be_stopped() {
    let mut state = state(true);
    let error = stop_tunnel(&mut state, "x.y", &vec![9]).unwrap_err();
    assert_eq!(error.line(), "未找到隧道: x.y");
    assert_eq!(StateStore::list(&state).len(), 2);
}

#[test]
fn the_latest_log_is_shown_where_none_is_named() {
    let state = state(true);
    assert_eq!(show_logs(&state, &None), Ok("/p/b.c.log".to_string()));
    assert_eq!(show_logs(&state, &Some("a.b".to_string())), Ok("/p/a.b.log".to_string()));
    let error = show_logs(&state, &Some("x.y".to_string())).unwrap_err();
    assert_eq!(error.kind, ErrorKind::NoLog);
    assert!(show_logs(&PersistedState::default(), &None).is_err());
}

#[test]
fn the_log_of_the_one_started_last_is_shown_after_a_removal() {
    let mut state = PersistedState::default();
    for (domain, start) in [("z.com", 1), ("a.com", 2), ("m.com", 3)] {
        StateStore::upsert(&mut state, record(domain, Some(start)));
    }
    assert_eq!(show_logs(&state, &None), Ok("/p/m.com.log".to_string()));
    StateStore::remove(&mut state, "m.com");
    assert_eq!(show_logs(&state, &None), Ok("/p/a.com.log".to_string()));
}

fn tunnel(domain: &str, port: u16, https: Option<bool>) -> PunchTunnelConfig {
    PunchTunnelConfig { domain: domain.to_string(), port, https, env: None }
}

#[test]
fn the_tunnels_of_a_file_are_brought_online() {
    let config = PunchConfig {
        tunnels: vec![
            tunnel("api.example.com", 3000, Some(true)),
            tunnel("demo.com", 8080, None),
            tunnel("x.y", 1, Some(false)),
        ],
    };
    let launches = up(&config, Some(LocalProtocol::Tcp), true).expect("launches");
    let targets: Vec<&str> = launches.iter().map(|(target, _)| target.as_str()).collect();
    assert_eq!(targets, ["api.example.com:3000", "demo.com:8080", "x.y:1"]);
    let protocols: Vec<Option<LocalProtocol>> =
        launches.iter().map(|(_, options)| options.protocol).collect();
    assert_eq!(
        protocols,
        [Some(LocalProtocol::Https), Some(LocalProtocol::Tcp), Some(LocalProtocol::Tcp)]
    );
    for (_, options) in &launches {
        assert!(options.detach && options.insecure && !options.export && options.share.is_none());
    }
    for ((target, _), tunnel) in launches.iter().zip(&config.tunnels) {
        let read = TunnelTarget::parse(target).expect("a target");
        assert_eq!((read.domain, read.port), (tunnel.domain.clone(), tunnel.port));
    }
}

#[test]
fn a_file_without_tunnels_is_an_error() {
    let error = up(&PunchConfig::default(), None, false).unwrap_err();
    assert_eq!(error.kind, ErrorKind::NothingConfigured);
}

/// Brings the tunnels of a file online, each with the given outcome: those that were tried, and
/// what it all comes to.
fn run_up(outcomes: Vec<Result<(), PunchError>>) -> (Vec<String>, Result<(), PunchError>) {
    let tunnels = (0..outcomes.len()).map(|i| tunnel(&format!("{i}.x"), 1, None)).collect();
    let launches = up(&PunchConfig { tunnels }, None, false).expect("launches");
    let mut outcomes = outcomes.into_iter();
    let mut tried = Vec::new();
    let mut next = up_next(launches, Ok(()));
    loop {
        match next {
            UpNext::Launch(target, _, rest) => {
                tried.push(target);
                next = up_next(rest, outcomes.next().expect("an outcome"));
            }
            UpNext::Finished(result) => return (tried, result),
        }
    }
}

#[test]
fn the_first_failure_ends_the_run() {
    let error = || PunchError::new(ErrorKind::NoCloudflared);
    let (tried, result) = run_up(vec![Ok(()), Err(error()), Ok(())]);
    assert_eq!(tried, ["0.x:1", "1.x:1"]);
    assert_eq!(result, Err(error()));
}

#[test]
fn all_tunnels_of_a_file_are_brought_online_in_order() {
    let (tried, result) = run_up(vec![Ok(()), Ok(()), Ok(())]);
    assert_eq!(tried, ["0.x:1", "1.x:1", "2.x:1"]);
    assert_eq!(result, Ok(()));
}

#[test]
fn a_password_changes_nothing_but_the_hint() {
    let terms = |password: &str| share_at("1h", password, None, true, &at(7)).expect("terms");
    assert_eq!(terms("secret"), terms("sesame"));
    assert_eq!(terms("12345678"), terms("a much longer one"));
    assert_ne!(terms("short"), terms("longer"));
}

#[test]
fn a_share_records_its_terms() {
    let options = share_at("2h", "中文密码", Some(LocalProtocol::Http), true, &at(100))
        .expect("terms")
        .expect("an end");
    assert!(options.detach && !options.export && options.insecure);
    assert_eq!(options.protocol, Some(LocalProtocol::Http));
    let terms = options.share.expect("terms");
    assert_eq!(terms.expires_at, at(7_300));
    assert_eq!(terms.password_hint, "****");
}

#[test]
fn a_hint_has_eight_stars_at_most() {
    let hint = |password: &str| {
        share_at("1m", password, None, false, &at(0))
            .expect("terms")
            .and_then(|options| options.share)
            .map(|terms| terms.password_hint)
    };
    assert_eq!(hint("").as_deref(), Some(""));
    assert_eq!(hint("12345678").as_deref(), Some("********"));
    assert_eq!(hint("123456789abc").as_deref(), Some("********"));
}

#[test]
fn a_share_with_a_bad_end_is_refused() {
    assert!(share("soon", "pw", None, false).is_err());
    assert_eq!(share_at("9999999999999d", "pw", None, false, &at(0)), Ok(None));
    assert!(share("5m", "pw", None, false).expect("terms").is_some());
}
