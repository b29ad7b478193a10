use punch::clock::Timestamp;
use punch::state::{PersistedState, StateStore};
use punch::storage::{FileRead, PunchDirs};
use punch::tunnel_map::{word_order, TunnelMap, WordOrder};
use punch::types::{LocalProtocol, TunnelRecord, TunnelStatus};
use std::path::{Path, PathBuf};

fn at(seconds: i64) -> Timestamp {
    Timestamp::new(seconds, 0).expect("an instant")
}

fn record(domain: &str, pid: Option<u32>) -> TunnelRecord {
    TunnelRecord {
        domain: domain.to_string(),
        local_port: 8080,
        local_protocol: LocalProtocol::Http,
        zone_id: "zone".to_string(),
        zone_name: "example.com".to_string(),
        account_id: "account".to_string(),
        tunnel_id: "tunnel".to_string(),
        tunnel_name: "punch-x".to_string(),
        tunnel_token: "token".to_string(),
        dns_record_id: Some("dns".to_string()),
        dns_target: "tunnel.cfargotunnel.com".to_string(),
        pid,
        detached: true,
        status: TunnelStatus::Unknown,
        log_file: "x.log".to_string(),
        created_at: at(1),
        started_at: None,
        last_seen_at: None,
        share: None,
    }
}

fn started(domain: &str, seconds: Option<i64>) -> TunnelRecord {
    TunnelRecord { started_at: seconds.map(at), ..record(domain, None) }
}

fn state(domains: &[&str]) -> PersistedState {
    let mut state = PersistedState::default();
    for domain in domains {
        StateStore::upsert(&mut state, record(domain, None));
    }
    state
}

fn domains(state: &PersistedState) -> Vec<String> {
    StateStore::list(state).into_iter().map(|record| record.domain).collect()
}

#[test]
fn records_have_their_addresses() {
    let record = record("demo.com", None);
    assert_eq!(record.public_url(), "https://demo.com");
    assert_eq!(record.local_target(), "http://127.0.0.1:8080");
    assert_eq!(record.clone(), record);
}

#[test]
fn words_are_ordered_by_their_first_difference() {
    assert_eq!(word_order("a", "b"), WordOrder::Before);
    assert_eq!(word_order("b", "ab"), WordOrder::After);
    assert_eq!(word_order("ab", "ab"), WordOrder::Same);
    assert_eq!(word_order("a", "ab"), WordOrder::Before);
    assert_eq!(word_order("ab", "a"), WordOrder::After);
    assert_eq!(word_order("", ""), WordOrder::Same);
    assert_eq!(word_order("Z", "a"), WordOrder::Before);
}

#[test]
fn words_are_ordered_as_strings_are() {
    let words = ["", "a", "aa", "ab", "b", "B", "é", "z", "中", "\u{10000}", "\u{ffff}"];
    for a in words {
        for b in words {
            let expected = if a < b {
                WordOrder::Before
            } else if a == b {
                WordOrder::Same
            } else {
                WordOrder::After
            };
            assert_eq!(word_order(a, b), expected, "{a:?} {b:?}");
        }
    }
}

#[test]
fn tunnels_are_listed_in_the_order_of_their_domains() {
    assert_eq!(domains(&state(&["c.d", "a.b", "b.c"])), ["a.b", "b.c", "c.d"]);
    assert!(domains(&state(&[])).is_empty());
}

#[test]
fn a_registered_tunnel_is_found_and_is_the_latest() {
    let mut state = state(&["a.b", "c.d"]);
    let mut wanted = record("b.c", Some(7));
    wanted.local_port = 1;
    StateStore::upsert(&mut state, wanted.clone());
    assert_eq!(StateStore::find(&state, "b.c"), Some(wanted.clone()));
    assert_eq!(StateStore::recent(&state), Some(wanted));
    assert_eq!(StateStore::find(&state, "a.b"), Some(record("a.b", None)));
    assert_eq!(StateStore::find(&state, "x.y"), None);
}

#[test]
fn a_later_registration_replaces_the_first() {
    let mut state = state(&["a.b"]);
    StateStore::upsert(&mut state, record("a.b", Some(3)));
    assert_eq!(domains(&state), ["a.b"]);
    assert_eq!(StateStore::find(&state, "a.b").and_then(|record| record.pid), Some(3));
}

#[test]
fn removing_gives_the_tunnel_back() {
    let mut state = state(&["a.b", "b.c"]);
    assert_eq!(StateStore::remove(&mut state, "a.b"), Some(record("a.b", None)));
    assert_eq!(StateStore::remove(&mut state, "a.b"), None);
    assert_eq!(domains(&state), ["b.c"]);
}

#[test]
fn removing_undoes_registering_a_new_tunnel() {
    let mut state = state(&["a.b", "c.d"]);
    StateStore::upsert(&mut state, record("b.c", None));
    StateStore::remove(&mut state, "b.c");
    assert_eq!(domains(&state), ["a.b", "c.d"]);
}

#[test]
fn the_one_started_last_takes_the_place_of_the_latest() {
    let mut state = PersistedState::default();
    for (domain, start) in [("z.com", 10), ("a.com", 20), ("k.com", 15), ("m.com", 30)] {
        StateStore::upsert(&mut state, started(domain, Some(start)));
    }
    assert_eq!(state.recent_domain.as_deref(), Some("m.com"));
    StateStore::remove(&mut state, "m.com");
    assert_eq!(state.recent_domain.as_deref(), Some("a.com"));
    StateStore::remove(&mut state, "z.com");
    assert_eq!(state.recent_domain.as_deref(), Some("a.com"));
    StateStore::remove(&mut state, "a.com");
    assert_eq!(state.recent_domain.as_deref(), Some("k.com"));
    StateStore::remove(&mut state, "k.com");
    assert_eq!(state.recent_domain, None);
    assert_eq!(StateStore::recent(&state), None);
}

#[test]
fn the_later_domain_decides_between_tunnels_of_one_time() {
    let mut same = PersistedState::default();
    for domain in ["c.d", "d.e", "a.b", "b.c"] {
        StateStore::upsert(&mut same, started(domain, Some(5)));
    }
    StateStore::remove(&mut same, "b.c");
    assert_eq!(same.recent_domain.as_deref(), Some("d.e"));
    let mut never = state(&["c.d", "a.b", "b.c"]);
    StateStore::remove(&mut never, "b.c");
    assert_eq!(never.recent_domain.as_deref(), Some("c.d"));
}

#[test]
fn a_tunnel_that_was_not_started_comes_last() {
    let mut state = state(&["z.z"]);
    StateStore::upsert(&mut state, started("a.b", Some(1)));
    StateStore::upsert(&mut state, started("b.c", Some(2)));
    StateStore::remove(&mut state, "b.c");
    assert_eq!(state.recent_domain.as_deref(), Some("a.b"));
    StateStore::remove(&mut state, "a.b");
    assert_eq!(state.recent_domain.as_deref(), Some("z.z"));
}

#[test]
fn what_is_done_to_tunnels_keeps_the_latest() {
    let mut state = PersistedState::default();
    StateStore::upsert(&mut state, started("c.d", Some(1)));
    StateStore::upsert(&mut state, started("b.c", Some(2)));
    StateStore::upsert(&mut state, started("a.b", Some(3)));
    StateStore::refresh_statuses_at(&mut state, &vec![], at(9));
    StateStore::stop_process_at(&mut state, "b.c", &vec![], at(10));
    StateStore::remove(&mut state, "a.b");
    assert_eq!(StateStore::recent(&state).map(|record| record.domain).as_deref(), Some("b.c"));
}

#[test]
fn a_tunnel_is_registered_in_a_file_and_taken_out() {
    let state = StateStore::register(FileRead::Missing, record("a.b", None)).expect("a state");
    assert_eq!(domains(&state), ["a.b"]);
    let state =
        StateStore::register(FileRead::Parsed(state), record("b.c", None)).expect("a state");
    assert_eq!(domains(&state), ["a.b", "b.c"]);
    let (state, removed) = StateStore::forget(FileRead::Parsed(state), "b.c").expect("a state");
    assert_eq!(removed, Some(record("b.c", None)));
    assert_eq!(domains(&state), ["a.b"]);
    assert_eq!(state.recent_domain.as_deref(), Some("a.b"));
    let (state, removed) = StateStore::forget(FileRead::Missing, "b.c").expect("a state");
    assert_eq!((domains(&state).len(), removed), (0, None));
}

#[test]
fn nothing_is_written_to_a_broken_state_file() {
    let causes = || vec!["why".to_string()];
    let error =
        StateStore::register(FileRead::Malformed(causes()), record("a.b", None)).unwrap_err();
    assert_eq!(error.line(), "解析状态文件失败: why");
    let error = StateStore::forget(FileRead::Unreadable(causes()), "a.b").unwrap_err();
    assert_eq!(error.line(), "读取状态文件失败: why");
}

#[test]
fn a_latest_tunnel_that_is_not_registered_is_none() {
    let mut state = state(&["a.b"]);
    state.recent_domain = Some("x.y".to_string());
    assert_eq!(StateStore::recent(&state), None);
}

#[test]
fn looking_at_the_tunnels_sets_their_status() {
    let mut state = PersistedState::default();
    StateStore::upsert(&mut state, record("a.b", Some(1)));
    StateStore::upsert(&mut state, record("b.c", Some(2)));
    StateStore::upsert(&mut state, record("c.d", None));
    let seen = StateStore::refresh_statuses_at(&mut state, &vec![5, 2], at(9));
    let statuses: Vec<TunnelStatus> = seen.iter().map(|record| record.status).collect();
    assert_eq!(
        statuses,
        [TunnelStatus::Stopped, TunnelStatus::Running, TunnelStatus::Unknown]
    );
    assert!(seen.iter().all(|record| record.last_seen_at == Some(at(9))));
    assert_eq!(StateStore::list(&state), seen);
    assert_eq!(StateStore::refresh_statuses_at(&mut state, &vec![2, 5], at(9)), seen);
    assert_eq!(state.recent_domain.as_deref(), Some("c.d"));
}

#[test]
fn looking_now_uses_the_clock() {
    let mut state = state(&["a.b"]);
    let before = Timestamp::now();
    let seen = StateStore::refresh_statuses(&mut state, &vec![]);
    let when = seen[0].last_seen_at.expect("a time");
    assert!(!when.is_before(&before));
}

#[test]
fn stopping_clears_the_process() {
    let mut state = PersistedState::default();
    StateStore::upsert(&mut state, record("a.b", Some(4)));
    let (stopped, signal) =
        StateStore::stop_process_at(&mut state, "a.b", &vec![4], at(3)).expect("a tunnel");
    assert_eq!(signal, Some(4));
    assert_eq!(stopped.pid, None);
    assert_eq!(stopped.status, TunnelStatus::Stopped);
    assert_eq!(stopped.last_seen_at, Some(at(3)));
    assert_eq!(StateStore::find(&state, "a.b"), Some(stopped));
    let seen = StateStore::refresh_statuses_at(&mut state, &vec![4], at(5));
    assert_eq!(seen[0].status, TunnelStatus::Stopped);
}

#[test]
fn a_process_that_is_gone_is_not_signalled() {
    let mut state = PersistedState::default();
    StateStore::upsert(&mut state, record("a.b", Some(4)));
    let (_, signal) = StateStore::stop_process(&mut state, "a.b", &vec![5]).expect("a tunnel");
    assert_eq!(signal, None);
    assert!(StateStore::stop_process(&mut state, "x.y", &vec![]).is_none());
}

#[test]
fn a_missing_state_file_holds_nothing() {
    let state = StateStore::load(FileRead::Missing).expect("a state");
    assert_eq!(state.recent_domain, None);
    assert_eq!(state.tunnels.len(), 0);
    let state = StateStore::load(FileRead::Parsed(self::state(&["a.b"]))).expect("a state");
    assert_eq!(domains(&state), ["a.b"]);
}

#[test]
fn a_broken_state_file_is_reported() {
    let causes = || vec!["why".to_string()];
    let error = StateStore::load(FileRead::Unreadable(causes())).unwrap_err();
    assert_eq!(error.line(), "读取状态文件失败: why");
    let error = StateStore::load(FileRead::Malformed(causes())).unwrap_err();
    assert_eq!(error.line(), "解析状态文件失败: why");
}

#[test]
fn the_state_is_kept_in_the_home() {
    let dirs = PunchDirs::discover(Some(PathBuf::from("/p")), None).expect("directories");
    let store = StateStore::new(dirs);
    assert_eq!(store.save(), Path::new("/p/state.json"));
    assert_eq!(store.clone().dirs().home(), Path::new("/p"));
}

#[test]
fn the_map_keeps_its_order_under_random_work() {
    let mut map = TunnelMap::new();
    let mut kept: std::collections::BTreeMap<String, u16> = std::collections::BTreeMap::new();
    let mut seed: u32 = 7;
    for _ in 0..400 {
        seed = seed.wrapping_mul(1_103_515_245).wrapping_add(12_345);
        let key = format!("{}.x", (seed >> 16) % 23);
        if (seed >> 8) % 3 == 0 {
            let gone = map.remove(&key).map(|record| record.local_port);
            assert_eq!(gone, kept.remove(&key));
        } else {
            let mut value = record(&key, None);
            value.local_port = (seed >> 4) as u16;
            kept.insert(key.clone(), value.local_port);
            map.insert(key, value);
        }
        let keys: Vec<&String> = map.items().iter().map(|(key, _)| key).collect();
        assert_eq!(keys, kept.keys().collect::<Vec<_>>());
        let ports: Vec<u16> = map.values().iter().map(|record| record.local_port).collect();
        assert_eq!(ports, kept.values().copied().collect::<Vec<_>>());
        assert_eq!(map.len(), kept.len());
    }
}
