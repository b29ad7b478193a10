use prometheus::IntGauge;
use punch::clock::Timestamp;
use punch::error::PunchError;
use punch::metrics::{metrics_handler, render_metrics, serving_line};
use punch::types::{LocalProtocol, TunnelRecord, TunnelStatus};

fn record(domain: &str, port: u16, status: TunnelStatus) -> TunnelRecord {
    TunnelRecord {
        domain: domain.to_string(),
        local_port: port,
        local_protocol: LocalProtocol::Http,
        zone_id: String::new(),
        zone_name: String::new(),
        account_id: String::new(),
        tunnel_id: String::new(),
        tunnel_name: String::new(),
        tunnel_token: String::new(),
        dns_record_id: None,
        dns_target: String::new(),
        pid: None,
        detached: true,
        status,
        log_file: String::new(),
        created_at: Timestamp::new(0, 0).expect("an instant"),
        started_at: None,
        last_seen_at: None,
        share: None,
    }
}

#[test]
fn a_running_tunnel_is_measured() {
    let records = vec![record("demo.example.com", 8080, TunnelStatus::Running)];
    let text = render_metrics(&records).expect("metrics");
    assert_eq!(
        text,
        "# HELP punch_active_tunnels 当前活跃隧道数量\n\
         # TYPE punch_active_tunnels gauge\n\
         punch_active_tunnels 1\n\
         # HELP punch_total_tunnels 记录中的隧道总数\n\
         # TYPE punch_total_tunnels gauge\n\
         punch_total_tunnels 1\n\
         # HELP punch_tunnel_port 本地端口\n\
         # TYPE punch_tunnel_port gauge\n\
         punch_tunnel_port{domain=\"demo.example.com\",protocol=\"http\"} 8080\n\
         # HELP punch_tunnel_up 隧道是否存活\n\
         # TYPE punch_tunnel_up gauge\n\
         punch_tunnel_up{domain=\"demo.example.com\",protocol=\"http\"} 1\n"
    );
}

#[test]
fn tunnels_are_counted() {
    let records = vec![
        record("a.b", 1, TunnelStatus::Running),
        record("b.c", 2, TunnelStatus::Stopped),
        record("c.d", 3, TunnelStatus::Running),
        record("d.e", 4, TunnelStatus::Unknown),
    ];
    let text = render_metrics(&records).expect("metrics");
    assert!(text.contains("\npunch_active_tunnels 2\n"));
    assert!(text.contains("\npunch_total_tunnels 4\n"));
    assert!(text.contains("\npunch_tunnel_up{domain=\"b.c\",protocol=\"http\"} 0\n"));
    assert!(text.contains("\npunch_tunnel_port{domain=\"d.e\",protocol=\"http\"} 4\n"));
}

#[test]
fn without_tunnels_the_counts_are_zero() {
    let text = render_metrics(&Vec::new()).expect("metrics");
    assert!(text.contains("\npunch_active_tunnels 0\n"));
    assert!(text.contains("\npunch_total_tunnels 0\n"));
    assert!(!text.contains("punch_tunnel_up"));
    assert!(!text.contains("punch_tunnel_port"));
}

#[test]
fn labels_are_escaped() {
    let records = vec![record("a\"b\\c.d", 1, TunnelStatus::Running)];
    let text = render_metrics(&records).expect("metrics");
    assert!(text.contains("domain=\"a\\\"b\\\\c.d\""));
}

#[test]
fn the_same_tunnels_give_the_same_text() {
    let records = || {
        vec![
            record("b.c", 2, TunnelStatus::Stopped),
            record("a.b", 1, TunnelStatus::Running),
        ]
    };
    let text = render_metrics(&records()).expect("metrics");
    assert_eq!(render_metrics(&records()), Ok(text.clone()));
    let first = text.find("domain=\"a.b\"").expect("a sample");
    let second = text.find("domain=\"b.c\"").expect("a sample");
    assert!(first < second);
}

#[test]
fn metrics_are_answered() {
    assert_eq!(metrics_handler(Ok("text".to_string())), (200, "text".to_string()));
    let error = PunchError::outside("broken", vec!["why".to_string()]);
    assert_eq!(
        metrics_handler(Err(error)),
        (500, "render metrics failed: broken: why".to_string())
    );
    assert_eq!(
        serving_line(9090),
        "✓ Prometheus 指标已暴露: http://127.0.0.1:9090/metrics"
    );
}

#[test]
fn the_registry_knows_the_metrics_by_their_numbers() {
    let number = |name: &str| {
        let gauge = IntGauge::new(name, "about").expect("a gauge");
        prometheus::core::Collector::desc(&gauge)[0].id
    };
    assert_eq!(number("punch_active_tunnels"), 0xc655_32bd_5d54_1d0f);
    assert_eq!(number("punch_total_tunnels"), 0x1b2f_a549_67cd_2faf);
    assert_eq!(number("punch_tunnel_up"), 0x448e_487d_71ca_3a5b);
    assert_eq!(number("punch_tunnel_port"), 0x9998_4a93_2253_04a9);
}
