use punch::error::{ErrorKind, PunchError};
use punch::types::{LocalProtocol, TunnelStatus, TunnelTarget};

fn fails(value: &str) -> PunchError {
    TunnelTarget::parse(value).unwrap_err()
}

#[test]
fn target_and_port_are_read_back() {
    for port in [0u16, 7, 80, 8080, 65535] {
        let target = TunnelTarget::parse(&format!("a-b.example.com:{port}")).expect("a target");
        assert_eq!(target.domain, "a-b.example.com");
        assert_eq!(target.port, port);
    }
}

#[test]
fn margins_of_a_target_do_not_count() {
    let target = TunnelTarget::parse(" \t demo.com:81\n").expect("a target");
    assert_eq!(target, TunnelTarget { domain: "demo.com".to_string(), port: 81 });
    let target = TunnelTarget::parse("\u{3000}demo.com\u{a0}").expect("a target");
    assert_eq!(target, TunnelTarget { domain: "demo.com".to_string(), port: 8080 });
}

#[test]
fn what_follows_a_colon_with_a_dot_is_no_port() {
    let target = TunnelTarget::parse("x:demo.com").expect("a target");
    assert_eq!(target.domain, "x:demo.com");
    assert_eq!(target.port, 8080);
}

#[test]
fn the_last_colon_decides() {
    let target = TunnelTarget::parse("a.b:1:22").expect("a target");
    assert_eq!(target.domain, "a.b:1");
    assert_eq!(target.port, 22);
}

#[test]
fn a_plus_sign_may_stand_before_a_port() {
    assert_eq!(TunnelTarget::parse("a.b:+80").expect("a target").port, 80);
}

#[test]
fn blank_targets_are_refused() {
    assert_eq!(fails("").kind, ErrorKind::EmptyTarget);
    assert_eq!(fails("  \n").kind, ErrorKind::EmptyTarget);
    assert_eq!(fails("").line(), "请输入域名，例如 `punch demo.com:8080`");
}

#[test]
fn bad_ports_are_refused_with_their_cause() {
    assert_eq!(fails("a.b:").line(), "无效端口: : cannot parse integer from empty string");
    assert_eq!(fails("a.b:x").line(), "无效端口: x: invalid digit found in string");
    assert_eq!(
        fails("a.b:65536").line(),
        "无效端口: 65536: number too large to fit in target type"
    );
    assert_eq!(fails("a.b:-1").line(), "无效端口: -1: invalid digit found in string");
    assert_eq!(fails("a.b:+").kind, ErrorKind::InvalidPort("+".to_string()));
}

#[test]
fn domains_without_a_dot_are_refused() {
    assert_eq!(fails("localhost").kind, ErrorKind::InvalidDomain("localhost".to_string()));
    assert_eq!(fails("localhost:80").line(), "无效域名: localhost");
    assert_eq!(fails(":80").line(), "无效域名: ");
}

#[test]
fn targets_are_read_through_from_str() {
    let target: TunnelTarget = "demo.com:1".parse().expect("a target");
    assert_eq!(target.clone(), TunnelTarget { domain: "demo.com".to_string(), port: 1 });
    assert!("demo".parse::<TunnelTarget>().is_err());
}

#[test]
fn protocols_have_their_urls() {
    assert_eq!(LocalProtocol::Http.service_url(80), "http://127.0.0.1:80");
    assert_eq!(LocalProtocol::Https.service_url(8443), "https://127.0.0.1:8443");
    assert_eq!(LocalProtocol::Tcp.service_url(0), "tcp://127.0.0.1:0");
    assert_eq!(LocalProtocol::Tcp.scheme(), "tcp");
}

#[test]
fn statuses_have_their_names() {
    assert_eq!(TunnelStatus::Running.label(), "running");
    assert_eq!(TunnelStatus::Stopped.label(), "stopped");
    assert_eq!(TunnelStatus::Failed.label(), "failed");
    assert_eq!(TunnelStatus::Unknown.label(), "unknown");
}

#[test]
fn errors_keep_their_chain() {
    let inner = PunchError::caused(ErrorKind::NotLoggedIn, "why".to_string());
    let outer = inner.within("work");
    assert_eq!(outer.kind, ErrorKind::Outside("work".to_string()));
    assert_eq!(
        outer.line(),
        "work: 删除远端隧道需要已登录的 Cloudflare 凭证: why"
    );
}

#[test]
fn every_error_has_its_message() {
    let text = |kind: ErrorKind| kind.message();
    let name = || "x".to_string();
    assert_eq!(text(ErrorKind::NoDataDir), "无法推导 punch 配置目录，请设置 PUNCH_HOME");
    assert_eq!(text(ErrorKind::UnknownTunnel(name())), "未找到隧道: x");
    assert_eq!(text(ErrorKind::NoLog), "没有可用日志，请先启动一个隧道");
    assert_eq!(text(ErrorKind::EmptyLog(name())), "日志为空: x");
    assert_eq!(text(ErrorKind::NothingConfigured), "配置文件中没有 tunnels 项");
    assert_eq!(text(ErrorKind::EmptyToken), "令牌不能为空");
    assert_eq!(text(ErrorKind::InactiveToken(name())), "✗ 凭证不可用，状态: x");
    assert_eq!(text(ErrorKind::PortTimeout(80)), "✗ 端口 80 连接超时");
    assert_eq!(text(ErrorKind::PortClosed(81)), "✗ 端口 81 未监听，无法建立本地映射");
    assert_eq!(
        text(ErrorKind::NotHosted(name())),
        "✗ x 未在 Cloudflare 托管\n  解决: 1) 登录 https://dash.cloudflare.com 2) 添加站点并修改 DNS"
    );
    assert_eq!(text(ErrorKind::MissingResult), "Cloudflare API 响应缺少 result 字段");
    assert_eq!(text(ErrorKind::UnreadableReply(name())), "解析 Cloudflare API 响应失败: x");
    assert_eq!(
        text(ErrorKind::NoCloudflared),
        "✗ 未找到 cloudflared\n  解决: 安装 cloudflared 后重试，或将其加入 PATH"
    );
    assert_eq!(text(ErrorKind::CloudflaredFailed(name())), "cloudflared 异常退出: x");
    assert_eq!(text(ErrorKind::InvalidExpiry(name())), "无效过期时间: x");
    assert_eq!(
        text(ErrorKind::InvalidExpiryUnit(name())),
        "无效过期时间单位: x，支持 m/h/d"
    );
}
