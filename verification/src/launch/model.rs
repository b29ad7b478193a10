//! What a launch does, step by step, as a function of how far it has come and of what happened.

use crate::api::{DnsView, TunnelView, ZoneView};
use crate::auth::typed_token;
use crate::clock::Timestamp;
use crate::cloudflared::run_command;
use crate::error::{failure, Failure, Fault};
use crate::launch::data::{
    ActionView, EndView, EventView, LaunchView, NextView, PlanView, ProbeView, StageView, StepView,
};
use crate::number::decimal;
use crate::output::{lines_on, pointed, ticked, warned, Stream};
use crate::shell::quoted;
use crate::style::{in_bold, in_faint, in_green, in_yellow};
use crate::text::dashed;
use crate::types::{url_of, LocalProtocol, RecordView, TunnelStatus};
use vstd::prelude::*;
use vstd::string::*;

verus! {

/// The longest name of a tunnel.
pub const NAME_LIMIT: usize = 58;

/// The name of the tunnel for `domain`.
pub open spec fn tunnel_name(domain: Seq<char>) -> Seq<char> {
    let name = "punch-"@ + dashed(domain);
    if name.len() > NAME_LIMIT {
        name.take(NAME_LIMIT as int)
    } else {
        name
    }
}

/// The name that leads to a tunnel.
pub open spec fn dns_name(tunnel_id: Seq<char>) -> Seq<char> {
    tunnel_id + ".cfargotunnel.com"@
}

impl PlanView {
    /// Where the user is told of the progress: not where a shell reads the address.
    pub open spec fn stream(self) -> Stream {
        if self.options.export {
            Stream::Errors
        } else {
            Stream::Output
        }
    }

    /// The address at which the local service is asked, over `scheme`.
    pub open spec fn local(self, scheme: LocalProtocol) -> Seq<char> {
        scheme.url(self.target.port)
    }
}

/// What a launch waits for.
pub open spec fn launch_wants(launch: LaunchView) -> ActionView {
    let plan = launch.plan;
    match launch.stage {
        StageView::Detecting => ActionView::Detect,
        StageView::Credentials => ActionView::LoadToken,
        StageView::Prompting => ActionView::Prompt(plan.stream()),
        StageView::Authenticating(token) => ActionView::Authenticate(token, plan.stream()),
        StageView::Opening(token) => ActionView::Open(token),
        StageView::ProbingPort => ActionView::ProbePort(plan.target.port),
        StageView::ProbingHttps => ActionView::ProbeHttps(plan.local(LocalProtocol::Https)),
        StageView::ProbingHttp => ActionView::ProbeHttp(plan.local(LocalProtocol::Http)),
        StageView::FindingZone(_) => ActionView::ResolveZone(plan.target.domain),
        StageView::SettingUp(_, zone) => ActionView::EnsureTunnel {
            account_id: zone.account.id,
            name: tunnel_name(plan.target.domain),
        },
        StageView::Configuring(protocol, zone, tunnel) => ActionView::Configure {
            account_id: zone.account.id,
            tunnel_id: tunnel.id,
            hostname: plan.target.domain,
            service: plan.local(protocol),
            insecure: plan.options.insecure,
        },
        StageView::Pointing(_, zone, tunnel) => ActionView::EnsureDns {
            zone_id: zone.id,
            hostname: plan.target.domain,
            target: dns_name(tunnel.id),
        },
        StageView::Spawning(record) => {
            let command = run_command(record.tunnel_token, plan.options.detach);
            if plan.options.detach {
                ActionView::SpawnDetached(command, record.domain)
            } else {
                ActionView::SpawnForeground(command)
            }
        },
        StageView::RegisteringDetached(record, _) => ActionView::Register(record),
        StageView::RegisteringForeground(record) => ActionView::Register(record),
        StageView::Attaching(record) => ActionView::Attach(record.log_file),
        StageView::Waiting(_) => ActionView::Wait,
        StageView::Killing(_) => ActionView::Kill,
        StageView::Draining(_, _) => ActionView::JoinLogs,
        StageView::Forgetting(domain, _, _) => ActionView::Forget(domain),
    }
}

/// The launch ends with `error`.
pub open spec fn launch_fails(error: Failure) -> StepView {
    StepView { notices: Seq::empty(), next: NextView::Finished(Err(error)) }
}

/// The launch goes on with `stage`, and the user is told `texts`.
pub open spec fn launch_moves(plan: PlanView, stage: StageView, texts: Seq<Seq<char>>) -> StepView {
    StepView {
        notices: lines_on(plan.stream(), texts),
        next: NextView::Continue(LaunchView { plan, stage }),
    }
}

/// The launch goes on with the search for the zone, after the user was told `texts`.
pub open spec fn to_zone(plan: PlanView, protocol: LocalProtocol, texts: Seq<Seq<char>>) -> StepView {
    launch_moves(
        plan,
        StageView::FindingZone(protocol),
        texts.push(pointed("继续创建隧道..."@)),
    )
}

/// What the user is told who has to sign in.
pub open spec fn sign_in_texts() -> Seq<Seq<char>> {
    seq![
        in_yellow("⚠ 未找到凭证，需要登录 Cloudflare"@),
        "步骤 1: 访问 https://dash.cloudflare.com/profile/api-tokens"@,
        "步骤 2: 创建令牌，权限: Zone:Read, DNS:Edit, Cloudflare Tunnel:Edit"@,
        "步骤 3: 粘贴令牌（输入已隐藏）:"@,
    ]
}

/// What is recorded of a tunnel before it runs.
pub open spec fn new_record(
    plan: PlanView,
    protocol: LocalProtocol,
    zone: ZoneView,
    tunnel: TunnelView,
    dns: DnsView,
    now: Timestamp,
) -> RecordView {
    RecordView {
        domain: plan.target.domain,
        local_port: plan.target.port,
        local_protocol: protocol,
        zone_id: zone.id,
        zone_name: zone.name,
        account_id: zone.account.id,
        tunnel_id: tunnel.id,
        tunnel_name: tunnel.name,
        tunnel_token: tunnel.token,
        dns_record_id: Some(dns.id),
        dns_target: dns_name(tunnel.id),
        pid: None,
        detached: plan.options.detach,
        status: TunnelStatus::Unknown,
        log_file: plan.log_file,
        created_at: now,
        started_at: None,
        last_seen_at: None,
        share: plan.options.share,
    }
}

/// `record` when it runs as the process `pid` since `now`.
pub open spec fn running_record(record: RecordView, pid: Option<u32>, now: Timestamp) -> RecordView {
    RecordView {
        pid,
        status: TunnelStatus::Running,
        started_at: Some(now),
        last_seen_at: Some(now),
        ..record
    }
}

/// What the user is told when the tunnel runs.
pub open spec fn success_texts(record: RecordView) -> Seq<Seq<char>> {
    seq![
        ""@,
        in_green("➜"@) + " 服务上线: "@ + in_bold(url_of(record.domain)),
        "  本地映射: localhost:"@ + decimal(record.local_port as nat),
        "  日志文件: "@ + record.log_file,
        ""@,
    ]
}

/// What the user is told when the tunnel runs behind the scenes.
pub open spec fn detached_texts(record: RecordView, pid: u32) -> Seq<Seq<char>> {
    let told = success_texts(record).push(
        ticked("后台运行中，PID: "@ + decimal(pid as nat)),
    ).push(ticked("日志文件: "@ + record.log_file));
    if record.share is Some {
        told.push(
            warned("分享元数据已记录，但密码保护仍需后续接入 Cloudflare Access API"@),
        )
    } else {
        told
    }
}

/// What a shell reads of a tunnel: its address, its domain and the local port.
pub open spec fn export_texts(record: RecordView) -> Seq<Seq<char>> {
    seq![
        "export PUNCH_URL="@ + quoted(url_of(record.domain)),
        "export PUNCH_DOMAIN="@ + quoted(record.domain),
        "export PUNCH_PORT="@ + quoted(decimal(record.local_port as nat)),
    ]
}

/// How a session ends whose tunnel was taken out of the register, or could not be: the error
/// that came first, else that of the register, else how `cloudflared` ended.
pub open spec fn session_result(
    early: Option<Failure>,
    forgotten: Result<(), Failure>,
    late: Result<(), Failure>,
) -> Result<(), Failure> {
    match early {
        Some(error) => Err(error),
        None => match forgotten {
            Err(error) => Err(error),
            Ok(_) => late,
        },
    }
}

/// A step while the user signs in.
pub open spec fn sign_in_next(launch: LaunchView, event: EventView) -> StepView {
    let plan = launch.plan;
    match (launch.stage, event) {
        (StageView::Detecting, EventView::Detected(found)) => match found {
            Err(error) => launch_fails(error),
            Ok(_) => launch_moves(plan, StageView::Credentials, seq![]),
        },
        (StageView::Credentials, EventView::Token(lookup)) => match lookup {
            Err(error) => launch_fails(error),
            Ok(Some(token)) => launch_moves(plan, StageView::Opening(token), seq![]),
            Ok(None) => launch_moves(plan, StageView::Prompting, sign_in_texts()),
        },
        (StageView::Prompting, EventView::Typed(typed)) => match typed {
            Err(error) => launch_fails(error),
            Ok(raw) => match typed_token(raw) {
                Err(error) => launch_fails(error),
                Ok(token) => launch_moves(plan, StageView::Authenticating(token), seq![]),
            },
        },
        (StageView::Authenticating(token), EventView::Authenticated(signed_in)) => match signed_in {
            Err(error) => launch_fails(error),
            Ok(_) => launch_moves(plan, StageView::Opening(token), seq![]),
        },
        (StageView::Opening(_), EventView::Opened(opened)) => match opened {
            Err(error) => launch_fails(error),
            Ok(_) => launch_moves(plan, StageView::ProbingPort, seq![]),
        },
        _ => launch_moves(plan, launch.stage, seq![]),
    }
}

/// A step while the local service is looked at.
pub open spec fn probe_next(launch: LaunchView, event: EventView) -> StepView {
    let plan = launch.plan;
    match (launch.stage, event) {
        (StageView::ProbingPort, EventView::Port(probe)) => match probe {
            ProbeView::TimedOut(causes) => launch_fails(
                Failure { kind: Fault::PortTimeout(plan.target.port), causes },
            ),
            ProbeView::Refused(causes) => launch_fails(
                Failure { kind: Fault::PortClosed(plan.target.port), causes },
            ),
            ProbeView::Open => match plan.options.protocol {
                Some(protocol) => to_zone(plan, protocol, seq![]),
                None => launch_moves(plan, StageView::ProbingHttps, seq![]),
            },
        },
        (StageView::ProbingHttps, EventView::Https(probe)) => match probe {
            Err(error) => launch_fails(error),
            Ok(answered) => if answered {
                to_zone(
                    plan,
                    LocalProtocol::Https,
                    if plan.options.insecure {
                        seq![ticked("检测到本地 HTTPS，已启用 noTLSVerify"@)]
                    } else {
                        seq![]
                    },
                )
            } else {
                launch_moves(plan, StageView::ProbingHttp, seq![])
            },
        },
        (StageView::ProbingHttp, EventView::Http(probe)) => match probe {
            Err(error) => launch_fails(error),
            Ok(_) => to_zone(plan, LocalProtocol::Http, seq![]),
        },
        _ => launch_moves(plan, launch.stage, seq![]),
    }
}

/// A step while the tunnel is set up.
pub open spec fn remote_next(launch: LaunchView, event: EventView, now: Timestamp) -> StepView {
    let plan = launch.plan;
    match (launch.stage, event) {
        (StageView::FindingZone(protocol), EventView::Zone(found)) => match found {
            Err(error) => launch_fails(error),
            Ok(zone) => launch_moves(
                plan,
                StageView::SettingUp(protocol, zone),
                seq![ticked("Zone: "@ + zone.name)],
            ),
        },
        (StageView::SettingUp(protocol, zone), EventView::Tunnel(ready)) => match ready {
            Err(error) => launch_fails(error),
            Ok(tunnel) => launch_moves(
                plan,
                StageView::Configuring(protocol, zone, tunnel),
                seq![ticked("隧道: "@ + tunnel.name + " (uuid: "@ + tunnel.id + ")"@)],
            ),
        },
        (StageView::Configuring(protocol, zone, tunnel), EventView::Configured(done)) => match done {
            Err(error) => launch_fails(error),
            Ok(_) => launch_moves(plan, StageView::Pointing(protocol, zone, tunnel), seq![]),
        },
        (StageView::Pointing(protocol, zone, tunnel), EventView::Dns(written)) => match written {
            Err(error) => launch_fails(error),
            Ok(dns) => launch_moves(
                plan,
                StageView::Spawning(new_record(plan, protocol, zone, tunnel, dns, now)),
                seq![
                    ticked("DNS: "@ + plan.target.domain + " → CNAME → "@ + dns_name(tunnel.id)),
                ],
            ),
        },
        _ => launch_moves(plan, launch.stage, seq![]),
    }
}

/// A step while `cloudflared` is started.
pub open spec fn start_next(launch: LaunchView, event: EventView, now: Timestamp) -> StepView {
    let plan = launch.plan;
    match (launch.stage, event) {
        (StageView::Spawning(record), EventView::SpawnedDetached(spawned)) => if plan.options.detach {
            match spawned {
                Err(error) => launch_fails(error),
                Ok(pid) => launch_moves(
                    plan,
                    StageView::RegisteringDetached(running_record(record, Some(pid), now), pid),
                    seq![],
                ),
            }
        } else {
            launch_moves(plan, launch.stage, seq![])
        },
        (StageView::Spawning(record), EventView::SpawnedForeground(spawned)) => if plan.options.detach {
            launch_moves(plan, launch.stage, seq![])
        } else {
            match spawned {
                Err(error) => launch_fails(error),
                Ok(pid) => launch_moves(
                    plan,
                    StageView::RegisteringForeground(running_record(record, pid, now)),
                    seq![],
                ),
            }
        },
        (StageView::RegisteringDetached(record, pid), EventView::Registered(done)) => match done {
            Err(error) => launch_fails(error),
            Ok(_) => StepView {
                notices: if plan.options.export {
                    lines_on(Stream::Output, export_texts(record))
                } else {
                    lines_on(Stream::Output, detached_texts(record, pid))
                },
                next: NextView::Finished(Ok(())),
            },
        },
        (StageView::RegisteringForeground(record), EventView::Registered(done)) => match done {
            Err(error) => launch_fails(error),
            Ok(_) => launch_moves(
                plan,
                StageView::Attaching(record),
                success_texts(record).push(in_faint("按 Ctrl+C 停止"@)),
            ),
        },
        (StageView::Attaching(record), EventView::Attached(done)) => match done {
            Err(error) => launch_fails(error),
            Ok(_) => launch_moves(plan, StageView::Waiting(record), seq![]),
        },
        _ => launch_moves(plan, launch.stage, seq![]),
    }
}

/// A step while the tunnel runs before the eyes of the user, or after that.
pub open spec fn session_next(launch: LaunchView, event: EventView) -> StepView {
    let plan = launch.plan;
    match (launch.stage, event) {
        (StageView::Waiting(record), EventView::Ended(end)) => match end {
            EndView::WaitFailed(error) => launch_fails(error),
            EndView::Exited(success, status) => launch_moves(
                plan,
                StageView::Draining(
                    record,
                    if success {
                        Ok(())
                    } else {
                        Err(failure(Fault::CloudflaredFailed(status)))
                    },
                ),
                seq![],
            ),
            EndView::Interrupted => launch_moves(plan, StageView::Killing(record), seq![]),
        },
        (StageView::Killing(record), EventView::Killed(done)) => match done {
            Err(error) => launch_moves(
                plan,
                StageView::Forgetting(record.domain, Some(error), Ok(())),
                seq![],
            ),
            Ok(_) => launch_moves(plan, StageView::Draining(record, Ok(())), seq![]),
        },
        (StageView::Draining(record, late), EventView::LogsJoined(done)) => launch_moves(
            plan,
            StageView::Forgetting(
                record.domain,
                match done {
                    Err(error) => Some(error),
                    Ok(_) => None,
                },
                late,
            ),
            seq![],
        ),
        (StageView::Forgetting(_, early, late), EventView::Forgotten(done)) => StepView {
            notices: Seq::empty(),
            next: NextView::Finished(session_result(early, done, late)),
        },
        _ => launch_moves(plan, launch.stage, seq![]),
    }
}

/// A part of a launch.
#[derive(Debug, Clone, Copy, PartialEq, Eq, Structural)]
pub enum Phase {
    SignIn,
    Probe,
    Remote,
    Start,
    Session,
}

impl StageView {
    /// The part of the launch that the stage belongs to.
    pub open spec fn phase(self) -> Phase {
        match self {
            StageView::Detecting => Phase::SignIn,
            StageView::Credentials => Phase::SignIn,
            StageView::Prompting => Phase::SignIn,
            StageView::Authenticating(_) => Phase::SignIn,
            StageView::Opening(_) => Phase::SignIn,
            StageView::ProbingPort => Phase::Probe,
            StageView::ProbingHttps => Phase::Probe,
            StageView::ProbingHttp => Phase::Probe,
            StageView::FindingZone(_) => Phase::Remote,
            StageView::SettingUp(_, _) => Phase::Remote,
            StageView::Configuring(_, _, _) => Phase::Remote,
            StageView::Pointing(_, _, _) => Phase::Remote,
            StageView::Spawning(_) => Phase::Start,
            StageView::RegisteringDetached(_, _) => Phase::Start,
            StageView::RegisteringForeground(_) => Phase::Start,
            StageView::Attaching(_) => Phase::Start,
            StageView::Waiting(_) => Phase::Session,
            StageView::Killing(_) => Phase::Session,
            StageView::Draining(_, _) => Phase::Session,
            StageView::Forgetting(_, _, _) => Phase::Session,
        }
    }
}

/// A step of a launch at `now`. What was not waited for changes nothing.
pub open spec fn launch_next(launch: LaunchView, event: EventView, now: Timestamp) -> StepView {
    match launch.stage.phase() {
        Phase::SignIn => sign_in_next(launch, event),
        Phase::Probe => probe_next(launch, event),
        Phase::Remote => remote_next(launch, event, now),
        Phase::Start => start_next(launch, event, now),
        Phase::Session => session_next(launch, event),
    }
}

} // verus!
