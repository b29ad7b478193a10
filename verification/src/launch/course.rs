//! The course of a launch: what it asks for, in which order, and what becomes of the answers.

use crate::api::{DnsView, TunnelView, ZoneView};
use crate::clock::Timestamp;
use crate::error::{Failure, Fault};
use crate::launch::data::{
    ActionView, EndView, EventView, LaunchView, NextView, OptionsView, PlanView, ProbeView,
    StageView,
};
use crate::launch::laws::{launch_awaits, launch_valid};
use crate::launch::model::{dns_name, launch_next, launch_wants, tunnel_name};
use crate::number::decimal;
use crate::output::{NoticeView, Stream};
use crate::shell::quoted;
use crate::style::{in_bold, in_cyan, in_faint, in_green, in_yellow};
use crate::text::trimmed;
use crate::types::{LocalProtocol, RecordView, TunnelStatus};
use vstd::prelude::*;
use vstd::string::*;

verus! {

/// What `launch` asks for after `event`, unless it is over.
pub open spec fn asks_after(launch: LaunchView, event: EventView, now: Timestamp) -> Option<
    ActionView,
> {
    match launch_next(launch, event, now).next {
        NextView::Continue(after) => Some(launch_wants(after)),
        NextView::Finished(_) => None,
    }
}

/// How `launch` ends with `event`, if it does.
pub open spec fn ends_with(launch: LaunchView, event: EventView, now: Timestamp) -> Option<
    Result<(), Failure>,
> {
    match launch_next(launch, event, now).next {
        NextView::Continue(_) => None,
        NextView::Finished(result) => Some(result),
    }
}

/// What the user is told after `event`.
pub open spec fn told_after(launch: LaunchView, event: EventView, now: Timestamp) -> Seq<
    NoticeView,
> {
    launch_next(launch, event, now).notices
}

/// The settings that are sent to the API carry what the user asked for: the hostname is the domain
/// of the target, the service is the local port under the protocol that was chosen or detected,
/// and certificates are not checked exactly where the user said so.
pub proof fn settings_carry_what_was_asked(
    launch: LaunchView,
    account_id: Seq<char>,
    tunnel_id: Seq<char>,
    hostname: Seq<char>,
    service: Seq<char>,
    insecure: bool,
)
    requires
        launch_wants(launch) == (ActionView::Configure {
            account_id,
            tunnel_id,
            hostname,
            service,
            insecure,
        }),
    ensures
        insecure == launch.plan.options.insecure,
        hostname == launch.plan.target.domain,
        launch.stage matches StageView::Configuring(protocol, zone, tunnel) && account_id
            == zone.account.id && tunnel_id == tunnel.id && service == (match protocol {
            LocalProtocol::Http => "http"@,
            LocalProtocol::Https => "https"@,
            LocalProtocol::Tcp => "tcp"@,
        }) + "://127.0.0.1:"@ + decimal(launch.plan.target.port as nat),
{
}

/// The option for bad certificates makes no other difference to what is asked of the API than the
/// one setting, and no difference at all to the rest of what a launch waits for.
pub proof fn insecure_changes_one_setting(launch: LaunchView, insecure: bool)
    ensures
        ({
            let other = LaunchView {
                plan: PlanView {
                    options: OptionsView { insecure, ..launch.plan.options },
                    ..launch.plan
                },
                ..launch
            };
            match launch_wants(launch) {
                ActionView::Configure { account_id, tunnel_id, hostname, service, insecure: _ } =>
                    launch_wants(other) == (ActionView::Configure {
                    account_id,
                    tunnel_id,
                    hostname,
                    service,
                    insecure,
                }),
                action => launch_wants(other) == action,
            }
        }),
{
}

/// What is asked for is asked for the target of the launch: its port is looked at, its domain is
/// looked up, named and taken out of the register again.
pub proof fn target_is_asked_for(launch: LaunchView)
    ensures
        launch_wants(launch) matches ActionView::ProbePort(port) ==> port
            == launch.plan.target.port,
        launch_wants(launch) matches ActionView::ProbeHttps(url) ==> url
            == "https://127.0.0.1:"@ + decimal(launch.plan.target.port as nat),
        launch_wants(launch) matches ActionView::ProbeHttp(url) ==> url == "http://127.0.0.1:"@
            + decimal(launch.plan.target.port as nat),
        launch_wants(launch) matches ActionView::ResolveZone(domain) ==> domain
            == launch.plan.target.domain,
        launch_wants(launch) matches ActionView::EnsureDns { hostname, .. } ==> hostname
            == launch.plan.target.domain,
{
    reveal_strlit("https");
    reveal_strlit("http");
    reveal_strlit("://127.0.0.1:");
    reveal_strlit("https://127.0.0.1:");
    reveal_strlit("http://127.0.0.1:");
    assert("https"@ + "://127.0.0.1:"@ =~= "https://127.0.0.1:"@);
    assert("http"@ + "://127.0.0.1:"@ =~= "http://127.0.0.1:"@);
}

/// The name of a tunnel is `punch-` and the domain, a dash in place of each character that is no
/// ASCII letter or digit, and of that the first 58 characters.
pub proof fn tunnel_name_spells_domain(domain: Seq<char>)
    ensures
        tunnel_name(domain).len() == (if domain.len() + 6 <= 58 {
            domain.len() + 6
        } else {
            58
        }),
        forall|i: int|
            0 <= i < 6 ==> #[trigger] tunnel_name(domain)[i] == "punch-"@[i],
        forall|i: int|
            6 <= i < tunnel_name(domain).len() ==> #[trigger] tunnel_name(domain)[i] == ({
                let c = domain[i - 6];
                if 'a' <= c <= 'z' || 'A' <= c <= 'Z' || '0' <= c <= '9' {
                    c
                } else {
                    '-'
                }
            }),
{
    reveal_strlit("punch-");
}

/// The name that a DNS record leads to is that of the tunnel under `cfargotunnel.com`.
pub proof fn dns_name_names_tunnel(tunnel_id: Seq<char>)
    ensures
        dns_name(tunnel_id).take(tunnel_id.len() as int) == tunnel_id,
        dns_name(tunnel_id).skip(tunnel_id.len() as int) == ".cfargotunnel.com"@,
{
    assert(dns_name(tunnel_id).take(tunnel_id.len() as int) =~= tunnel_id);
    assert(dns_name(tunnel_id).skip(tunnel_id.len() as int) =~= ".cfargotunnel.com"@);
}

/// The first steps: `cloudflared` is looked for, then a token; one that is there is used, and else
/// the user is asked for one, which is checked and kept before it is used.
pub proof fn a_token_comes_first(plan: PlanView, token: Seq<char>, raw: Seq<char>, now: Timestamp)
    ensures
        launch_wants(LaunchView { plan, stage: StageView::Detecting }) == ActionView::Detect,
        asks_after(
            LaunchView { plan, stage: StageView::Detecting },
            EventView::Detected(Ok(())),
            now,
        ) == Some(ActionView::LoadToken),
        asks_after(
            LaunchView { plan, stage: StageView::Credentials },
            EventView::Token(Ok(Some(token))),
            now,
        ) == Some(ActionView::Open(token)),
        asks_after(
            LaunchView { plan, stage: StageView::Credentials },
            EventView::Token(Ok(None)),
            now,
        ) == Some(
            ActionView::Prompt(
                if plan.options.export {
                    Stream::Errors
                } else {
                    Stream::Output
                },
            ),
        ),
        trimmed(raw).len() > 0 ==> asks_after(
            LaunchView { plan, stage: StageView::Prompting },
            EventView::Typed(Ok(raw)),
            now,
        ) == Some(
            ActionView::Authenticate(
                trimmed(raw),
                if plan.options.export {
                    Stream::Errors
                } else {
                    Stream::Output
                },
            ),
        ),
        asks_after(
            LaunchView { plan, stage: StageView::Authenticating(token) },
            EventView::Authenticated(Ok(())),
            now,
        ) == Some(ActionView::Open(token)),
        asks_after(
            LaunchView { plan, stage: StageView::Opening(token) },
            EventView::Opened(Ok(())),
            now,
        ) == Some(ActionView::ProbePort(plan.target.port)),
{
}

/// A blank token is refused.
pub proof fn blank_token_is_refused(plan: PlanView, raw: Seq<char>, now: Timestamp)
    requires
        trimmed(raw).len() == 0,
    ensures
        ends_with(
            LaunchView { plan, stage: StageView::Prompting },
            EventView::Typed(Ok(raw)),
            now,
        ) == Some(
            Err::<(), Failure>(Failure { kind: Fault::EmptyToken, causes: Seq::empty() }),
        ),
{
}

/// The protocol that the user chose is used without a look at the service; else the service is
/// asked over HTTPS first, and what does not answer there counts as HTTP.
pub proof fn protocol_is_chosen_or_detected(plan: PlanView, answered: bool, now: Timestamp)
    ensures
        ({
            let port = LaunchView { plan, stage: StageView::ProbingPort };
            let opened = launch_next(port, EventView::Port(ProbeView::Open), now).next;
            match plan.options.protocol {
                Some(protocol) => opened matches NextView::Continue(after) && after
                    == (LaunchView { plan, stage: StageView::FindingZone(protocol) }),
                None => opened matches NextView::Continue(after) && launch_wants(after)
                    is ProbeHttps,
            }
        }),
        ({
            let https = LaunchView { plan, stage: StageView::ProbingHttps };
            let asked = launch_next(https, EventView::Https(Ok(answered)), now).next;
            if answered {
                asked matches NextView::Continue(after) && after == (LaunchView {
                    plan,
                    stage: StageView::FindingZone(LocalProtocol::Https),
                })
            } else {
                asked matches NextView::Continue(after) && launch_wants(after) is ProbeHttp
            }
        }),
        ({
            let http = LaunchView { plan, stage: StageView::ProbingHttp };
            launch_next(http, EventView::Http(Ok(answered)), now).next matches NextView::Continue(
                after,
            ) && after == (LaunchView {
                plan,
                stage: StageView::FindingZone(LocalProtocol::Http),
            })
        }),
{
}

/// A port that does not answer, or on which nothing listens, is named in the error.
pub proof fn closed_port_is_named(plan: PlanView, causes: Seq<Seq<char>>, now: Timestamp)
    ensures
        ends_with(
            LaunchView { plan, stage: StageView::ProbingPort },
            EventView::Port(ProbeView::TimedOut(causes)),
            now,
        ) == Some(
            Err::<(), Failure>(Failure { kind: Fault::PortTimeout(plan.target.port), causes }),
        ),
        ends_with(
            LaunchView { plan, stage: StageView::ProbingPort },
            EventView::Port(ProbeView::Refused(causes)),
            now,
        ) == Some(
            Err::<(), Failure>(Failure { kind: Fault::PortClosed(plan.target.port), causes }),
        ),
{
}

/// The tunnel is set up in the account of the zone that was found, then its settings are written,
/// then the DNS record in that zone leads to it, and then `cloudflared` runs it with its token: in
/// a process group of its own, and with its log, exactly where it runs behind the scenes.
pub proof fn tunnel_is_set_up_in_order(
    plan: PlanView,
    protocol: LocalProtocol,
    zone: ZoneView,
    tunnel: TunnelView,
    dns: DnsView,
    now: Timestamp,
)
    ensures
        asks_after(
            LaunchView { plan, stage: StageView::FindingZone(protocol) },
            EventView::Zone(Ok(zone)),
            now,
        ) matches Some(ActionView::EnsureTunnel { account_id, name }) && account_id
            == zone.account.id && name == tunnel_name(plan.target.domain),
        asks_after(
            LaunchView { plan, stage: StageView::SettingUp(protocol, zone) },
            EventView::Tunnel(Ok(tunnel)),
            now,
        ) matches Some(
            ActionView::Configure { account_id, tunnel_id, hostname, service, insecure },
        ) && account_id == zone.account.id && tunnel_id == tunnel.id && hostname
            == plan.target.domain && insecure == plan.options.insecure && service == (
        match protocol {
            LocalProtocol::Http => "http"@,
            LocalProtocol::Https => "https"@,
            LocalProtocol::Tcp => "tcp"@,
        }) + "://127.0.0.1:"@ + decimal(plan.target.port as nat),
        asks_after(
            LaunchView { plan, stage: StageView::Configuring(protocol, zone, tunnel) },
            EventView::Configured(Ok(())),
            now,
        ) matches Some(ActionView::EnsureDns { zone_id, hostname, target }) && zone_id == zone.id
            && hostname == plan.target.domain && target == tunnel.id + ".cfargotunnel.com"@,
        ({
            let asked = asks_after(
                LaunchView { plan, stage: StageView::Pointing(protocol, zone, tunnel) },
                EventView::Dns(Ok(dns)),
                now,
            );
            if plan.options.detach {
                asked matches Some(ActionView::SpawnDetached(command, domain)) && domain
                    == plan.target.domain && command.own_group && command.arguments == seq![
                    "tunnel"@,
                    "--no-autoupdate"@,
                    "run"@,
                    "--token"@,
                    tunnel.token,
                ]
            } else {
                asked matches Some(ActionView::SpawnForeground(command)) && !command.own_group
                    && command.arguments == seq![
                    "tunnel"@,
                    "--no-autoupdate"@,
                    "run"@,
                    "--token"@,
                    tunnel.token,
                ]
            }
        }),
{
}

/// What is found out on the way is kept: a step that goes on keeps the protocol, the zone and the
/// tunnel.
pub proof fn findings_are_kept(launch: LaunchView, event: EventView, now: Timestamp)
    ensures
        launch_next(launch, event, now).next matches NextView::Continue(after) ==> {
            &&& launch.stage matches StageView::FindingZone(protocol) ==> (after.stage
                == launch.stage || (after.stage matches StageView::SettingUp(p, zone) && p
                == protocol && event == EventView::Zone(Ok(zone))))
            &&& launch.stage matches StageView::SettingUp(protocol, zone) ==> (after.stage
                == launch.stage || (after.stage matches StageView::Configuring(p, z, tunnel) && p
                == protocol && z == zone && event == EventView::Tunnel(Ok(tunnel))))
            &&& launch.stage matches StageView::Configuring(protocol, zone, tunnel) ==> (after.stage
                == launch.stage || (after.stage matches StageView::Pointing(p, z, t) && p
                == protocol && z == zone && t == tunnel))
        },
{
}

/// What is recorded of a tunnel: the target, what was found and set up for it, and how it runs.
pub proof fn record_holds_what_was_set_up(
    plan: PlanView,
    protocol: LocalProtocol,
    zone: ZoneView,
    tunnel: TunnelView,
    dns: DnsView,
    now: Timestamp,
)
    ensures
        launch_next(
            LaunchView { plan, stage: StageView::Pointing(protocol, zone, tunnel) },
            EventView::Dns(Ok(dns)),
            now,
        ).next matches NextView::Continue(after) && after.plan == plan && (
        after.stage matches StageView::Spawning(record) && {
            &&& record.domain == plan.target.domain
            &&& record.local_port == plan.target.port
            &&& record.local_protocol == protocol
            &&& record.zone_id == zone.id
            &&& record.zone_name == zone.name
            &&& record.account_id == zone.account.id
            &&& record.tunnel_id == tunnel.id
            &&& record.tunnel_name == tunnel.name
            &&& record.tunnel_token == tunnel.token
            &&& record.dns_record_id == Some(dns.id)
            &&& record.dns_target == tunnel.id + ".cfargotunnel.com"@
            &&& record.pid is None
            &&& record.detached == plan.options.detach
            &&& record.status == TunnelStatus::Unknown
            &&& record.log_file == plan.log_file
            &&& record.created_at == now
            &&& record.started_at is None
            &&& record.last_seen_at is None
            &&& record.share == plan.options.share
        }),
{
}

/// A tunnel that was started is registered as it was set up, with its process, as running, and
/// with the time at which it was started.
pub proof fn started_tunnel_is_registered(
    plan: PlanView,
    record: RecordView,
    pid: u32,
    child: Option<u32>,
    now: Timestamp,
)
    ensures
        plan.options.detach ==> asks_after(
            LaunchView { plan, stage: StageView::Spawning(record) },
            EventView::SpawnedDetached(Ok(pid)),
            now,
        ) == Some(
            ActionView::Register(
                RecordView {
                    pid: Some(pid),
                    status: TunnelStatus::Running,
                    started_at: Some(now),
                    last_seen_at: Some(now),
                    ..record
                },
            ),
        ),
        !plan.options.detach ==> asks_after(
            LaunchView { plan, stage: StageView::Spawning(record) },
            EventView::SpawnedForeground(Ok(child)),
            now,
        ) == Some(
            ActionView::Register(
                RecordView {
                    pid: child,
                    status: TunnelStatus::Running,
                    started_at: Some(now),
                    last_seen_at: Some(now),
                    ..record
                },
            ),
        ),
{
}

/// When it is registered, a tunnel that runs behind the scenes is done with. One that runs in the
/// foreground is attached to its log and waited for; an interruption ends it, its logs are read to
/// the end, and it is taken out of the register.
pub proof fn session_takes_its_course(
    plan: PlanView,
    record: RecordView,
    pid: u32,
    success: bool,
    status: Seq<char>,
    late: Result<(), Failure>,
    joined: Result<(), Failure>,
    killed: Failure,
    now: Timestamp,
)
    ensures
        ends_with(
            LaunchView { plan, stage: StageView::RegisteringDetached(record, pid) },
            EventView::Registered(Ok(())),
            now,
        ) matches Some(Ok(_)),
        asks_after(
            LaunchView { plan, stage: StageView::RegisteringForeground(record) },
            EventView::Registered(Ok(())),
            now,
        ) == Some(ActionView::Attach(record.log_file)),
        asks_after(
            LaunchView { plan, stage: StageView::Attaching(record) },
            EventView::Attached(Ok(())),
            now,
        ) == Some(ActionView::Wait),
        asks_after(
            LaunchView { plan, stage: StageView::Waiting(record) },
            EventView::Ended(EndView::Interrupted),
            now,
        ) == Some(ActionView::Kill),
        asks_after(
            LaunchView { plan, stage: StageView::Waiting(record) },
            EventView::Ended(EndView::Exited(success, status)),
            now,
        ) == Some(ActionView::JoinLogs),
        asks_after(
            LaunchView { plan, stage: StageView::Killing(record) },
            EventView::Killed(Ok(())),
            now,
        ) == Some(ActionView::JoinLogs),
        asks_after(
            LaunchView { plan, stage: StageView::Killing(record) },
            EventView::Killed(Err(killed)),
            now,
        ) == Some(ActionView::Forget(record.domain)),
        asks_after(
            LaunchView { plan, stage: StageView::Draining(record, late) },
            EventView::LogsJoined(joined),
            now,
        ) == Some(ActionView::Forget(record.domain)),
{
}

/// How a session in the foreground ends: well after an interruption or a good end of
/// `cloudflared`, with the status of a bad end, and with the first thing that went wrong while it
/// was wound up.
pub proof fn session_ends_as_cloudflared_did(
    plan: PlanView,
    record: RecordView,
    success: bool,
    status: Seq<char>,
    joined: Result<(), Failure>,
    forgotten: Result<(), Failure>,
    now: Timestamp,
)
    ensures
        ({
            let waiting = LaunchView { plan, stage: StageView::Waiting(record) };
            let exited = launch_next(
                waiting,
                EventView::Ended(EndView::Exited(success, status)),
                now,
            ).next;
            exited matches NextView::Continue(draining) && (launch_next(
                draining,
                EventView::LogsJoined(joined),
                now,
            ).next matches NextView::Continue(forgetting) && (launch_next(
                forgetting,
                EventView::Forgotten(forgotten),
                now,
            ).next matches NextView::Finished(result) && match (joined, forgotten) {
                (Err(error), _) => result == Err::<(), Failure>(error),
                (Ok(_), Err(error)) => result == Err::<(), Failure>(error),
                (Ok(_), Ok(_)) => if success {
                    result is Ok
                } else {
                    result == Err::<(), Failure>(
                        Failure { kind: Fault::CloudflaredFailed(status), causes: Seq::empty() },
                    )
                },
            }))
        }),
        ({
            let killing = LaunchView { plan, stage: StageView::Killing(record) };
            let killed = launch_next(killing, EventView::Killed(Ok(())), now).next;
            killed matches NextView::Continue(draining) && (launch_next(
                draining,
                EventView::LogsJoined(joined),
                now,
            ).next matches NextView::Continue(forgetting) && (launch_next(
                forgetting,
                EventView::Forgotten(forgotten),
                now,
            ).next matches NextView::Finished(result) && match (joined, forgotten) {
                (Err(error), _) => result == Err::<(), Failure>(error),
                (Ok(_), Err(error)) => result == Err::<(), Failure>(error),
                (Ok(_), Ok(_)) => result is Ok,
            }))
        }),
{
}

/// A session whose `cloudflared` could not be killed, or could not be waited for, ends with that.
pub proof fn session_tells_what_failed(
    plan: PlanView,
    record: RecordView,
    error: Failure,
    forgotten: Result<(), Failure>,
    now: Timestamp,
)
    ensures
        launch_next(
            LaunchView { plan, stage: StageView::Killing(record) },
            EventView::Killed(Err(error)),
            now,
        ).next matches NextView::Continue(forgetting) && ends_with(
            forgetting,
            EventView::Forgotten(forgotten),
            now,
        ) == Some(Err::<(), Failure>(error)),
        ends_with(
            LaunchView { plan, stage: StageView::Waiting(record) },
            EventView::Ended(EndView::WaitFailed(error)),
            now,
        ) == Some(Err::<(), Failure>(error)),
{
}

/// `event` says that what was asked for went wrong with `error`.
pub open spec fn went_wrong(event: EventView, error: Failure) -> bool {
    match event {
        EventView::Detected(done) => done matches Err(e) && e == error,
        EventView::Token(done) => done matches Err(e) && e == error,
        EventView::Typed(done) => done matches Err(e) && e == error,
        EventView::Authenticated(done) => done matches Err(e) && e == error,
        EventView::Opened(done) => done matches Err(e) && e == error,
        EventView::Https(done) => done matches Err(e) && e == error,
        EventView::Http(done) => done matches Err(e) && e == error,
        EventView::Zone(done) => done matches Err(e) && e == error,
        EventView::Tunnel(done) => done matches Err(e) && e == error,
        EventView::Configured(done) => done matches Err(e) && e == error,
        EventView::Dns(done) => done matches Err(e) && e == error,
        EventView::SpawnedDetached(done) => done matches Err(e) && e == error,
        EventView::SpawnedForeground(done) => done matches Err(e) && e == error,
        EventView::Registered(done) => done matches Err(e) && e == error,
        EventView::Attached(done) => done matches Err(e) && e == error,
        _ => false,
    }
}

/// The first thing that goes wrong before the session ends the launch, with its own error, and
/// nothing more is told.
pub proof fn first_error_ends_launch(
    launch: LaunchView,
    event: EventView,
    error: Failure,
    now: Timestamp,
)
    requires
        launch_awaits(launch, event),
        went_wrong(event, error),
    ensures
        ends_with(launch, event, now) == Some(Err::<(), Failure>(error)),
        told_after(launch, event, now).len() == 0,
{
}

/// `notices` are the lines `texts`, all of them on `stream`.
pub open spec fn says(notices: Seq<NoticeView>, stream: Stream, texts: Seq<Seq<char>>) -> bool {
    &&& notices.len() == texts.len()
    &&& forall|i: int|
        0 <= i < texts.len() ==> (#[trigger] notices[i]).stream == stream && notices[i].text
            == texts[i]
}

/// Where the user is told of the progress: on the standard error where a shell reads the address
/// from the standard output, and else on the standard output.
pub open spec fn progress_stream(plan: PlanView) -> Stream {
    if plan.options.export {
        Stream::Errors
    } else {
        Stream::Output
    }
}

/// The user is told of the zone, of the tunnel and of the DNS record as they are set up.
pub proof fn progress_is_told(
    plan: PlanView,
    protocol: LocalProtocol,
    zone: ZoneView,
    tunnel: TunnelView,
    dns: DnsView,
    now: Timestamp,
)
    ensures
        says(
            told_after(
                LaunchView { plan, stage: StageView::FindingZone(protocol) },
                EventView::Zone(Ok(zone)),
                now,
            ),
            progress_stream(plan),
            seq![in_green("✓"@) + " "@ + ("Zone: "@ + zone.name)],
        ),
        says(
            told_after(
                LaunchView { plan, stage: StageView::SettingUp(protocol, zone) },
                EventView::Tunnel(Ok(tunnel)),
                now,
            ),
            progress_stream(plan),
            seq![
                in_green("✓"@) + " "@ + ("隧道: "@ + tunnel.name + " (uuid: "@ + tunnel.id + ")"@),
            ],
        ),
        says(
            told_after(
                LaunchView { plan, stage: StageView::Pointing(protocol, zone, tunnel) },
                EventView::Dns(Ok(dns)),
                now,
            ),
            progress_stream(plan),
            seq![
                in_green("✓"@) + " "@ + ("DNS: "@ + plan.target.domain + " → CNAME → "@ + (tunnel.id
                    + ".cfargotunnel.com"@)),
            ],
        ),
{
}

/// The user who has to sign in is told how. Before the zone is looked for it is said that the
/// launch goes on, and that certificates are not checked where HTTPS was detected and the user
/// wants that.
pub proof fn probing_is_told(
    plan: PlanView,
    protocol: LocalProtocol,
    answered: bool,
    now: Timestamp,
)
    ensures
        says(
            told_after(
                LaunchView { plan, stage: StageView::Credentials },
                EventView::Token(Ok(None)),
                now,
            ),
            progress_stream(plan),
            seq![
                in_yellow("⚠ 未找到凭证，需要登录 Cloudflare"@),
                "步骤 1: 访问 https://dash.cloudflare.com/profile/api-tokens"@,
                "步骤 2: 创建令牌，权限: Zone:Read, DNS:Edit, Cloudflare Tunnel:Edit"@,
                "步骤 3: 粘贴令牌（输入已隐藏）:"@,
            ],
        ),
        plan.options.protocol == Some(protocol) ==> says(
            told_after(
                LaunchView { plan, stage: StageView::ProbingPort },
                EventView::Port(ProbeView::Open),
                now,
            ),
            progress_stream(plan),
            seq![in_cyan("→"@) + " "@ + "继续创建隧道..."@],
        ),
        says(
            told_after(
                LaunchView { plan, stage: StageView::ProbingHttps },
                EventView::Https(Ok(true)),
                now,
            ),
            progress_stream(plan),
            if plan.options.insecure {
                seq![
                    in_green("✓"@) + " "@ + "检测到本地 HTTPS，已启用 noTLSVerify"@,
                    in_cyan("→"@) + " "@ + "继续创建隧道..."@,
                ]
            } else {
                seq![in_cyan("→"@) + " "@ + "继续创建隧道..."@]
            },
        ),
        says(
            told_after(
                LaunchView { plan, stage: StageView::ProbingHttp },
                EventView::Http(Ok(answered)),
                now,
            ),
            progress_stream(plan),
            seq![in_cyan("→"@) + " "@ + "继续创建隧道..."@],
        ),
{
}

/// The user of a tunnel that runs is told its address, the local port and the log; of one that
/// runs behind the scenes also the process, and what is missing where it is shared; of one in the
/// foreground also how to stop it. A shell is told three variables instead.
pub proof fn success_is_told(plan: PlanView, record: RecordView, pid: u32, now: Timestamp)
    ensures
        ({
            let told = told_after(
                LaunchView { plan, stage: StageView::RegisteringDetached(record, pid) },
                EventView::Registered(Ok(())),
                now,
            );
            let lines = seq![
                ""@,
                in_green("➜"@) + " 服务上线: "@ + in_bold("https://"@ + record.domain),
                "  本地映射: localhost:"@ + decimal(record.local_port as nat),
                "  日志文件: "@ + record.log_file,
                ""@,
                in_green("✓"@) + " "@ + ("后台运行中，PID: "@ + decimal(pid as nat)),
                in_green("✓"@) + " "@ + ("日志文件: "@ + record.log_file),
            ];
            if plan.options.export {
                says(
                    told,
                    Stream::Output,
                    seq![
                        "export PUNCH_URL="@ + quoted("https://"@ + record.domain),
                        "export PUNCH_DOMAIN="@ + quoted(record.domain),
                        "export PUNCH_PORT="@ + quoted(decimal(record.local_port as nat)),
                    ],
                )
            } else if record.share is Some {
                says(
                    told,
                    Stream::Output,
                    lines.push(
                        in_yellow("⚠"@) + " "@
                            + "分享元数据已记录，但密码保护仍需后续接入 Cloudflare Access API"@,
                    ),
                )
            } else {
                says(told, Stream::Output, lines)
            }
        }),
        says(
            told_after(
                LaunchView { plan, stage: StageView::RegisteringForeground(record) },
                EventView::Registered(Ok(())),
                now,
            ),
            progress_stream(plan),
            seq![
                ""@,
                in_green("➜"@) + " 服务上线: "@ + in_bold("https://"@ + record.domain),
                "  本地映射: localhost:"@ + decimal(record.local_port as nat),
                "  日志文件: "@ + record.log_file,
                ""@,
                in_faint("按 Ctrl+C 停止"@),
            ],
        ),
{
}

/// No other step tells the user anything.
pub proof fn other_steps_are_silent(launch: LaunchView, event: EventView, now: Timestamp)
    requires
        match launch.stage {
            StageView::Credentials => event !is Token,
            StageView::ProbingPort => event !is Port || launch.plan.options.protocol is None,
            StageView::ProbingHttps => event != EventView::Https(Ok(true)),
            StageView::ProbingHttp => event !is Http,
            StageView::FindingZone(_) => event !is Zone,
            StageView::SettingUp(_, _) => event !is Tunnel,
            StageView::Pointing(_, _, _) => event !is Dns,
            StageView::RegisteringDetached(_, _) => event !is Registered,
            StageView::RegisteringForeground(_) => event !is Registered,
            _ => true,
        },
    ensures
        told_after(launch, event, now).len() == 0,
{
}

/// A launch behind the scenes ends well only when its tunnel was registered: as running, for the
/// target, and with the process that was started.
pub proof fn launch_that_ends_well_is_registered(
    launch: LaunchView,
    event: EventView,
    now: Timestamp,
)
    requires
        launch_valid(launch),
        launch.plan.options.detach,
        ends_with(launch, event, now) matches Some(Ok(_)),
    ensures
        launch_wants(launch) matches ActionView::Register(record) && record.domain
            == launch.plan.target.domain && record.local_port == launch.plan.target.port
            && record.detached && record.status == TunnelStatus::Running && record.pid is Some
            && record.started_at is Some && record.log_file == launch.plan.log_file
            && record.share == launch.plan.options.share,
        event matches EventView::Registered(Ok(_)),
{
}

/// A launch in the foreground ends well only when its tunnel was taken out of the register again.
pub proof fn session_that_ends_well_is_forgotten(
    launch: LaunchView,
    event: EventView,
    now: Timestamp,
)
    requires
        launch_valid(launch),
        !launch.plan.options.detach,
        ends_with(launch, event, now) matches Some(Ok(_)),
    ensures
        launch_wants(launch) == ActionView::Forget(launch.plan.target.domain),
        event matches EventView::Forgotten(Ok(_)),
{
}

} // verus!
