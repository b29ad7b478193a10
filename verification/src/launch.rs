//! Bringing a local service online, step by step.

pub mod course;
pub mod data;
pub mod laws;
pub mod model;

use crate::api::{DnsRecord, TunnelDetails, Zone};
use crate::auth::{prompt_token, shows_path};
use crate::clock::Timestamp;
use crate::cloudflared::run_tunnel;
use crate::error::{ErrorKind, PunchError};
pub use crate::launch::data::{
    ActionView, EndView, EventView, Launch, LaunchAction, LaunchEvent, LaunchNext, LaunchOptions,
    LaunchPlan, LaunchStage, LaunchStep, LaunchView, NextView, OptionsView, PlanView, PortProbe,
    ProbeView, SessionEnd, StageView, StepView,
};
use crate::launch::model::{
    detached_texts, export_texts, launch_fails, launch_moves, launch_next, launch_wants,
    new_record, probe_next, remote_next, running_record, session_next, sign_in_next, sign_in_texts,
    start_next, success_texts, to_zone, tunnel_name, NAME_LIMIT, Phase,
};
use crate::number::show;
use crate::output::{no_texts, notices, one_text, point, pointed, silence, tick, warn, Stream};
use crate::shell::shell_quote;
use crate::storage::{path_parts, show_path, PunchDirs};
use crate::style::{bold, dimmed, green, in_faint, yellow};
use crate::text::{chars_of, concat2, concat3, concat4, dash, text_of};
use crate::types::{target_of, LocalProtocol, TunnelRecord, TunnelStatus, TunnelTarget};
use vstd::prelude::*;
use vstd::string::*;

verus! {

/// The name of the tunnel for `domain`.
pub fn tunnel_name_for(domain: &str) -> (name: String)
    ensures
        name@ == tunnel_name(domain@),
{
    let safe = dash(domain);
    let name = concat2("punch-", safe.as_str());
    let chars = chars_of(name.as_str());
    if chars.len() > NAME_LIMIT {
        let short = text_of(&chars, 0, NAME_LIMIT);
        proof {
            assert(short@ =~= name@.take(NAME_LIMIT as int));
        }
        short
    } else {
        name
    }
}

/// What the user is told who has to sign in.
fn sign_in_help() -> (texts: Vec<String>)
    ensures
        texts.deep_view() == sign_in_texts(),
{
    let mut texts: Vec<String> = Vec::new();
    texts.push(yellow("⚠ 未找到凭证，需要登录 Cloudflare"));
    texts.push("步骤 1: 访问 https://dash.cloudflare.com/profile/api-tokens".to_owned());
    texts.push(
        "步骤 2: 创建令牌，权限: Zone:Read, DNS:Edit, Cloudflare Tunnel:Edit".to_owned(),
    );
    texts.push("步骤 3: 粘贴令牌（输入已隐藏）:".to_owned());
    proof {
        assert(texts.deep_view() =~= sign_in_texts());
    }
    texts
}

/// What the user is told when the tunnel runs.
pub fn print_launch_success(record: &TunnelRecord) -> (texts: Vec<String>)
    ensures
        texts.deep_view() == success_texts(record@),
{
    let mut texts: Vec<String> = Vec::new();
    texts.push("".to_owned());
    texts.push(
        concat3(
            green("➜").as_str(),
            " 服务上线: ",
            bold(record.public_url().as_str()).as_str(),
        ),
    );
    texts.push(concat2("  本地映射: localhost:", show(record.local_port as u64).as_str()));
    texts.push(concat2("  日志文件: ", record.log_file.as_str()));
    texts.push("".to_owned());
    proof {
        assert(texts.deep_view() =~= success_texts(record@));
    }
    texts
}

/// What the user is told when the tunnel runs behind the scenes.
fn detached_success(record: &TunnelRecord, pid: u32) -> (texts: Vec<String>)
    ensures
        texts.deep_view() == detached_texts(record@, pid),
{
    let mut texts = print_launch_success(record);
    texts.push(tick(concat2("后台运行中，PID: ", show(pid as u64).as_str()).as_str()));
    texts.push(tick(concat2("日志文件: ", record.log_file.as_str()).as_str()));
    if record.share.is_some() {
        texts.push(
            warn("分享元数据已记录，但密码保护仍需后续接入 Cloudflare Access API"),
        );
    }
    proof {
        assert(texts.deep_view() =~= detached_texts(record@, pid));
    }
    texts
}

/// What a shell reads of a tunnel.
fn exports(record: &TunnelRecord) -> (texts: Vec<String>)
    ensures
        texts.deep_view() == export_texts(record@),
{
    let mut texts: Vec<String> = Vec::new();
    texts.push(
        concat2("export PUNCH_URL=", shell_quote(record.public_url().as_str()).as_str()),
    );
    texts.push(concat2("export PUNCH_DOMAIN=", shell_quote(record.domain.as_str()).as_str()));
    texts.push(
        concat2(
            "export PUNCH_PORT=",
            shell_quote(show(record.local_port as u64).as_str()).as_str(),
        ),
    );
    proof {
        assert(texts.deep_view() =~= export_texts(record@));
    }
    texts
}

impl LaunchPlan {
    /// Where the user is told of the progress.
    fn stream(&self) -> (stream: Stream)
        ensures
            stream == self@.stream(),
    {
        if self.options.export {
            Stream::Errors
        } else {
            Stream::Output
        }
    }

    /// Goes on with `stage`, after the user was told `texts`.
    fn moved(self, stage: LaunchStage, texts: Vec<String>) -> (step: LaunchStep)
        ensures
            step@ == launch_moves(self@, stage@, texts.deep_view()),
    {
        let stream = self.stream();
        LaunchStep {
            notices: notices(stream, texts),
            next: LaunchNext::Continue(Launch { plan: self, stage }),
        }
    }

    /// Goes on with `stage`.
    fn quietly(self, stage: LaunchStage) -> (step: LaunchStep)
        ensures
            step@ == launch_moves(self@, stage@, seq![]),
    {
        self.moved(stage, no_texts())
    }

    /// Goes on with the search for the zone.
    fn to_zone(self, protocol: LocalProtocol, told: Vec<String>) -> (step: LaunchStep)
        ensures
            step@ == to_zone(self@, protocol, told.deep_view()),
    {
        let mut texts = told;
        texts.push(point("继续创建隧道..."));
        proof {
            assert(texts.deep_view() =~= told.deep_view().push(pointed("继续创建隧道..."@)));
        }
        self.moved(LaunchStage::FindingZone(protocol), texts)
    }

    /// What is recorded of the tunnel before it runs.
    fn record(
        &self,
        protocol: LocalProtocol,
        zone: Zone,
        tunnel: TunnelDetails,
        dns: DnsRecord,
        now: Timestamp,
    ) -> (record: TunnelRecord)
        ensures
            record@ == new_record(self@, protocol, zone@, tunnel@, dns@, now),
    {
        TunnelRecord {
            domain: self.target.domain.clone(),
            local_port: self.target.port,
            local_protocol: protocol,
            zone_id: zone.id,
            zone_name: zone.name,
            account_id: zone.account.id,
            dns_target: concat2(tunnel.id.as_str(), ".cfargotunnel.com"),
            tunnel_id: tunnel.id,
            tunnel_name: tunnel.name,
            tunnel_token: tunnel.token,
            dns_record_id: Some(dns.id),
            pid: None,
            detached: self.options.detach,
            status: TunnelStatus::Unknown,
            log_file: self.log_file.clone(),
            created_at: now,
            started_at: None,
            last_seen_at: None,
            share: match &self.options.share {
                Some(terms) => Some(terms.clone()),
                None => None,
            },
        }
    }
}

/// Marks `record` as running.
fn mark_running(record: &mut TunnelRecord, pid: Option<u32>, now: Timestamp)
    ensures
        final(record)@ == running_record(old(record)@, pid, now),
{
    record.pid = pid;
    record.status = TunnelStatus::Running;
    record.started_at = Some(now);
    record.last_seen_at = Some(now);
}

impl LaunchStep {
    /// The launch ends with `error`.
    fn failed(error: PunchError) -> (step: LaunchStep)
        ensures
            step@ == launch_fails(error@),
    {
        LaunchStep { notices: silence(), next: LaunchNext::Finished(Err(error)) }
    }
}

impl Launch {
    /// The launch of `target`, with its log in `dirs`.
    pub fn begin(dirs: &PunchDirs, target: &str, options: LaunchOptions) -> (launch: Result<
        Launch,
        PunchError,
    >)
        ensures
            match target_of(target@) {
                Ok(wanted) => launch matches Ok(l) && l@ == (LaunchView {
                    plan: PlanView { target: wanted, options: options@, log_file: l@.plan.log_file },
                    stage: StageView::Detecting,
                }) && shows_path(l@.plan.log_file, dirs.log_entry(wanted.domain)),
                Err(error) => launch matches Err(e) && e@ == error,
            },
    {
        match TunnelTarget::parse(target) {
            Err(error) => Err(error),
            Ok(target) => {
                let file = dirs.log_file_for(target.domain.as_str());
                let log_file = show_path(&file);
                proof {
                    assert(path_parts(file) == dirs.log_entry(target@.domain));
                }
                Ok(
                    Launch {
                        plan: LaunchPlan { target, options, log_file },
                        stage: LaunchStage::Detecting,
                    },
                )
            },
        }
    }

    /// What the launch waits for.
    pub fn wants(&self) -> (action: LaunchAction)
        ensures
            action@ == launch_wants(self@),
            action@ matches ActionView::Configure { hostname, insecure, .. } ==> insecure
                == self.plan.options.insecure && hostname == self.plan.target.domain@,
            action@ matches ActionView::Register(record) ==> match self.stage {
                LaunchStage::RegisteringDetached(r, _) => record == r@,
                LaunchStage::RegisteringForeground(r) => record == r@,
                _ => false,
            },
    {
        let plan = &self.plan;
        match &self.stage {
            LaunchStage::Detecting => LaunchAction::Detect,
            LaunchStage::Credentials => LaunchAction::LoadToken,
            LaunchStage::Prompting => LaunchAction::Prompt(plan.stream()),
            LaunchStage::Authenticating(token) => LaunchAction::Authenticate(
                token.clone(),
                plan.stream(),
            ),
            LaunchStage::Opening(token) => LaunchAction::Open(token.clone()),
            LaunchStage::ProbingPort => LaunchAction::ProbePort(plan.target.port),
            LaunchStage::ProbingHttps => LaunchAction::ProbeHttps(
                LocalProtocol::Https.service_url(plan.target.port),
            ),
            LaunchStage::ProbingHttp => LaunchAction::ProbeHttp(
                LocalProtocol::Http.service_url(plan.target.port),
            ),
            LaunchStage::FindingZone(_) => LaunchAction::ResolveZone(plan.target.domain.clone()),
            LaunchStage::SettingUp(_, zone) => LaunchAction::EnsureTunnel {
                account_id: zone.account.id.clone(),
                name: tunnel_name_for(plan.target.domain.as_str()),
            },
            LaunchStage::Configuring(protocol, zone, tunnel) => LaunchAction::Configure {
                account_id: zone.account.id.clone(),
                tunnel_id: tunnel.id.clone(),
                hostname: plan.target.domain.clone(),
                service: protocol.service_url(plan.target.port),
                insecure: plan.options.insecure,
            },
            LaunchStage::Pointing(_, zone, tunnel) => LaunchAction::EnsureDns {
                zone_id: zone.id.clone(),
                hostname: plan.target.domain.clone(),
                target: concat2(tunnel.id.as_str(), ".cfargotunnel.com"),
            },
            LaunchStage::Spawning(record) => {
                let command = run_tunnel(record.tunnel_token.as_str(), plan.options.detach);
                if plan.options.detach {
                    LaunchAction::SpawnDetached(command, record.domain.clone())
                } else {
                    LaunchAction::SpawnForeground(command)
                }
            },
            LaunchStage::RegisteringDetached(record, _) => LaunchAction::Register(record.clone()),
            LaunchStage::RegisteringForeground(record) => LaunchAction::Register(record.clone()),
            LaunchStage::Attaching(record) => LaunchAction::Attach(record.log_file.clone()),
            LaunchStage::Waiting(_) => LaunchAction::Wait,
            LaunchStage::Killing(_) => LaunchAction::Kill,
            LaunchStage::Draining(_, _) => LaunchAction::JoinLogs,
            LaunchStage::Forgetting(domain, _, _) => LaunchAction::Forget(domain.clone()),
        }
    }

    /// The part of the launch that it has come to.
    fn phase(&self) -> (phase: Phase)
        ensures
            phase == self@.stage.phase(),
    {
        match &self.stage {
            LaunchStage::Detecting => Phase::SignIn,
            LaunchStage::Credentials => Phase::SignIn,
            LaunchStage::Prompting => Phase::SignIn,
            LaunchStage::Authenticating(_) => Phase::SignIn,
            LaunchStage::Opening(_) => Phase::SignIn,
            LaunchStage::ProbingPort => Phase::Probe,
            LaunchStage::ProbingHttps => Phase::Probe,
            LaunchStage::ProbingHttp => Phase::Probe,
            LaunchStage::FindingZone(_) => Phase::Remote,
            LaunchStage::SettingUp(_, _) => Phase::Remote,
            LaunchStage::Configuring(_, _, _) => Phase::Remote,
            LaunchStage::Pointing(_, _, _) => Phase::Remote,
            LaunchStage::Spawning(_) => Phase::Start,
            LaunchStage::RegisteringDetached(_, _) => Phase::Start,
            LaunchStage::RegisteringForeground(_) => Phase::Start,
            LaunchStage::Attaching(_) => Phase::Start,
            LaunchStage::Waiting(_) => Phase::Session,
            LaunchStage::Killing(_) => Phase::Session,
            LaunchStage::Draining(_, _) => Phase::Session,
            LaunchStage::Forgetting(_, _, _) => Phase::Session,
        }
    }

    /// A step while the user signs in.
    fn sign_in(self, event: LaunchEvent) -> (step: LaunchStep)
        ensures
            step@ == sign_in_next(self@, event@),
    {
        let Launch { plan, stage } = self;
        match (stage, event) {
            (LaunchStage::Detecting, LaunchEvent::Detected(found)) => match found {
                Err(error) => LaunchStep::failed(error),
                Ok(_) => plan.quietly(LaunchStage::Credentials),
            },
            (LaunchStage::Credentials, LaunchEvent::Token(lookup)) => match lookup {
                Err(error) => LaunchStep::failed(error),
                Ok(Some(token)) => plan.quietly(LaunchStage::Opening(token)),
                Ok(None) => plan.moved(LaunchStage::Prompting, sign_in_help()),
            },
            (LaunchStage::Prompting, LaunchEvent::Typed(typed)) => match typed {
                Err(error) => LaunchStep::failed(error),
                Ok(raw) => match prompt_token(raw.as_str()) {
                    Err(error) => LaunchStep::failed(error),
                    Ok(token) => plan.quietly(LaunchStage::Authenticating(token)),
                },
            },
            (
                LaunchStage::Authenticating(token),
                LaunchEvent::Authenticated(signed_in),
            ) => match signed_in {
                Err(error) => LaunchStep::failed(error),
                Ok(_) => plan.quietly(LaunchStage::Opening(token)),
            },
            (LaunchStage::Opening(_), LaunchEvent::Opened(opened)) => match opened {
                Err(error) => LaunchStep::failed(error),
                Ok(_) => plan.quietly(LaunchStage::ProbingPort),
            },
            (stage, _) => plan.quietly(stage),
        }
    }

    /// A step while the local service is looked at.
    fn probe(self, event: LaunchEvent) -> (step: LaunchStep)
        ensures
            step@ == probe_next(self@, event@),
    {
        let Launch { plan, stage } = self;
        match (stage, event) {
            (LaunchStage::ProbingPort, LaunchEvent::Port(probe)) => match probe {
                PortProbe::TimedOut(causes) => LaunchStep::failed(
                    PunchError { kind: ErrorKind::PortTimeout(plan.target.port), causes },
                ),
                PortProbe::Refused(causes) => LaunchStep::failed(
                    PunchError { kind: ErrorKind::PortClosed(plan.target.port), causes },
                ),
                PortProbe::Open => match plan.options.protocol {
                    Some(protocol) => plan.to_zone(protocol, no_texts()),
                    None => plan.quietly(LaunchStage::ProbingHttps),
                },
            },
            (LaunchStage::ProbingHttps, LaunchEvent::Https(probe)) => match probe {
                Err(error) => LaunchStep::failed(error),
                Ok(answered) => if answered {
                    let told = if plan.options.insecure {
                        one_text(tick("检测到本地 HTTPS，已启用 noTLSVerify"))
                    } else {
                        no_texts()
                    };
                    plan.to_zone(LocalProtocol::Https, told)
                } else {
                    plan.quietly(LaunchStage::ProbingHttp)
                },
            },
            (LaunchStage::ProbingHttp, LaunchEvent::Http(probe)) => match probe {
                Err(error) => LaunchStep::failed(error),
                Ok(_) => plan.to_zone(LocalProtocol::Http, no_texts()),
            },
            (stage, _) => plan.quietly(stage),
        }
    }

    /// A step while the tunnel is set up.
    fn set_up(self, event: LaunchEvent, now: Timestamp) -> (step: LaunchStep)
        ensures
            step@ == remote_next(self@, event@, now),
    {
        let Launch { plan, stage } = self;
        match (stage, event) {
            (LaunchStage::FindingZone(protocol), LaunchEvent::Zone(found)) => match found {
                Err(error) => LaunchStep::failed(error),
                Ok(zone) => {
                    let told = one_text(tick(concat2("Zone: ", zone.name.as_str()).as_str()));
                    plan.moved(LaunchStage::SettingUp(protocol, zone), told)
                },
            },
            (LaunchStage::SettingUp(protocol, zone), LaunchEvent::Tunnel(ready)) => match ready {
                Err(error) => LaunchStep::failed(error),
                Ok(tunnel) => {
                    let text = concat4(
                        "隧道: ",
                        tunnel.name.as_str(),
                        " (uuid: ",
                        tunnel.id.as_str(),
                    ).concat(")");
                    let told = one_text(tick(text.as_str()));
                    plan.moved(LaunchStage::Configuring(protocol, zone, tunnel), told)
                },
            },
            (
                LaunchStage::Configuring(protocol, zone, tunnel),
                LaunchEvent::Configured(done),
            ) => match done {
                Err(error) => LaunchStep::failed(error),
                Ok(_) => plan.quietly(LaunchStage::Pointing(protocol, zone, tunnel)),
            },
            (
                LaunchStage::Pointing(protocol, zone, tunnel),
                LaunchEvent::Dns(written),
            ) => match written {
                Err(error) => LaunchStep::failed(error),
                Ok(dns) => {
                    let record = plan.record(protocol, zone, tunnel, dns, now);
                    let text = concat4(
                        "DNS: ",
                        record.domain.as_str(),
                        " → CNAME → ",
                        record.dns_target.as_str(),
                    );
                    let told = one_text(tick(text.as_str()));
                    plan.moved(LaunchStage::Spawning(record), told)
                },
            },
            (stage, _) => plan.quietly(stage),
        }
    }

    /// A step while `cloudflared` is started.
    fn start(self, event: LaunchEvent, now: Timestamp) -> (step: LaunchStep)
        ensures
            step@ == start_next(self@, event@, now),
    {
        let Launch { plan, stage } = self;
        match (stage, event) {
            (LaunchStage::Spawning(record), LaunchEvent::SpawnedDetached(spawned)) => {
                if plan.options.detach {
                    match spawned {
                        Err(error) => LaunchStep::failed(error),
                        Ok(pid) => {
                            let mut running = record;
                            mark_running(&mut running, Some(pid), now);
                            plan.quietly(LaunchStage::RegisteringDetached(running, pid))
                        },
                    }
                } else {
                    plan.quietly(LaunchStage::Spawning(record))
                }
            },
            (LaunchStage::Spawning(record), LaunchEvent::SpawnedForeground(spawned)) => {
                if plan.options.detach {
                    plan.quietly(LaunchStage::Spawning(record))
                } else {
                    match spawned {
                        Err(error) => LaunchStep::failed(error),
                        Ok(pid) => {
                            let mut running = record;
                            mark_running(&mut running, pid, now);
                            plan.quietly(LaunchStage::RegisteringForeground(running))
                        },
                    }
                }
            },
            (
                LaunchStage::RegisteringDetached(record, pid),
                LaunchEvent::Registered(done),
            ) => match done {
                Err(error) => LaunchStep::failed(error),
                Ok(_) => {
                    let texts = if plan.options.export {
                        exports(&record)
                    } else {
                        detached_success(&record, pid)
                    };
                    LaunchStep {
                        notices: notices(Stream::Output, texts),
                        next: LaunchNext::Finished(Ok(())),
                    }
                },
            },
            (
                LaunchStage::RegisteringForeground(record),
                LaunchEvent::Registered(done),
            ) => match done {
                Err(error) => LaunchStep::failed(error),
                Ok(_) => {
                    let mut texts = print_launch_success(&record);
                    let ghost told = texts.deep_view();
                    texts.push(dimmed("按 Ctrl+C 停止"));
                    proof {
                        assert(texts.deep_view() =~= told.push(in_faint("按 Ctrl+C 停止"@)));
                    }
                    plan.moved(LaunchStage::Attaching(record), texts)
                },
            },
            (LaunchStage::Attaching(record), LaunchEvent::Attached(done)) => match done {
                Err(error) => LaunchStep::failed(error),
                Ok(_) => plan.quietly(LaunchStage::Waiting(record)),
            },
            (stage, _) => plan.quietly(stage),
        }
    }

    /// A step while the tunnel runs before the eyes of the user, or after that.
    fn watch(self, event: LaunchEvent) -> (step: LaunchStep)
        ensures
            step@ == session_next(self@, event@),
    {
        let Launch { plan, stage } = self;
        match (stage, event) {
            (LaunchStage::Waiting(record), LaunchEvent::Ended(end)) => match end {
                SessionEnd::WaitFailed(error) => LaunchStep::failed(error),
                SessionEnd::Exited(success, status) => {
                    let result = if success {
                        Ok(())
                    } else {
                        Err(PunchError::new(ErrorKind::CloudflaredFailed(status)))
                    };
                    plan.quietly(LaunchStage::Draining(record, result))
                },
                SessionEnd::Interrupted => plan.quietly(LaunchStage::Killing(record)),
            },
            (LaunchStage::Killing(record), LaunchEvent::Killed(done)) => match done {
                Err(error) => plan.quietly(
                    LaunchStage::Forgetting(record.domain, Some(error), Ok(())),
                ),
                Ok(_) => plan.quietly(LaunchStage::Draining(record, Ok(()))),
            },
            (LaunchStage::Draining(record, late), LaunchEvent::LogsJoined(done)) => {
                let early = match done {
                    Err(error) => Some(error),
                    Ok(_) => None,
                };
                plan.quietly(LaunchStage::Forgetting(record.domain, early, late))
            },
            (LaunchStage::Forgetting(_, early, late), LaunchEvent::Forgotten(done)) => {
                let result = match early {
                    Some(error) => Err(error),
                    None => match done {
                        Err(error) => Err(error),
                        Ok(_) => late,
                    },
                };
                LaunchStep { notices: silence(), next: LaunchNext::Finished(result) }
            },
            (stage, _) => plan.quietly(stage),
        }
    }

    /// A step at `now`: `event` is what came of what was waited for.
    pub fn next(self, event: LaunchEvent, now: Timestamp) -> (step: LaunchStep)
        ensures
            step@ == launch_next(self@, event@, now),
    {
        match self.phase() {
            Phase::SignIn => self.sign_in(event),
            Phase::Probe => self.probe(event),
            Phase::Remote => self.set_up(event, now),
            Phase::Start => self.start(event, now),
            Phase::Session => self.watch(event),
        }
    }
}

} // verus!
