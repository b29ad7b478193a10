//! The data of a launch: how it is to be done, how far it has come, what it waits for, and what
//! came of it.

use crate::api::{DnsRecord, DnsView, TunnelDetails, TunnelView, Zone, ZoneView};
use crate::cloudflared::{CommandLine, CommandView};
use crate::error::{Failure, PunchError};
use crate::output::{Notice, NoticeView, Stream};
use crate::text::outcome;
use crate::types::{
    LocalProtocol, RecordView, ShareSettings, ShareView, TargetView, TunnelRecord, TunnelTarget,
};
use vstd::prelude::*;
use vstd::string::*;

verus! {

/// How a service is brought online.
#[derive(Debug, PartialEq, Eq)]
pub struct LaunchOptions {
    /// What the local service speaks, if that is known.
    pub protocol: Option<LocalProtocol>,
    /// Whether the certificate of the local service may be a bad one.
    pub insecure: bool,
    /// Whether the tunnel runs on behind the scenes.
    pub detach: bool,
    /// Whether the address is written for a shell to read.
    pub export: bool,
    /// The terms on which it is shared.
    pub share: Option<ShareSettings>,
}

/// The model of [`LaunchOptions`].
#[verifier::ext_equal]
pub struct OptionsView {
    pub protocol: Option<LocalProtocol>,
    pub insecure: bool,
    pub detach: bool,
    pub export: bool,
    pub share: Option<ShareView>,
}

impl View for LaunchOptions {
    type V = OptionsView;

    open spec fn view(&self) -> OptionsView {
        OptionsView {
            protocol: self.protocol,
            insecure: self.insecure,
            detach: self.detach,
            export: self.export,
            share: self.share.deep_view(),
        }
    }
}

impl DeepView for LaunchOptions {
    type V = OptionsView;

    open spec fn deep_view(&self) -> OptionsView {
        self@
    }
}

impl Clone for LaunchOptions {
    fn clone(&self) -> (copy: Self)
        ensures
            copy == *self,
    {
        LaunchOptions {
            protocol: self.protocol,
            insecure: self.insecure,
            detach: self.detach,
            export: self.export,
            share: match &self.share {
                Some(value) => Some(value.clone()),
                None => None,
            },
        }
    }
}

/// What is brought online, and how.
#[derive(Debug, PartialEq, Eq)]
pub struct LaunchPlan {
    pub target: TunnelTarget,
    pub options: LaunchOptions,
    /// The file of the log, as it is shown.
    pub log_file: String,
}

/// The model of [`LaunchPlan`].
#[verifier::ext_equal]
pub struct PlanView {
    pub target: TargetView,
    pub options: OptionsView,
    pub log_file: Seq<char>,
}

impl View for LaunchPlan {
    type V = PlanView;

    open spec fn view(&self) -> PlanView {
        PlanView {
            target: self.target@,
            options: self.options@,
            log_file: self.log_file@,
        }
    }
}

impl DeepView for LaunchPlan {
    type V = PlanView;

    open spec fn deep_view(&self) -> PlanView {
        self@
    }
}

/// How far a launch has come.
#[derive(Debug)]
pub enum LaunchStage {
    /// `cloudflared` is looked for.
    Detecting,
    /// A token is looked for.
    Credentials,
    /// A token has yet to be typed.
    Prompting,
    /// The user signs in with the token.
    Authenticating(String),
    /// The client for the token is being set up.
    Opening(String),
    /// Does anything listen on the port?
    ProbingPort,
    /// Does the local service speak HTTPS?
    ProbingHttps,
    /// Does the local service speak HTTP?
    ProbingHttp,
    /// The zone of the domain is looked for.
    FindingZone(LocalProtocol),
    /// The tunnel is being set up.
    SettingUp(LocalProtocol, Zone),
    /// The tunnel is being led to the local service.
    Configuring(LocalProtocol, Zone, TunnelDetails),
    /// The domain is being led to the tunnel.
    Pointing(LocalProtocol, Zone, TunnelDetails),
    /// `cloudflared` is being started.
    Spawning(TunnelRecord),
    /// The tunnel is being registered, and runs behind the scenes in this process.
    RegisteringDetached(TunnelRecord, u32),
    /// The tunnel is being registered, and runs before the eyes of the user.
    RegisteringForeground(TunnelRecord),
    /// The log is being connected.
    Attaching(TunnelRecord),
    /// The tunnel runs.
    Waiting(TunnelRecord),
    /// The tunnel is being stopped.
    Killing(TunnelRecord),
    /// The tunnel has stopped, and the rest of the log is being written.
    Draining(TunnelRecord, Result<(), PunchError>),
    /// The tunnel is being taken out of the register: an error that came before, and how it ended.
    Forgetting(String, Option<PunchError>, Result<(), PunchError>),
}

/// The model of [`LaunchStage`].
#[verifier::ext_equal]
pub enum StageView {
    Detecting,
    Credentials,
    Prompting,
    Authenticating(Seq<char>),
    Opening(Seq<char>),
    ProbingPort,
    ProbingHttps,
    ProbingHttp,
    FindingZone(LocalProtocol),
    SettingUp(LocalProtocol, ZoneView),
    Configuring(LocalProtocol, ZoneView, TunnelView),
    Pointing(LocalProtocol, ZoneView, TunnelView),
    Spawning(RecordView),
    RegisteringDetached(RecordView, u32),
    RegisteringForeground(RecordView),
    Attaching(RecordView),
    Waiting(RecordView),
    Killing(RecordView),
    Draining(RecordView, Result<(), Failure>),
    Forgetting(Seq<char>, Option<Failure>, Result<(), Failure>),
}

impl View for LaunchStage {
    type V = StageView;

    open spec fn view(&self) -> StageView {
        match self {
            LaunchStage::Detecting => StageView::Detecting,
            LaunchStage::Credentials => StageView::Credentials,
            LaunchStage::Prompting => StageView::Prompting,
            LaunchStage::Authenticating(value) => StageView::Authenticating(value@),
            LaunchStage::Opening(value) => StageView::Opening(value@),
            LaunchStage::ProbingPort => StageView::ProbingPort,
            LaunchStage::ProbingHttps => StageView::ProbingHttps,
            LaunchStage::ProbingHttp => StageView::ProbingHttp,
            LaunchStage::FindingZone(value) => StageView::FindingZone(*value),
            LaunchStage::SettingUp(a, b) => StageView::SettingUp(*a, b@),
            LaunchStage::Configuring(a, b, c) => StageView::Configuring(*a, b@, c@),
            LaunchStage::Pointing(a, b, c) => StageView::Pointing(*a, b@, c@),
            LaunchStage::Spawning(value) => StageView::Spawning(value@),
            LaunchStage::RegisteringDetached(a, b) => StageView::RegisteringDetached(a@, *b),
            LaunchStage::RegisteringForeground(value) => StageView::RegisteringForeground(value@),
            LaunchStage::Attaching(value) => StageView::Attaching(value@),
            LaunchStage::Waiting(value) => StageView::Waiting(value@),
            LaunchStage::Killing(value) => StageView::Killing(value@),
            LaunchStage::Draining(a, b) => StageView::Draining(a@, outcome(*b)),
            LaunchStage::Forgetting(a, b, c) => StageView::Forgetting(a@, b.deep_view(), outcome(*c)),
        }
    }
}

impl DeepView for LaunchStage {
    type V = StageView;

    open spec fn deep_view(&self) -> StageView {
        self@
    }
}

/// A service is brought online.
#[derive(Debug)]
pub struct Launch {
    pub plan: LaunchPlan,
    pub stage: LaunchStage,
}

/// The model of [`Launch`].
#[verifier::ext_equal]
pub struct LaunchView {
    pub plan: PlanView,
    pub stage: StageView,
}

impl View for Launch {
    type V = LaunchView;

    open spec fn view(&self) -> LaunchView {
        LaunchView {
            plan: self.plan@,
            stage: self.stage@,
        }
    }
}

impl DeepView for Launch {
    type V = LaunchView;

    open spec fn deep_view(&self) -> LaunchView {
        self@
    }
}

/// What a launch waits for.
#[derive(Debug, PartialEq, Eq)]
pub enum LaunchAction {
    /// `cloudflared` is looked for.
    Detect,
    /// The stored token is looked for, and then the one in the environment.
    LoadToken,
    /// The user is asked on the stream for a token, which is not shown.
    Prompt(Stream),
    /// The user signs in with the token, and is told about it on the stream.
    Authenticate(String, Stream),
    /// A client is set up for the token.
    Open(String),
    /// A connection to the local port is tried.
    ProbePort(u16),
    /// The local service is asked at this address, whatever its certificate is.
    ProbeHttps(String),
    /// The local service is asked at this address.
    ProbeHttp(String),
    /// The zone of the domain is looked for.
    ResolveZone(String),
    /// The tunnel of that name is set up.
    EnsureTunnel { account_id: String, name: String },
    /// The tunnel is led to the local service.
    Configure {
        account_id: String,
        tunnel_id: String,
        hostname: String,
        service: String,
        insecure: bool,
    },
    /// The domain is led to the tunnel.
    EnsureDns { zone_id: String, hostname: String, target: String },
    /// `cloudflared` is started behind the scenes, with the log of the domain as its output.
    SpawnDetached(CommandLine, String),
    /// `cloudflared` is started before the eyes of the user.
    SpawnForeground(CommandLine),
    /// The tunnel is registered.
    Register(TunnelRecord),
    /// The output of `cloudflared` is copied to the file and to the user.
    Attach(String),
    /// `cloudflared` ends, or the user interrupts it.
    Wait,
    /// `cloudflared` is stopped.
    Kill,
    /// The rest of the log is written.
    JoinLogs,
    /// The tunnel for the domain is taken out of the register.
    Forget(String),
}

/// The model of [`LaunchAction`].
#[verifier::ext_equal]
pub enum ActionView {
    Detect,
    LoadToken,
    Prompt(Stream),
    Authenticate(Seq<char>, Stream),
    Open(Seq<char>),
    ProbePort(u16),
    ProbeHttps(Seq<char>),
    ProbeHttp(Seq<char>),
    ResolveZone(Seq<char>),
    EnsureTunnel { account_id: Seq<char>, name: Seq<char> },
    Configure {
        account_id: Seq<char>,
        tunnel_id: Seq<char>,
        hostname: Seq<char>,
        service: Seq<char>,
        insecure: bool,
    },
    EnsureDns { zone_id: Seq<char>, hostname: Seq<char>, target: Seq<char> },
    SpawnDetached(CommandView, Seq<char>),
    SpawnForeground(CommandView),
    Register(RecordView),
    Attach(Seq<char>),
    Wait,
    Kill,
    JoinLogs,
    Forget(Seq<char>),
}

impl View for LaunchAction {
    type V = ActionView;

    open spec fn view(&self) -> ActionView {
        match self {
            LaunchAction::Detect => ActionView::Detect,
            LaunchAction::LoadToken => ActionView::LoadToken,
            LaunchAction::Prompt(value) => ActionView::Prompt(*value),
            LaunchAction::Authenticate(a, b) => ActionView::Authenticate(a@, *b),
            LaunchAction::Open(value) => ActionView::Open(value@),
            LaunchAction::ProbePort(value) => ActionView::ProbePort(*value),
            LaunchAction::ProbeHttps(value) => ActionView::ProbeHttps(value@),
            LaunchAction::ProbeHttp(value) => ActionView::ProbeHttp(value@),
            LaunchAction::ResolveZone(value) => ActionView::ResolveZone(value@),
            LaunchAction::EnsureTunnel { account_id, name } => ActionView::EnsureTunnel {
                account_id: account_id@,
                name: name@,
            },
            LaunchAction::Configure {
                account_id,
                tunnel_id,
                hostname,
                service,
                insecure,
            } => ActionView::Configure {
                account_id: account_id@,
                tunnel_id: tunnel_id@,
                hostname: hostname@,
                service: service@,
                insecure: *insecure,
            },
            LaunchAction::EnsureDns { zone_id, hostname, target } => ActionView::EnsureDns {
                zone_id: zone_id@,
                hostname: hostname@,
                target: target@,
            },
            LaunchAction::SpawnDetached(a, b) => ActionView::SpawnDetached(a@, b@),
            LaunchAction::SpawnForeground(value) => ActionView::SpawnForeground(value@),
            LaunchAction::Register(value) => ActionView::Register(value@),
            LaunchAction::Attach(value) => ActionView::Attach(value@),
            LaunchAction::Wait => ActionView::Wait,
            LaunchAction::Kill => ActionView::Kill,
            LaunchAction::JoinLogs => ActionView::JoinLogs,
            LaunchAction::Forget(value) => ActionView::Forget(value@),
        }
    }
}

impl DeepView for LaunchAction {
    type V = ActionView;

    open spec fn deep_view(&self) -> ActionView {
        self@
    }
}

/// What came of trying the local port.
#[derive(Debug, PartialEq, Eq)]
pub enum PortProbe {
    /// Something listens there.
    Open,
    /// Nothing answered in time.
    TimedOut(Vec<String>),
    /// Nothing listens there.
    Refused(Vec<String>),
}

/// The model of [`PortProbe`].
#[verifier::ext_equal]
pub enum ProbeView {
    Open,
    TimedOut(Seq<Seq<char>>),
    Refused(Seq<Seq<char>>),
}

impl View for PortProbe {
    type V = ProbeView;

    open spec fn view(&self) -> ProbeView {
        match self {
            PortProbe::Open => ProbeView::Open,
            PortProbe::TimedOut(value) => ProbeView::TimedOut(value.deep_view()),
            PortProbe::Refused(value) => ProbeView::Refused(value.deep_view()),
        }
    }
}

impl DeepView for PortProbe {
    type V = ProbeView;

    open spec fn deep_view(&self) -> ProbeView {
        self@
    }
}

/// How a session in the foreground ended.
#[derive(Debug, PartialEq, Eq)]
pub enum SessionEnd {
    /// `cloudflared` ended: whether that is a success, and its status.
    Exited(bool, String),
    /// It is not known how it ended.
    WaitFailed(PunchError),
    /// The user interrupted it.
    Interrupted,
}

/// The model of [`SessionEnd`].
#[verifier::ext_equal]
pub enum EndView {
    Exited(bool, Seq<char>),
    WaitFailed(Failure),
    Interrupted,
}

impl View for SessionEnd {
    type V = EndView;

    open spec fn view(&self) -> EndView {
        match self {
            SessionEnd::Exited(a, b) => EndView::Exited(*a, b@),
            SessionEnd::WaitFailed(value) => EndView::WaitFailed(value@),
            SessionEnd::Interrupted => EndView::Interrupted,
        }
    }
}

impl DeepView for SessionEnd {
    type V = EndView;

    open spec fn deep_view(&self) -> EndView {
        self@
    }
}

/// What came of what a launch waited for.
#[derive(Debug)]
pub enum LaunchEvent {
    Detected(Result<(), PunchError>),
    Token(Result<Option<String>, PunchError>),
    Typed(Result<String, PunchError>),
    Authenticated(Result<(), PunchError>),
    Opened(Result<(), PunchError>),
    Port(PortProbe),
    Https(Result<bool, PunchError>),
    Http(Result<bool, PunchError>),
    Zone(Result<Zone, PunchError>),
    Tunnel(Result<TunnelDetails, PunchError>),
    Configured(Result<(), PunchError>),
    Dns(Result<DnsRecord, PunchError>),
    SpawnedDetached(Result<u32, PunchError>),
    SpawnedForeground(Result<Option<u32>, PunchError>),
    Registered(Result<(), PunchError>),
    Attached(Result<(), PunchError>),
    Ended(SessionEnd),
    Killed(Result<(), PunchError>),
    LogsJoined(Result<(), PunchError>),
    Forgotten(Result<(), PunchError>),
}

/// The model of [`LaunchEvent`].
#[verifier::ext_equal]
pub enum EventView {
    Detected(Result<(), Failure>),
    Token(Result<Option<Seq<char>>, Failure>),
    Typed(Result<Seq<char>, Failure>),
    Authenticated(Result<(), Failure>),
    Opened(Result<(), Failure>),
    Port(ProbeView),
    Https(Result<bool, Failure>),
    Http(Result<bool, Failure>),
    Zone(Result<ZoneView, Failure>),
    Tunnel(Result<TunnelView, Failure>),
    Configured(Result<(), Failure>),
    Dns(Result<DnsView, Failure>),
    SpawnedDetached(Result<u32, Failure>),
    SpawnedForeground(Result<Option<u32>, Failure>),
    Registered(Result<(), Failure>),
    Attached(Result<(), Failure>),
    Ended(EndView),
    Killed(Result<(), Failure>),
    LogsJoined(Result<(), Failure>),
    Forgotten(Result<(), Failure>),
}

impl View for LaunchEvent {
    type V = EventView;

    open spec fn view(&self) -> EventView {
        match self {
            LaunchEvent::Detected(value) => EventView::Detected(outcome(*value)),
            LaunchEvent::Token(value) => EventView::Token(outcome(*value)),
            LaunchEvent::Typed(value) => EventView::Typed(outcome(*value)),
            LaunchEvent::Authenticated(value) => EventView::Authenticated(outcome(*value)),
            LaunchEvent::Opened(value) => EventView::Opened(outcome(*value)),
            LaunchEvent::Port(value) => EventView::Port(value@),
            LaunchEvent::Https(value) => EventView::Https(outcome(*value)),
            LaunchEvent::Http(value) => EventView::Http(outcome(*value)),
            LaunchEvent::Zone(value) => EventView::Zone(outcome(*value)),
            LaunchEvent::Tunnel(value) => EventView::Tunnel(outcome(*value)),
            LaunchEvent::Configured(value) => EventView::Configured(outcome(*value)),
            LaunchEvent::Dns(value) => EventView::Dns(outcome(*value)),
            LaunchEvent::SpawnedDetached(value) => EventView::SpawnedDetached(outcome(*value)),
            LaunchEvent::SpawnedForeground(value) => EventView::SpawnedForeground(outcome(*value)),
            LaunchEvent::Registered(value) => EventView::Registered(outcome(*value)),
            LaunchEvent::Attached(value) => EventView::Attached(outcome(*value)),
            LaunchEvent::Ended(value) => EventView::Ended(value@),
            LaunchEvent::Killed(value) => EventView::Killed(outcome(*value)),
            LaunchEvent::LogsJoined(value) => EventView::LogsJoined(outcome(*value)),
            LaunchEvent::Forgotten(value) => EventView::Forgotten(outcome(*value)),
        }
    }
}

impl DeepView for LaunchEvent {
    type V = EventView;

    open spec fn deep_view(&self) -> EventView {
        self@
    }
}

/// How a launch goes on.
#[derive(Debug)]
pub enum LaunchNext {
    Continue(Launch),
    Finished(Result<(), PunchError>),
}

/// The model of [`LaunchNext`].
#[verifier::ext_equal]
pub enum NextView {
    Continue(LaunchView),
    Finished(Result<(), Failure>),
}

impl View for LaunchNext {
    type V = NextView;

    open spec fn view(&self) -> NextView {
        match self {
            LaunchNext::Continue(value) => NextView::Continue(value@),
            LaunchNext::Finished(value) => NextView::Finished(outcome(*value)),
        }
    }
}

impl DeepView for LaunchNext {
    type V = NextView;

    open spec fn deep_view(&self) -> NextView {
        self@
    }
}

/// A step of a launch: what the user is told, and how it goes on.
#[derive(Debug)]
pub struct LaunchStep {
    pub notices: Vec<Notice>,
    pub next: LaunchNext,
}

/// The model of [`LaunchStep`].
#[verifier::ext_equal]
pub struct StepView {
    pub notices: Seq<NoticeView>,
    pub next: NextView,
}

impl View for LaunchStep {
    type V = StepView;

    open spec fn view(&self) -> StepView {
        StepView {
            notices: self.notices.deep_view(),
            next: self.next@,
        }
    }
}

impl DeepView for LaunchStep {
    type V = StepView;

    open spec fn deep_view(&self) -> StepView {
        self@
    }
}

} // verus!
