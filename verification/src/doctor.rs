//! A look at what is wrong: `cloudflared`, the token, the zones, the right to run tunnels, and
//! the registered tunnels.

use crate::cloudflare::{
    bare, tunnels_path, ApiRequest, CloudflareClient, Method, RequestView, TokenStateView,
    TokenVerifyResult, Zone, ZoneView,
};
use crate::error::{Failure, PunchError};
use crate::number::{decimal, show};
use crate::output::{
    cross, crossed, lines_on, no_texts, notices, one_text, tick, ticked, warn, warned, Notice,
    NoticeView, Stream,
};
use crate::storage::{path_text, show_path, PunchDirs};
use crate::style::{bold, in_bold, in_green, in_red, in_yellow};
use crate::text::{concat2, concat3, concat4, join, joined, outcome, same_text};
use crate::types::{LocalProtocol, RecordView, TunnelRecord, TunnelStatus};
use vstd::prelude::*;
use vstd::string::*;

verus! {

/// How far the look has come.
#[derive(Debug, PartialEq, Eq)]
pub enum Doctor {
    /// `cloudflared` is looked for.
    Detecting,
    /// `cloudflared` is asked for its version.
    AskingVersion,
    /// The token is looked for.
    LoadingToken,
    /// The client for the token is being set up.
    Opening(String),
    /// The token is being checked.
    Verifying(String),
    /// The zones are being read.
    ListingZones(String),
    /// The right to run tunnels in the account is being checked.
    CheckingAccess(String, String),
    /// The registered tunnels are looked at.
    Refreshing,
}

/// The model of [`Doctor`].
#[verifier::ext_equal]
pub enum DoctorView {
    Detecting,
    AskingVersion,
    LoadingToken,
    Opening(Seq<char>),
    Verifying(Seq<char>),
    ListingZones(Seq<char>),
    CheckingAccess(Seq<char>, Seq<char>),
    Refreshing,
}

impl View for Doctor {
    type V = DoctorView;

    open spec fn view(&self) -> DoctorView {
        match self {
            Doctor::Detecting => DoctorView::Detecting,
            Doctor::AskingVersion => DoctorView::AskingVersion,
            Doctor::LoadingToken => DoctorView::LoadingToken,
            Doctor::Opening(value) => DoctorView::Opening(value@),
            Doctor::Verifying(value) => DoctorView::Verifying(value@),
            Doctor::ListingZones(value) => DoctorView::ListingZones(value@),
            Doctor::CheckingAccess(a, b) => DoctorView::CheckingAccess(a@, b@),
            Doctor::Refreshing => DoctorView::Refreshing,
        }
    }
}

impl DeepView for Doctor {
    type V = DoctorView;

    open spec fn deep_view(&self) -> DoctorView {
        self@
    }
}

/// What the look waits for.
#[derive(Debug, PartialEq, Eq)]
pub enum DoctorAction {
    /// `cloudflared` is looked for.
    Detect,
    /// `cloudflared` is asked for its version.
    AskVersion,
    /// The stored token is looked for, and then the one in the environment.
    LoadToken,
    /// A client is set up for the token.
    Open(String),
    /// The API says what state the token is in.
    Verify(ApiRequest),
    /// The API lists zones.
    ListZones(ApiRequest),
    /// The API shows tunnels of the account.
    CheckAccess(ApiRequest),
    /// The registered tunnels are looked at.
    Refresh,
}

/// The model of [`DoctorAction`].
#[verifier::ext_equal]
pub enum DoctorActionView {
    Detect,
    AskVersion,
    LoadToken,
    Open(Seq<char>),
    Verify(RequestView),
    ListZones(RequestView),
    CheckAccess(RequestView),
    Refresh,
}

impl View for DoctorAction {
    type V = DoctorActionView;

    open spec fn view(&self) -> DoctorActionView {
        match self {
            DoctorAction::Detect => DoctorActionView::Detect,
            DoctorAction::AskVersion => DoctorActionView::AskVersion,
            DoctorAction::LoadToken => DoctorActionView::LoadToken,
            DoctorAction::Open(value) => DoctorActionView::Open(value@),
            DoctorAction::Verify(value) => DoctorActionView::Verify(value@),
            DoctorAction::ListZones(value) => DoctorActionView::ListZones(value@),
            DoctorAction::CheckAccess(value) => DoctorActionView::CheckAccess(value@),
            DoctorAction::Refresh => DoctorActionView::Refresh,
        }
    }
}

impl DeepView for DoctorAction {
    type V = DoctorActionView;

    open spec fn deep_view(&self) -> DoctorActionView {
        self@
    }
}

/// What came of it.
#[derive(Debug)]
pub enum DoctorEvent {
    Detected(Result<(), PunchError>),
    Version(Result<String, PunchError>),
    Token(Result<Option<String>, PunchError>),
    Opened(Result<(), PunchError>),
    Verified(Result<TokenVerifyResult, PunchError>),
    Zones(Result<Vec<Zone>, PunchError>),
    Access(Result<(), PunchError>),
    Refreshed(Result<Vec<TunnelRecord>, PunchError>),
}

/// The model of [`DoctorEvent`].
#[verifier::ext_equal]
pub enum DoctorEventView {
    Detected(Result<(), Failure>),
    Version(Result<Seq<char>, Failure>),
    Token(Result<Option<Seq<char>>, Failure>),
    Opened(Result<(), Failure>),
    Verified(Result<TokenStateView, Failure>),
    Zones(Result<Seq<ZoneView>, Failure>),
    Access(Result<(), Failure>),
    Refreshed(Result<Seq<RecordView>, Failure>),
}

impl View for DoctorEvent {
    type V = DoctorEventView;

    open spec fn view(&self) -> DoctorEventView {
        match self {
            DoctorEvent::Detected(value) => DoctorEventView::Detected(outcome(*value)),
            DoctorEvent::Version(value) => DoctorEventView::Version(outcome(*value)),
            DoctorEvent::Token(value) => DoctorEventView::Token(outcome(*value)),
            DoctorEvent::Opened(value) => DoctorEventView::Opened(outcome(*value)),
            DoctorEvent::Verified(value) => DoctorEventView::Verified(outcome(*value)),
            DoctorEvent::Zones(value) => DoctorEventView::Zones(outcome(*value)),
            DoctorEvent::Access(value) => DoctorEventView::Access(outcome(*value)),
            DoctorEvent::Refreshed(value) => DoctorEventView::Refreshed(outcome(*value)),
        }
    }
}

impl DeepView for DoctorEvent {
    type V = DoctorEventView;

    open spec fn deep_view(&self) -> DoctorEventView {
        self@
    }
}

/// How the look goes on.
#[derive(Debug)]
pub enum DoctorNext {
    Continue(Doctor),
    Finished(Result<(), PunchError>),
}

/// The model of [`DoctorNext`].
#[verifier::ext_equal]
pub enum DoctorNextView {
    Continue(DoctorView),
    Finished(Result<(), Failure>),
}

impl View for DoctorNext {
    type V = DoctorNextView;

    open spec fn view(&self) -> DoctorNextView {
        match self {
            DoctorNext::Continue(value) => DoctorNextView::Continue(value@),
            DoctorNext::Finished(value) => DoctorNextView::Finished(outcome(*value)),
        }
    }
}

impl DeepView for DoctorNext {
    type V = DoctorNextView;

    open spec fn deep_view(&self) -> DoctorNextView {
        self@
    }
}

/// A step of the look: what the user is told, and how it goes on.
#[derive(Debug)]
pub struct DoctorStep {
    pub notices: Vec<Notice>,
    pub next: DoctorNext,
}

/// The model of [`DoctorStep`].
#[verifier::ext_equal]
pub struct DoctorStepView {
    pub notices: Seq<NoticeView>,
    pub next: DoctorNextView,
}

impl View for DoctorStep {
    type V = DoctorStepView;

    open spec fn view(&self) -> DoctorStepView {
        DoctorStepView {
            notices: self.notices.deep_view(),
            next: self.next@,
        }
    }
}

impl DeepView for DoctorStep {
    type V = DoctorStepView;

    open spec fn deep_view(&self) -> DoctorStepView {
        self@
    }
}

/// What the look waits for.
pub open spec fn doctor_wants(stage: DoctorView) -> DoctorActionView {
    match stage {
        DoctorView::Detecting => DoctorActionView::Detect,
        DoctorView::AskingVersion => DoctorActionView::AskVersion,
        DoctorView::LoadingToken => DoctorActionView::LoadToken,
        DoctorView::Opening(token) => DoctorActionView::Open(token),
        DoctorView::Verifying(_) => DoctorActionView::Verify(
            bare(Method::Get, "user/tokens/verify"@),
        ),
        DoctorView::ListingZones(_) => DoctorActionView::ListZones(
            bare(Method::Get, "zones?status=active&per_page="@ + decimal(5)),
        ),
        DoctorView::CheckingAccess(_, account) => DoctorActionView::CheckAccess(
            bare(Method::Get, tunnels_path(account) + "?per_page=1"@),
        ),
        DoctorView::Refreshing => DoctorActionView::Refresh,
    }
}

/// The look goes on with `stage`, and the user is told `texts`.
pub open spec fn doctor_moves(stage: DoctorView, texts: Seq<Seq<char>>) -> DoctorStepView {
    DoctorStepView {
        notices: lines_on(Stream::Output, texts),
        next: DoctorNextView::Continue(stage),
    }
}

/// The look ends with `result`, and the user is told `texts`.
pub open spec fn doctor_ends(result: Result<(), Failure>, texts: Seq<Seq<char>>) -> DoctorStepView {
    DoctorStepView {
        notices: lines_on(Stream::Output, texts),
        next: DoctorNextView::Finished(result),
    }
}

/// What the user is told of the zones `zones`.
pub open spec fn zones_text(zones: Seq<ZoneView>) -> Seq<char> {
    ticked(
        "zone 读取: "@ + decimal(zones.len()) + " 个，可见示例: "@ + joined(
            zones.map_values(|zone: ZoneView| zone.name),
            ", "@,
        ),
    )
}

/// What the user is told of the registered tunnels.
pub open spec fn tunnels_texts(records: Seq<RecordView>) -> Seq<Seq<char>> {
    seq![ticked("已登记隧道: "@ + in_bold(decimal(records.len())))] + records.map_values(
        |record: RecordView|
            "  - "@ + record.domain + " ["@ + record.status.name() + "] "@
                + record.local_protocol.url(record.local_port),
    )
}

/// What the user is told first.
pub open spec fn doctor_head(home: Seq<char>) -> Seq<Seq<char>> {
    seq!["PUNCH DOCTOR"@, "────────────"@, "home: "@ + home]
}

/// A step of the look. What was not waited for changes nothing.
pub open spec fn doctor_next(stage: DoctorView, event: DoctorEventView) -> DoctorStepView {
    match (stage, event) {
        (DoctorView::Detecting, DoctorEventView::Detected(found)) => match found {
            Ok(_) => doctor_moves(DoctorView::AskingVersion, seq![]),
            Err(error) => doctor_moves(
                DoctorView::LoadingToken,
                seq![crossed("cloudflared: "@ + error.line())],
            ),
        },
        (DoctorView::AskingVersion, DoctorEventView::Version(version)) => match version {
            Ok(text) => doctor_moves(
                DoctorView::LoadingToken,
                seq![ticked("cloudflared: "@ + text)],
            ),
            Err(error) => doctor_ends(Err(error), seq![]),
        },
        (DoctorView::LoadingToken, DoctorEventView::Token(lookup)) => match lookup {
            Err(error) => doctor_ends(Err(error), seq![]),
            Ok(Some(token)) => doctor_moves(DoctorView::Opening(token), seq![]),
            Ok(None) => doctor_moves(DoctorView::Refreshing, seq![warned("token: 未登录"@)]),
        },
        (DoctorView::Opening(token), DoctorEventView::Opened(opened)) => match opened {
            Err(error) => doctor_ends(Err(error), seq![]),
            Ok(_) => doctor_moves(DoctorView::Verifying(token), seq![]),
        },
        (DoctorView::Verifying(token), DoctorEventView::Verified(verified)) => match verified {
            Ok(state) => if state.status == "active"@ {
                doctor_moves(DoctorView::ListingZones(token), seq![ticked("token: active"@)])
            } else {
                doctor_moves(DoctorView::Refreshing, seq![warned("token: "@ + state.status)])
            },
            Err(error) => doctor_moves(
                DoctorView::Refreshing,
                seq![crossed("token: "@ + error.line())],
            ),
        },
        (DoctorView::ListingZones(token), DoctorEventView::Zones(reply)) => match reply {
            Ok(zones) => if zones.len() == 0 {
                doctor_moves(
                    DoctorView::Refreshing,
                    seq![warned("zone 读取: 没有可见 zone"@)],
                )
            } else {
                doctor_moves(
                    DoctorView::CheckingAccess(token, zones[0].account.id),
                    seq![zones_text(zones)],
                )
            },
            Err(error) => doctor_moves(
                DoctorView::Refreshing,
                seq![crossed("zone 读取: "@ + error.line())],
            ),
        },
        (DoctorView::CheckingAccess(_, account), DoctorEventView::Access(granted)) => match granted {
            Ok(_) => doctor_moves(
                DoctorView::Refreshing,
                seq![ticked("tunnel 权限: 可访问 account "@ + account)],
            ),
            Err(error) => doctor_moves(
                DoctorView::Refreshing,
                seq![crossed("tunnel 权限: "@ + error.line())],
            ),
        },
        (DoctorView::Refreshing, DoctorEventView::Refreshed(refreshed)) => match refreshed {
            Err(error) => doctor_ends(Err(error), seq![]),
            Ok(records) => doctor_ends(Ok(()), tunnels_texts(records)),
        },
        _ => doctor_moves(stage, seq![]),
    }
}

/// What the user is told of the zones `zones`.
fn show_zones(zones: &Vec<Zone>) -> (text: String)
    ensures
        text@ == zones_text(zones.deep_view()),
{
    let mut names: Vec<String> = Vec::new();
    let mut i: usize = 0;
    while i < zones.len()
        invariant
            i <= zones@.len(),
            names@.len() == i,
            forall|j: int| 0 <= j < i ==> (#[trigger] names@[j])@ == zones@[j].name@,
        decreases zones@.len() - i,
    {
        names.push(zones[i].name.clone());
        i = i + 1;
    }
    proof {
        assert(names.deep_view() =~= zones.deep_view().map_values(|zone: ZoneView| zone.name));
    }
    let shown = join(&names, ", ");
    let text = concat4(
        "zone 读取: ",
        show(zones.len() as u64).as_str(),
        " 个，可见示例: ",
        shown.as_str(),
    );
    tick(text.as_str())
}

/// What the user is told of the registered tunnels.
fn show_tunnels(records: &Vec<TunnelRecord>) -> (texts: Vec<String>)
    ensures
        texts.deep_view() == tunnels_texts(records.deep_view()),
{
    let mut texts: Vec<String> = Vec::new();
    let count = bold(show(records.len() as u64).as_str());
    texts.push(tick(concat2("已登记隧道: ", count.as_str()).as_str()));
    let ghost wanted = tunnels_texts(records.deep_view());
    let mut i: usize = 0;
    while i < records.len()
        invariant
            wanted == tunnels_texts(records.deep_view()),
            i <= records@.len(),
            texts@.len() == 1 + i,
            forall|j: int| 0 <= j < texts@.len() ==> (#[trigger] texts@[j])@ == wanted[j],
        decreases records@.len() - i,
    {
        let record = &records[i];
        let left = concat4("  - ", record.domain.as_str(), " [", record.status.label());
        let text = concat3(left.as_str(), "] ", record.local_target().as_str());
        proof {
            assert(wanted[1 + i] == text@);
        }
        texts.push(text);
        i = i + 1;
    }
    proof {
        assert(texts.deep_view() =~= wanted);
    }
    texts
}

impl DoctorStep {
    /// Goes on with `stage`, after the user was told `texts`.
    fn moved(stage: Doctor, texts: Vec<String>) -> (step: DoctorStep)
        ensures
            step@ == doctor_moves(stage@, texts.deep_view()),
    {
        DoctorStep { notices: notices(Stream::Output, texts), next: DoctorNext::Continue(stage) }
    }

    /// Ends with `result`, after the user was told `texts`.
    fn ended(result: Result<(), PunchError>, texts: Vec<String>) -> (step: DoctorStep)
        ensures
            step@ == doctor_ends(outcome(result), texts.deep_view()),
    {
        DoctorStep { notices: notices(Stream::Output, texts), next: DoctorNext::Finished(result) }
    }
}

impl Doctor {
    /// The look begins, for the program whose directories are `dirs`.
    pub fn begin(dirs: &PunchDirs) -> (step: DoctorStep)
        ensures
            step@ == doctor_moves(DoctorView::Detecting, doctor_head(path_text(dirs.root()))),
    {
        let mut texts: Vec<String> = Vec::new();
        texts.push("PUNCH DOCTOR".to_owned());
        texts.push("────────────".to_owned());
        texts.push(concat2("home: ", show_path(dirs.home()).as_str()));
        proof {
            assert(texts.deep_view() =~= doctor_head(path_text(dirs.root())));
        }
        DoctorStep::moved(Doctor::Detecting, texts)
    }

    /// What the look waits for.
    pub fn wants(&self) -> (action: DoctorAction)
        ensures
            action@ == doctor_wants(self@),
    {
        match self {
            Doctor::Detecting => DoctorAction::Detect,
            Doctor::AskingVersion => DoctorAction::AskVersion,
            Doctor::LoadingToken => DoctorAction::LoadToken,
            Doctor::Opening(token) => DoctorAction::Open(token.clone()),
            Doctor::Verifying(token) => DoctorAction::Verify(
                CloudflareClient::new(token.clone()).verify_token(),
            ),
            Doctor::ListingZones(token) => DoctorAction::ListZones(
                CloudflareClient::new(token.clone()).list_zones(5),
            ),
            Doctor::CheckingAccess(token, account) => DoctorAction::CheckAccess(
                CloudflareClient::new(token.clone()).validate_tunnel_access(account.as_str()),
            ),
            Doctor::Refreshing => DoctorAction::Refresh,
        }
    }

    /// A step: `event` is what came of what was waited for.
    pub fn next(self, event: DoctorEvent) -> (step: DoctorStep)
        ensures
            step@ == doctor_next(self@, event@),
    {
        match (self, event) {
            (Doctor::Detecting, DoctorEvent::Detected(found)) => match found {
                Ok(_) => DoctorStep::moved(Doctor::AskingVersion, no_texts()),
                Err(error) => DoctorStep::moved(
                    Doctor::LoadingToken,
                    one_text(cross(concat2("cloudflared: ", error.line().as_str()).as_str())),
                ),
            },
            (Doctor::AskingVersion, DoctorEvent::Version(version)) => match version {
                Ok(text) => DoctorStep::moved(
                    Doctor::LoadingToken,
                    one_text(tick(concat2("cloudflared: ", text.as_str()).as_str())),
                ),
                Err(error) => DoctorStep::ended(Err(error), no_texts()),
            },
            (Doctor::LoadingToken, DoctorEvent::Token(lookup)) => match lookup {
                Err(error) => DoctorStep::ended(Err(error), no_texts()),
                Ok(Some(token)) => DoctorStep::moved(Doctor::Opening(token), no_texts()),
                Ok(None) => DoctorStep::moved(Doctor::Refreshing, one_text(warn("token: 未登录"))),
            },
            (Doctor::Opening(token), DoctorEvent::Opened(opened)) => match opened {
                Err(error) => DoctorStep::ended(Err(error), no_texts()),
                Ok(_) => DoctorStep::moved(Doctor::Verifying(token), no_texts()),
            },
            (Doctor::Verifying(token), DoctorEvent::Verified(verified)) => match verified {
                Ok(state) => if same_text(state.status.as_str(), "active") {
                    DoctorStep::moved(Doctor::ListingZones(token), one_text(tick("token: active")))
                } else {
                    DoctorStep::moved(
                        Doctor::Refreshing,
                        one_text(warn(concat2("token: ", state.status.as_str()).as_str())),
                    )
                },
                Err(error) => DoctorStep::moved(
                    Doctor::Refreshing,
                    one_text(cross(concat2("token: ", error.line().as_str()).as_str())),
                ),
            },
            (Doctor::ListingZones(token), DoctorEvent::Zones(reply)) => match reply {
                Ok(zones) => if zones.len() == 0 {
                    DoctorStep::moved(
                        Doctor::Refreshing,
                        one_text(warn("zone 读取: 没有可见 zone")),
                    )
                } else {
                    let account = zones[0].account.id.clone();
                    DoctorStep::moved(
                        Doctor::CheckingAccess(token, account),
                        one_text(show_zones(&zones)),
                    )
                },
                Err(error) => DoctorStep::moved(
                    Doctor::Refreshing,
                    one_text(cross(concat2("zone 读取: ", error.line().as_str()).as_str())),
                ),
            },
            (Doctor::CheckingAccess(_, account), DoctorEvent::Access(granted)) => match granted {
                Ok(_) => DoctorStep::moved(
                    Doctor::Refreshing,
                    one_text(
                        tick(
                            concat2("tunnel 权限: 可访问 account ", account.as_str()).as_str(),
                        ),
                    ),
                ),
                Err(error) => DoctorStep::moved(
                    Doctor::Refreshing,
                    one_text(cross(concat2("tunnel 权限: ", error.line().as_str()).as_str())),
                ),
            },
            (Doctor::Refreshing, DoctorEvent::Refreshed(refreshed)) => match refreshed {
                Err(error) => DoctorStep::ended(Err(error), no_texts()),
                Ok(records) => DoctorStep::ended(Ok(()), show_tunnels(&records)),
            },
            (stage, _) => DoctorStep::moved(stage, no_texts()),
        }
    }
}

/// How many steps a stage is from the end of the look, at most.
pub open spec fn doctor_distance(stage: DoctorView) -> nat {
    match stage {
        DoctorView::Detecting => 8,
        DoctorView::AskingVersion => 7,
        DoctorView::LoadingToken => 6,
        DoctorView::Opening(_) => 5,
        DoctorView::Verifying(_) => 4,
        DoctorView::ListingZones(_) => 3,
        DoctorView::CheckingAccess(_, _) => 2,
        DoctorView::Refreshing => 1,
    }
}

/// `event` is of the kind that `stage` waits for.
pub open spec fn doctor_awaits(stage: DoctorView, event: DoctorEventView) -> bool {
    match stage {
        DoctorView::Detecting => event is Detected,
        DoctorView::AskingVersion => event is Version,
        DoctorView::LoadingToken => event is Token,
        DoctorView::Opening(_) => event is Opened,
        DoctorView::Verifying(_) => event is Verified,
        DoctorView::ListingZones(_) => event is Zones,
        DoctorView::CheckingAccess(_, _) => event is Access,
        DoctorView::Refreshing => event is Refreshed,
    }
}

/// The look comes to an end: what is waited for brings it nearer.
pub proof fn look_ends(stage: DoctorView, event: DoctorEventView)
    requires
        doctor_awaits(stage, event),
    ensures
        doctor_next(stage, event).next matches DoctorNextView::Continue(after) ==> doctor_distance(
            after,
        ) < doctor_distance(stage),
{
}

/// What the API refuses does not end the look: the user is told of it, and the registered
/// tunnels are still looked at.
pub proof fn refusals_are_told(stage: DoctorView, event: DoctorEventView)
    requires
        doctor_awaits(stage, event),
        stage is Verifying || stage is ListingZones || stage is CheckingAccess,
    ensures
        doctor_next(stage, event).next is Continue,
        doctor_next(stage, event).notices.len() == 1,
{
}

/// What the look asks for after `event`, unless it is over.
pub open spec fn doctor_asks_after(stage: DoctorView, event: DoctorEventView) -> Option<
    DoctorActionView,
> {
    match doctor_next(stage, event).next {
        DoctorNextView::Continue(after) => Some(doctor_wants(after)),
        DoctorNextView::Finished(_) => None,
    }
}

/// How the look ends with `event`, if it does.
pub open spec fn doctor_ends_with(stage: DoctorView, event: DoctorEventView) -> Option<
    Result<(), Failure>,
> {
    match doctor_next(stage, event).next {
        DoctorNextView::Continue(_) => None,
        DoctorNextView::Finished(result) => Some(result),
    }
}

/// The user is told exactly `text` after `event`.
pub open spec fn doctor_says(stage: DoctorView, event: DoctorEventView, text: Seq<char>) -> bool {
    let told = doctor_next(stage, event).notices;
    told.len() == 1 && told[0].stream == Stream::Output && told[0].text == text
}

/// What is asked of the API: the state of the token, the first five zones, and a tunnel of the
/// account. Nothing is written.
pub proof fn doctor_only_reads(stage: DoctorView)
    ensures
        doctor_wants(stage) matches DoctorActionView::Verify(request) ==> request.method
            == Method::Get && request.path == "user/tokens/verify"@ && request.body is None,
        doctor_wants(stage) matches DoctorActionView::ListZones(request) ==> request.method
            == Method::Get && request.path == "zones?status=active&per_page=5"@ && request.body
            is None,
        doctor_wants(stage) matches DoctorActionView::CheckAccess(request) ==> (
        stage matches DoctorView::CheckingAccess(_, account) && request.method == Method::Get
            && request.path == "accounts/"@ + account + "/cfd_tunnel"@ + "?per_page=1"@
            && request.body is None),
        doctor_wants(stage) matches DoctorActionView::Open(token) ==> stage == DoctorView::Opening(
            token,
        ),
{
    reveal_strlit("zones?status=active&per_page=");
    reveal_strlit("zones?status=active&per_page=5");
    assert(decimal(5) =~= seq!['5']);
    assert("zones?status=active&per_page="@ + decimal(5)
        =~= "zones?status=active&per_page=5"@);
}

/// The look goes from `cloudflared` to the token, to the zones, to the right to run tunnels in the
/// account of the first zone, and to the registered tunnels. Where one of these is missing or
/// refused, the look goes on with what does not need it.
pub proof fn look_takes_its_course(
    token: Seq<char>,
    account: Seq<char>,
    text: Seq<char>,
    status: Seq<char>,
    zones: Seq<ZoneView>,
    error: Failure,
    granted: Result<(), Failure>,
)
    ensures
        doctor_wants(DoctorView::Detecting) == DoctorActionView::Detect,
        doctor_asks_after(DoctorView::Detecting, DoctorEventView::Detected(Ok(()))) == Some(
            DoctorActionView::AskVersion,
        ),
        doctor_asks_after(DoctorView::Detecting, DoctorEventView::Detected(Err(error))) == Some(
            DoctorActionView::LoadToken,
        ),
        doctor_asks_after(DoctorView::AskingVersion, DoctorEventView::Version(Ok(text))) == Some(
            DoctorActionView::LoadToken,
        ),
        doctor_asks_after(DoctorView::LoadingToken, DoctorEventView::Token(Ok(Some(token))))
            == Some(DoctorActionView::Open(token)),
        doctor_asks_after(DoctorView::LoadingToken, DoctorEventView::Token(Ok(None))) == Some(
            DoctorActionView::Refresh,
        ),
        doctor_asks_after(DoctorView::Opening(token), DoctorEventView::Opened(Ok(())))
            matches Some(DoctorActionView::Verify(_)),
        doctor_asks_after(
            DoctorView::Verifying(token),
            DoctorEventView::Verified(Ok(TokenStateView { status: "active"@ })),
        ) matches Some(DoctorActionView::ListZones(_)),
        status != "active"@ ==> doctor_asks_after(
            DoctorView::Verifying(token),
            DoctorEventView::Verified(Ok(TokenStateView { status })),
        ) == Some(DoctorActionView::Refresh),
        doctor_asks_after(DoctorView::Verifying(token), DoctorEventView::Verified(Err(error)))
            == Some(DoctorActionView::Refresh),
        zones.len() == 0 ==> doctor_asks_after(
            DoctorView::ListingZones(token),
            DoctorEventView::Zones(Ok(zones)),
        ) == Some(DoctorActionView::Refresh),
        zones.len() > 0 ==> (doctor_asks_after(
            DoctorView::ListingZones(token),
            DoctorEventView::Zones(Ok(zones)),
        ) matches Some(DoctorActionView::CheckAccess(request)) && request.path == "accounts/"@
            + zones[0].account.id + "/cfd_tunnel"@ + "?per_page=1"@),
        doctor_asks_after(DoctorView::ListingZones(token), DoctorEventView::Zones(Err(error)))
            == Some(DoctorActionView::Refresh),
        doctor_asks_after(
            DoctorView::CheckingAccess(token, account),
            DoctorEventView::Access(granted),
        ) == Some(DoctorActionView::Refresh),
{
}

/// What ends the look early is told as its error: a version that cannot be read, a token that
/// cannot be looked for, a client that cannot be set up, tunnels that cannot be looked at. A look
/// at the tunnels ends it well.
pub proof fn look_ends_with_errors_of_its_own(
    token: Seq<char>,
    error: Failure,
    records: Seq<RecordView>,
)
    ensures
        doctor_ends_with(DoctorView::AskingVersion, DoctorEventView::Version(Err(error))) == Some(
            Err::<(), Failure>(error),
        ),
        doctor_ends_with(DoctorView::LoadingToken, DoctorEventView::Token(Err(error))) == Some(
            Err::<(), Failure>(error),
        ),
        doctor_ends_with(DoctorView::Opening(token), DoctorEventView::Opened(Err(error))) == Some(
            Err::<(), Failure>(error),
        ),
        doctor_ends_with(DoctorView::Refreshing, DoctorEventView::Refreshed(Err(error))) == Some(
            Err::<(), Failure>(error),
        ),
        doctor_ends_with(DoctorView::Refreshing, DoctorEventView::Refreshed(Ok(records)))
            matches Some(Ok(_)),
{
}

/// What is not waited for changes nothing.
pub proof fn look_waits(stage: DoctorView, event: DoctorEventView)
    requires
        !doctor_awaits(stage, event),
    ensures
        doctor_next(stage, event).next == DoctorNextView::Continue(stage),
        doctor_next(stage, event).notices.len() == 0,
{
}

/// What is found is told as it is: a good thing with a tick, a doubtful one with a warning, and a
/// failure with a cross and all that is known of it.
pub proof fn findings_are_told(
    token: Seq<char>,
    account: Seq<char>,
    text: Seq<char>,
    status: Seq<char>,
    zones: Seq<ZoneView>,
    error: Failure,
)
    ensures
        doctor_says(
            DoctorView::Detecting,
            DoctorEventView::Detected(Err(error)),
            in_red("✗"@) + " "@ + ("cloudflared: "@ + error.line()),
        ),
        doctor_says(
            DoctorView::AskingVersion,
            DoctorEventView::Version(Ok(text)),
            in_green("✓"@) + " "@ + ("cloudflared: "@ + text),
        ),
        doctor_says(
            DoctorView::LoadingToken,
            DoctorEventView::Token(Ok(None)),
            in_yellow("⚠"@) + " "@ + "token: 未登录"@,
        ),
        doctor_says(
            DoctorView::Verifying(token),
            DoctorEventView::Verified(Ok(TokenStateView { status: "active"@ })),
            in_green("✓"@) + " "@ + "token: active"@,
        ),
        status != "active"@ ==> doctor_says(
            DoctorView::Verifying(token),
            DoctorEventView::Verified(Ok(TokenStateView { status })),
            in_yellow("⚠"@) + " "@ + ("token: "@ + status),
        ),
        doctor_says(
            DoctorView::Verifying(token),
            DoctorEventView::Verified(Err(error)),
            in_red("✗"@) + " "@ + ("token: "@ + error.line()),
        ),
        zones.len() == 0 ==> doctor_says(
            DoctorView::ListingZones(token),
            DoctorEventView::Zones(Ok(zones)),
            in_yellow("⚠"@) + " "@ + "zone 读取: 没有可见 zone"@,
        ),
        zones.len() > 0 ==> doctor_says(
            DoctorView::ListingZones(token),
            DoctorEventView::Zones(Ok(zones)),
            in_green("✓"@) + " "@ + ("zone 读取: "@ + decimal(zones.len()) + " 个，可见示例: "@
                + joined(Seq::new(zones.len(), |i: int| zones[i].name), ", "@)),
        ),
        doctor_says(
            DoctorView::ListingZones(token),
            DoctorEventView::Zones(Err(error)),
            in_red("✗"@) + " "@ + ("zone 读取: "@ + error.line()),
        ),
        doctor_says(
            DoctorView::CheckingAccess(token, account),
            DoctorEventView::Access(Ok(())),
            in_green("✓"@) + " "@ + ("tunnel 权限: 可访问 account "@ + account),
        ),
        doctor_says(
            DoctorView::CheckingAccess(token, account),
            DoctorEventView::Access(Err(error)),
            in_red("✗"@) + " "@ + ("tunnel 权限: "@ + error.line()),
        ),
{
    assert(Seq::new(zones.len(), |i: int| zones[i].name) =~= zones.map_values(
        |zone: ZoneView| zone.name,
    ));
}

/// At the end the registered tunnels are counted, and each one is told with its domain, its status
/// and the local service, one line after the other.
pub proof fn tunnels_are_told(records: Seq<RecordView>)
    ensures
        ({
            let told = doctor_next(
                DoctorView::Refreshing,
                DoctorEventView::Refreshed(Ok(records)),
            ).notices;
            &&& told.len() == records.len() + 1
            &&& forall|i: int| 0 <= i < told.len() ==> (#[trigger] told[i]).stream == Stream::Output
            &&& told[0].text == in_green("✓"@) + " "@ + ("已登记隧道: "@ + in_bold(
                decimal(records.len()),
            ))
            &&& forall|i: int|
                0 <= i < records.len() ==> #[trigger] told[i + 1].text == "  - "@ + records[i].domain
                    + " ["@ + (match records[i].status {
                    TunnelStatus::Running => "running"@,
                    TunnelStatus::Stopped => "stopped"@,
                    TunnelStatus::Failed => "failed"@,
                    TunnelStatus::Unknown => "unknown"@,
                }) + "] "@ + ((match records[i].local_protocol {
                    LocalProtocol::Http => "http"@,
                    LocalProtocol::Https => "https"@,
                    LocalProtocol::Tcp => "tcp"@,
                }) + "://127.0.0.1:"@ + decimal(records[i].local_port as nat))
        }),
{
}

/// The look begins with its head, which tells the home directory.
pub proof fn home_is_told_first(home: Seq<char>)
    ensures
        doctor_head(home) == seq!["PUNCH DOCTOR"@, "────────────"@, "home: "@ + home],
        doctor_moves(DoctorView::Detecting, doctor_head(home)).notices.len() == 3,
        doctor_moves(DoctorView::Detecting, doctor_head(home)).notices[2].text == "home: "@ + home,
        doctor_moves(DoctorView::Detecting, doctor_head(home)).next == DoctorNextView::Continue(
            DoctorView::Detecting,
        ),
{
}

} // verus!
