//! Removing a tunnel, here and at Cloudflare.

use crate::cloudflare::{
    bare, dns_path, tunnel_path, ApiRequest, CloudflareClient, Method, RequestView,
};
use crate::error::{failure, ErrorKind, Failure, Fault, PunchError};
use crate::output::{notice, silence, tick, ticked, line_on, Notice, NoticeView, Stream};
use crate::state::{removed_is_gone, StateView};
use crate::style::in_green;
use crate::text::{concat3, outcome};
use crate::types::{copy_text, RecordView, TunnelRecord};
use vstd::prelude::*;
use vstd::string::*;

verus! {

/// How far a removal has come.
#[derive(Debug, PartialEq, Eq)]
pub enum RemovalStage {
    /// The tunnel is looked for in the register.
    Finding,
    /// Its process is being stopped.
    Stopping(TunnelRecord),
    /// A token is looked for.
    LoadingToken(TunnelRecord),
    /// The client for the token is being set up.
    Opening(TunnelRecord, String),
    /// The DNS record is being deleted.
    DeletingDns(TunnelRecord, String, String),
    /// The tunnel is being deleted.
    DeletingTunnel(TunnelRecord, String),
    /// The tunnel is being taken out of the register.
    Forgetting(TunnelRecord),
    /// The log is being deleted.
    DeletingLog(TunnelRecord),
}

/// The model of [`RemovalStage`].
#[verifier::ext_equal]
pub enum RemovalStageView {
    Finding,
    Stopping(RecordView),
    LoadingToken(RecordView),
    Opening(RecordView, Seq<char>),
    DeletingDns(RecordView, Seq<char>, Seq<char>),
    DeletingTunnel(RecordView, Seq<char>),
    Forgetting(RecordView),
    DeletingLog(RecordView),
}

impl View for RemovalStage {
    type V = RemovalStageView;

    open spec fn view(&self) -> RemovalStageView {
        match self {
            RemovalStage::Finding => RemovalStageView::Finding,
            RemovalStage::Stopping(value) => RemovalStageView::Stopping(value@),
            RemovalStage::LoadingToken(value) => RemovalStageView::LoadingToken(value@),
            RemovalStage::Opening(a, b) => RemovalStageView::Opening(a@, b@),
            RemovalStage::DeletingDns(a, b, c) => RemovalStageView::DeletingDns(a@, b@, c@),
            RemovalStage::DeletingTunnel(a, b) => RemovalStageView::DeletingTunnel(a@, b@),
            RemovalStage::Forgetting(value) => RemovalStageView::Forgetting(value@),
            RemovalStage::DeletingLog(value) => RemovalStageView::DeletingLog(value@),
        }
    }
}

impl DeepView for RemovalStage {
    type V = RemovalStageView;

    open spec fn deep_view(&self) -> RemovalStageView {
        self@
    }
}

/// A tunnel is removed.
#[derive(Debug, PartialEq, Eq)]
pub struct Removal {
    pub domain: String,
    pub stage: RemovalStage,
}

/// The model of [`Removal`].
#[verifier::ext_equal]
pub struct RemovalView {
    pub domain: Seq<char>,
    pub stage: RemovalStageView,
}

impl View for Removal {
    type V = RemovalView;

    open spec fn view(&self) -> RemovalView {
        RemovalView {
            domain: self.domain@,
            stage: self.stage@,
        }
    }
}

impl DeepView for Removal {
    type V = RemovalView;

    open spec fn deep_view(&self) -> RemovalView {
        self@
    }
}

/// What a removal waits for.
#[derive(Debug, PartialEq, Eq)]
pub enum RemovalAction {
    /// The tunnel for the domain is looked for in the register.
    Find(String),
    /// The process of the tunnel for the domain is stopped.
    StopProcess(String),
    /// The stored token is looked for, and then the one in the environment.
    LoadToken,
    /// A client is set up for the token.
    Open(String),
    /// The API deletes the DNS record.
    DeleteDns(ApiRequest),
    /// The API deletes the tunnel.
    DeleteTunnel(ApiRequest),
    /// The tunnel for the domain is taken out of the register.
    Forget(String),
    /// The file is deleted, if it is there.
    DeleteLog(String),
}

/// The model of [`RemovalAction`].
#[verifier::ext_equal]
pub enum RemovalActionView {
    Find(Seq<char>),
    StopProcess(Seq<char>),
    LoadToken,
    Open(Seq<char>),
    DeleteDns(RequestView),
    DeleteTunnel(RequestView),
    Forget(Seq<char>),
    DeleteLog(Seq<char>),
}

impl View for RemovalAction {
    type V = RemovalActionView;

    open spec fn view(&self) -> RemovalActionView {
        match self {
            RemovalAction::Find(value) => RemovalActionView::Find(value@),
            RemovalAction::StopProcess(value) => RemovalActionView::StopProcess(value@),
            RemovalAction::LoadToken => RemovalActionView::LoadToken,
            RemovalAction::Open(value) => RemovalActionView::Open(value@),
            RemovalAction::DeleteDns(value) => RemovalActionView::DeleteDns(value@),
            RemovalAction::DeleteTunnel(value) => RemovalActionView::DeleteTunnel(value@),
            RemovalAction::Forget(value) => RemovalActionView::Forget(value@),
            RemovalAction::DeleteLog(value) => RemovalActionView::DeleteLog(value@),
        }
    }
}

impl DeepView for RemovalAction {
    type V = RemovalActionView;

    open spec fn deep_view(&self) -> RemovalActionView {
        self@
    }
}

/// What came of it.
#[derive(Debug)]
pub enum RemovalEvent {
    Found(Result<Option<TunnelRecord>, PunchError>),
    Stopped(Result<(), PunchError>),
    Token(Result<Option<String>, PunchError>),
    Opened(Result<(), PunchError>),
    DnsDeleted(Result<(), PunchError>),
    TunnelDeleted(Result<(), PunchError>),
    Forgotten(Result<(), PunchError>),
    LogDeleted,
}

/// The model of [`RemovalEvent`].
#[verifier::ext_equal]
pub enum RemovalEventView {
    Found(Result<Option<RecordView>, Failure>),
    Stopped(Result<(), Failure>),
    Token(Result<Option<Seq<char>>, Failure>),
    Opened(Result<(), Failure>),
    DnsDeleted(Result<(), Failure>),
    TunnelDeleted(Result<(), Failure>),
    Forgotten(Result<(), Failure>),
    LogDeleted,
}

impl View for RemovalEvent {
    type V = RemovalEventView;

    open spec fn view(&self) -> RemovalEventView {
        match self {
            RemovalEvent::Found(value) => RemovalEventView::Found(outcome(*value)),
            RemovalEvent::Stopped(value) => RemovalEventView::Stopped(outcome(*value)),
            RemovalEvent::Token(value) => RemovalEventView::Token(outcome(*value)),
            RemovalEvent::Opened(value) => RemovalEventView::Opened(outcome(*value)),
            RemovalEvent::DnsDeleted(value) => RemovalEventView::DnsDeleted(outcome(*value)),
            RemovalEvent::TunnelDeleted(value) => RemovalEventView::TunnelDeleted(outcome(*value)),
            RemovalEvent::Forgotten(value) => RemovalEventView::Forgotten(outcome(*value)),
            RemovalEvent::LogDeleted => RemovalEventView::LogDeleted,
        }
    }
}

impl DeepView for RemovalEvent {
    type V = RemovalEventView;

    open spec fn deep_view(&self) -> RemovalEventView {
        self@
    }
}

/// How a removal goes on.
#[derive(Debug)]
pub enum RemovalNext {
    Continue(Removal),
    Finished(Result<(), PunchError>),
}

/// The model of [`RemovalNext`].
#[verifier::ext_equal]
pub enum RemovalNextView {
    Continue(RemovalView),
    Finished(Result<(), Failure>),
}

impl View for RemovalNext {
    type V = RemovalNextView;

    open spec fn view(&self) -> RemovalNextView {
        match self {
            RemovalNext::Continue(value) => RemovalNextView::Continue(value@),
            RemovalNext::Finished(value) => RemovalNextView::Finished(outcome(*value)),
        }
    }
}

impl DeepView for RemovalNext {
    type V = RemovalNextView;

    open spec fn deep_view(&self) -> RemovalNextView {
        self@
    }
}

/// A step of a removal: what the user is told, and how it goes on.
#[derive(Debug)]
pub struct RemovalStep {
    pub notices: Vec<Notice>,
    pub next: RemovalNext,
}

/// The model of [`RemovalStep`].
#[verifier::ext_equal]
pub struct RemovalStepView {
    pub notices: Seq<NoticeView>,
    pub next: RemovalNextView,
}

impl View for RemovalStep {
    type V = RemovalStepView;

    open spec fn view(&self) -> RemovalStepView {
        RemovalStepView {
            notices: self.notices.deep_view(),
            next: self.next@,
        }
    }
}

impl DeepView for RemovalStep {
    type V = RemovalStepView;

    open spec fn deep_view(&self) -> RemovalStepView {
        self@
    }
}

/// What a removal waits for.
pub open spec fn removal_wants(removal: RemovalView) -> RemovalActionView {
    match removal.stage {
        RemovalStageView::Finding => RemovalActionView::Find(removal.domain),
        RemovalStageView::Stopping(_) => RemovalActionView::StopProcess(removal.domain),
        RemovalStageView::LoadingToken(_) => RemovalActionView::LoadToken,
        RemovalStageView::Opening(_, token) => RemovalActionView::Open(token),
        RemovalStageView::DeletingDns(record, _, id) => RemovalActionView::DeleteDns(
            bare(Method::Delete, dns_path(record.zone_id) + "/"@ + id),
        ),
        RemovalStageView::DeletingTunnel(record, _) => RemovalActionView::DeleteTunnel(
            bare(Method::Delete, tunnel_path(record.account_id, record.tunnel_id)),
        ),
        RemovalStageView::Forgetting(_) => RemovalActionView::Forget(removal.domain),
        RemovalStageView::DeletingLog(record) => RemovalActionView::DeleteLog(record.log_file),
    }
}

/// The removal ends with `error`.
pub open spec fn removal_fails(error: Failure) -> RemovalStepView {
    RemovalStepView { notices: Seq::empty(), next: RemovalNextView::Finished(Err(error)) }
}

/// The removal goes on with `stage`.
pub open spec fn removal_moves(domain: Seq<char>, stage: RemovalStageView) -> RemovalStepView {
    RemovalStepView {
        notices: Seq::empty(),
        next: RemovalNextView::Continue(RemovalView { domain, stage }),
    }
}

/// A step of a removal. What was not waited for changes nothing.
pub open spec fn removal_next(removal: RemovalView, event: RemovalEventView) -> RemovalStepView {
    let domain = removal.domain;
    match (removal.stage, event) {
        (RemovalStageView::Finding, RemovalEventView::Found(found)) => match found {
            Err(error) => removal_fails(error),
            Ok(None) => removal_fails(failure(Fault::UnknownTunnel(domain))),
            Ok(Some(record)) => removal_moves(domain, RemovalStageView::Stopping(record)),
        },
        (RemovalStageView::Stopping(record), RemovalEventView::Stopped(done)) => match done {
            Err(error) => removal_fails(error),
            Ok(_) => removal_moves(domain, RemovalStageView::LoadingToken(record)),
        },
        (RemovalStageView::LoadingToken(record), RemovalEventView::Token(lookup)) => match lookup {
            Err(error) => removal_fails(error),
            Ok(None) => removal_fails(failure(Fault::NotLoggedIn)),
            Ok(Some(token)) => removal_moves(domain, RemovalStageView::Opening(record, token)),
        },
        (RemovalStageView::Opening(record, token), RemovalEventView::Opened(opened)) => match opened {
            Err(error) => removal_fails(error),
            Ok(_) => match record.dns_record_id {
                Some(id) => removal_moves(
                    domain,
                    RemovalStageView::DeletingDns(record, token, id),
                ),
                None => removal_moves(domain, RemovalStageView::DeletingTunnel(record, token)),
            },
        },
        (
            RemovalStageView::DeletingDns(record, token, _),
            RemovalEventView::DnsDeleted(done),
        ) => match done {
            Err(error) => removal_fails(error),
            Ok(_) => removal_moves(domain, RemovalStageView::DeletingTunnel(record, token)),
        },
        (
            RemovalStageView::DeletingTunnel(record, _),
            RemovalEventView::TunnelDeleted(done),
        ) => match done {
            Err(error) => removal_fails(error),
            Ok(_) => removal_moves(domain, RemovalStageView::Forgetting(record)),
        },
        (RemovalStageView::Forgetting(record), RemovalEventView::Forgotten(done)) => match done {
            Err(error) => removal_fails(error),
            Ok(_) => removal_moves(domain, RemovalStageView::DeletingLog(record)),
        },
        (RemovalStageView::DeletingLog(_), RemovalEventView::LogDeleted) => RemovalStepView {
            notices: seq![
                line_on(
                    Stream::Output,
                    ticked("已删除 "@ + domain + "，远端资源和本地状态已清理"@),
                ),
            ],
            next: RemovalNextView::Finished(Ok(())),
        },
        _ => removal_moves(domain, removal.stage),
    }
}

impl RemovalStep {
    /// Ends with `error`.
    fn failed(error: PunchError) -> (step: RemovalStep)
        ensures
            step@ == removal_fails(error@),
    {
        RemovalStep { notices: silence(), next: RemovalNext::Finished(Err(error)) }
    }

    /// Goes on with `stage`.
    fn moved(domain: String, stage: RemovalStage) -> (step: RemovalStep)
        ensures
            step@ == removal_moves(domain@, stage@),
    {
        RemovalStep {
            notices: silence(),
            next: RemovalNext::Continue(Removal { domain, stage }),
        }
    }
}

impl Removal {
    /// The removal of the tunnel for `domain`.
    pub fn begin(domain: &str) -> (removal: Removal)
        ensures
            removal@ == (RemovalView { domain: domain@, stage: RemovalStageView::Finding }),
    {
        Removal { domain: domain.to_owned(), stage: RemovalStage::Finding }
    }

    /// What the removal waits for.
    pub fn wants(&self) -> (action: RemovalAction)
        ensures
            action@ == removal_wants(self@),
            action@ matches RemovalActionView::Find(domain) ==> domain == self.domain@,
            action@ matches RemovalActionView::StopProcess(domain) ==> domain == self.domain@,
            action@ matches RemovalActionView::Forget(domain) ==> domain == self.domain@,
    {
        match &self.stage {
            RemovalStage::Finding => RemovalAction::Find(self.domain.clone()),
            RemovalStage::Stopping(_) => RemovalAction::StopProcess(self.domain.clone()),
            RemovalStage::LoadingToken(_) => RemovalAction::LoadToken,
            RemovalStage::Opening(_, token) => RemovalAction::Open(token.clone()),
            RemovalStage::DeletingDns(record, token, id) => RemovalAction::DeleteDns(
                CloudflareClient::new(token.clone()).delete_dns_record(
                    record.zone_id.as_str(),
                    id.as_str(),
                ),
            ),
            RemovalStage::DeletingTunnel(record, token) => RemovalAction::DeleteTunnel(
                CloudflareClient::new(token.clone()).delete_tunnel(
                    record.account_id.as_str(),
                    record.tunnel_id.as_str(),
                ),
            ),
            RemovalStage::Forgetting(_) => RemovalAction::Forget(self.domain.clone()),
            RemovalStage::DeletingLog(record) => RemovalAction::DeleteLog(record.log_file.clone()),
        }
    }

    /// A step: `event` is what came of what was waited for.
    pub fn next(self, event: RemovalEvent) -> (step: RemovalStep)
        ensures
            step@ == removal_next(self@, event@),
    {
        let Removal { domain, stage } = self;
        match (stage, event) {
            (RemovalStage::Finding, RemovalEvent::Found(found)) => match found {
                Err(error) => RemovalStep::failed(error),
                Ok(None) => RemovalStep::failed(
                    PunchError::new(ErrorKind::UnknownTunnel(domain)),
                ),
                Ok(Some(record)) => RemovalStep::moved(domain, RemovalStage::Stopping(record)),
            },
            (RemovalStage::Stopping(record), RemovalEvent::Stopped(done)) => match done {
                Err(error) => RemovalStep::failed(error),
                Ok(_) => RemovalStep::moved(domain, RemovalStage::LoadingToken(record)),
            },
            (RemovalStage::LoadingToken(record), RemovalEvent::Token(lookup)) => match lookup {
                Err(error) => RemovalStep::failed(error),
                Ok(None) => RemovalStep::failed(PunchError::new(ErrorKind::NotLoggedIn)),
                Ok(Some(token)) => RemovalStep::moved(
                    domain,
                    RemovalStage::Opening(record, token),
                ),
            },
            (RemovalStage::Opening(record, token), RemovalEvent::Opened(opened)) => match opened {
                Err(error) => RemovalStep::failed(error),
                Ok(_) => match copy_text(&record.dns_record_id) {
                    Some(id) => RemovalStep::moved(
                        domain,
                        RemovalStage::DeletingDns(record, token, id),
                    ),
                    None => RemovalStep::moved(
                        domain,
                        RemovalStage::DeletingTunnel(record, token),
                    ),
                },
            },
            (
                RemovalStage::DeletingDns(record, token, _),
                RemovalEvent::DnsDeleted(done),
            ) => match done {
                Err(error) => RemovalStep::failed(error),
                Ok(_) => RemovalStep::moved(domain, RemovalStage::DeletingTunnel(record, token)),
            },
            (
                RemovalStage::DeletingTunnel(record, _),
                RemovalEvent::TunnelDeleted(done),
            ) => match done {
                Err(error) => RemovalStep::failed(error),
                Ok(_) => RemovalStep::moved(domain, RemovalStage::Forgetting(record)),
            },
            (RemovalStage::Forgetting(record), RemovalEvent::Forgotten(done)) => match done {
                Err(error) => RemovalStep::failed(error),
                Ok(_) => RemovalStep::moved(domain, RemovalStage::DeletingLog(record)),
            },
            (RemovalStage::DeletingLog(_), RemovalEvent::LogDeleted) => {
                let text = concat3(
                    "已删除 ",
                    domain.as_str(),
                    "，远端资源和本地状态已清理",
                );
                RemovalStep {
                    notices: notice(Stream::Output, tick(text.as_str())),
                    next: RemovalNext::Finished(Ok(())),
                }
            },
            (stage, _) => RemovalStep::moved(domain, stage),
        }
    }
}

/// How many steps a stage is from the end of the removal, at most.
pub open spec fn removal_distance(stage: RemovalStageView) -> nat {
    match stage {
        RemovalStageView::Finding => 8,
        RemovalStageView::Stopping(_) => 7,
        RemovalStageView::LoadingToken(_) => 6,
        RemovalStageView::Opening(_, _) => 5,
        RemovalStageView::DeletingDns(_, _, _) => 4,
        RemovalStageView::DeletingTunnel(_, _) => 3,
        RemovalStageView::Forgetting(_) => 2,
        RemovalStageView::DeletingLog(_) => 1,
    }
}

/// `event` is of the kind that `stage` waits for.
pub open spec fn removal_awaits(stage: RemovalStageView, event: RemovalEventView) -> bool {
    match stage {
        RemovalStageView::Finding => event is Found,
        RemovalStageView::Stopping(_) => event is Stopped,
        RemovalStageView::LoadingToken(_) => event is Token,
        RemovalStageView::Opening(_, _) => event is Opened,
        RemovalStageView::DeletingDns(_, _, _) => event is DnsDeleted,
        RemovalStageView::DeletingTunnel(_, _) => event is TunnelDeleted,
        RemovalStageView::Forgetting(_) => event is Forgotten,
        RemovalStageView::DeletingLog(_) => event is LogDeleted,
    }
}

/// A removal comes to an end: what is waited for brings it nearer.
pub proof fn removal_ends(removal: RemovalView, event: RemovalEventView)
    requires
        removal_awaits(removal.stage, event),
    ensures
        removal_next(removal, event).next matches RemovalNextView::Continue(after)
            ==> removal_distance(after.stage) < removal_distance(removal.stage),
{
}

/// A tunnel stays registered until it is deleted at Cloudflare: the only step that goes on to
/// take it out of the register is the one after the API has deleted it.
pub proof fn forgotten_only_when_deleted(
    removal: RemovalView,
    event: RemovalEventView,
    after: RemovalView,
)
    requires
        removal.stage !is Forgetting,
        removal_next(removal, event).next == RemovalNextView::Continue(after),
        after.stage is Forgetting,
    ensures
        removal.stage is DeletingTunnel,
        event matches RemovalEventView::TunnelDeleted(Ok(_)),
{
}

/// Before the tunnel is deleted its DNS record is, where it has one.
pub proof fn dns_record_goes_first(
    removal: RemovalView,
    event: RemovalEventView,
    after: RemovalView,
    record: RecordView,
    token: Seq<char>,
)
    requires
        removal_next(removal, event).next == RemovalNextView::Continue(after),
        after.stage == RemovalStageView::DeletingTunnel(record, token),
        removal.stage !is DeletingTunnel,
        record.dns_record_id is Some,
    ensures
        removal.stage is DeletingDns,
        event matches RemovalEventView::DnsDeleted(Ok(_)),
{
}

/// What `removal` asks for after `event`, unless it is over.
pub open spec fn removal_asks_after(removal: RemovalView, event: RemovalEventView) -> Option<
    RemovalActionView,
> {
    match removal_next(removal, event).next {
        RemovalNextView::Continue(after) => Some(removal_wants(after)),
        RemovalNextView::Finished(_) => None,
    }
}

/// How `removal` ends with `event`, if it does.
pub open spec fn removal_ends_with(removal: RemovalView, event: RemovalEventView) -> Option<
    Result<(), Failure>,
> {
    match removal_next(removal, event).next {
        RemovalNextView::Continue(_) => None,
        RemovalNextView::Finished(result) => Some(result),
    }
}

/// The tunnel that a removal has found.
pub open spec fn removal_found(stage: RemovalStageView) -> Option<RecordView> {
    match stage {
        RemovalStageView::Finding => None,
        RemovalStageView::Stopping(record) => Some(record),
        RemovalStageView::LoadingToken(record) => Some(record),
        RemovalStageView::Opening(record, _) => Some(record),
        RemovalStageView::DeletingDns(record, _, _) => Some(record),
        RemovalStageView::DeletingTunnel(record, _) => Some(record),
        RemovalStageView::Forgetting(record) => Some(record),
        RemovalStageView::DeletingLog(record) => Some(record),
    }
}

/// What is looked for, stopped and taken out of the register is the tunnel for the domain that the
/// removal was begun with.
pub proof fn removal_keeps_to_its_domain(removal: RemovalView, event: RemovalEventView)
    ensures
        removal_wants(removal) matches RemovalActionView::Find(domain) ==> domain
            == removal.domain,
        removal_wants(removal) matches RemovalActionView::StopProcess(domain) ==> domain
            == removal.domain,
        removal_wants(removal) matches RemovalActionView::Forget(domain) ==> domain
            == removal.domain,
        removal_next(removal, event).next matches RemovalNextView::Continue(after)
            ==> after.domain == removal.domain,
{
}

/// What is deleted is what was recorded of the tunnel that was found: its DNS record in its zone,
/// the tunnel in its account, and its log. The tunnel that was found stays the same.
pub proof fn removal_deletes_what_was_recorded(removal: RemovalView, event: RemovalEventView)
    ensures
        removal_wants(removal) matches RemovalActionView::DeleteTunnel(request) ==> (removal_found(
            removal.stage,
        ) matches Some(record) && request.method == Method::Delete && request.body is None
            && request.path == "accounts/"@ + record.account_id + "/cfd_tunnel"@ + "/"@
            + record.tunnel_id),
        removal_wants(removal) matches RemovalActionView::DeleteDns(request) ==> (
        removal.stage matches RemovalStageView::DeletingDns(record, _, id) && request.method
            == Method::Delete && request.body is None && request.path == "zones/"@ + record.zone_id
            + "/dns_records"@ + "/"@ + id),
        removal_wants(removal) matches RemovalActionView::DeleteLog(file) ==> (removal_found(
            removal.stage,
        ) matches Some(record) && file == record.log_file),
        removal_next(removal, event).next matches RemovalNextView::Continue(after) ==> match (
            removal_found(removal.stage),
            removal_found(after.stage),
        ) {
            (Some(before), found) => found == Some(before),
            (None, Some(found)) => event == RemovalEventView::Found(Ok(Some(found))),
            (None, None) => true,
        },
{
}

/// A removal finds the tunnel, stops its process, and deletes its DNS record, if it has one, and
/// the tunnel, with the token that it was given. Then the tunnel is forgotten, and its log deleted.
pub proof fn removal_takes_its_course(
    domain: Seq<char>,
    record: RecordView,
    token: Seq<char>,
    id: Seq<char>,
)
    ensures
        removal_wants(RemovalView { domain, stage: RemovalStageView::Finding })
            == RemovalActionView::Find(domain),
        removal_asks_after(
            RemovalView { domain, stage: RemovalStageView::Finding },
            RemovalEventView::Found(Ok(Some(record))),
        ) == Some(RemovalActionView::StopProcess(domain)),
        removal_asks_after(
            RemovalView { domain, stage: RemovalStageView::Stopping(record) },
            RemovalEventView::Stopped(Ok(())),
        ) == Some(RemovalActionView::LoadToken),
        removal_asks_after(
            RemovalView { domain, stage: RemovalStageView::LoadingToken(record) },
            RemovalEventView::Token(Ok(Some(token))),
        ) == Some(RemovalActionView::Open(token)),
        ({
            let opened = removal_asks_after(
                RemovalView { domain, stage: RemovalStageView::Opening(record, token) },
                RemovalEventView::Opened(Ok(())),
            );
            match record.dns_record_id {
                Some(id) => opened matches Some(RemovalActionView::DeleteDns(request))
                    && request.path == "zones/"@ + record.zone_id + "/dns_records"@ + "/"@ + id,
                None => opened is Some && opened->Some_0 is DeleteTunnel,
            }
        }),
        removal_asks_after(
            RemovalView { domain, stage: RemovalStageView::DeletingDns(record, token, id) },
            RemovalEventView::DnsDeleted(Ok(())),
        ) matches Some(RemovalActionView::DeleteTunnel(_)),
        removal_asks_after(
            RemovalView { domain, stage: RemovalStageView::DeletingTunnel(record, token) },
            RemovalEventView::TunnelDeleted(Ok(())),
        ) == Some(RemovalActionView::Forget(domain)),
        removal_asks_after(
            RemovalView { domain, stage: RemovalStageView::Forgetting(record) },
            RemovalEventView::Forgotten(Ok(())),
        ) == Some(RemovalActionView::DeleteLog(record.log_file)),
        removal_ends_with(
            RemovalView { domain, stage: RemovalStageView::DeletingLog(record) },
            RemovalEventView::LogDeleted,
        ) matches Some(Ok(_)),
{
}

/// `event` says that what was asked for went wrong with `error`.
pub open spec fn removal_went_wrong(event: RemovalEventView, error: Failure) -> bool {
    match event {
        RemovalEventView::Found(done) => done matches Err(e) && e == error,
        RemovalEventView::Stopped(done) => done matches Err(e) && e == error,
        RemovalEventView::Token(done) => done matches Err(e) && e == error,
        RemovalEventView::Opened(done) => done matches Err(e) && e == error,
        RemovalEventView::DnsDeleted(done) => done matches Err(e) && e == error,
        RemovalEventView::TunnelDeleted(done) => done matches Err(e) && e == error,
        RemovalEventView::Forgotten(done) => done matches Err(e) && e == error,
        RemovalEventView::LogDeleted => false,
    }
}

/// The first thing that goes wrong ends the removal with its own error. A tunnel that is not
/// registered, and a token that is missing, are errors too.
pub proof fn first_error_ends_removal(
    removal: RemovalView,
    event: RemovalEventView,
    error: Failure,
    record: RecordView,
)
    ensures
        removal_awaits(removal.stage, event) && removal_went_wrong(event, error)
            ==> removal_ends_with(removal, event) == Some(Err::<(), Failure>(error)),
        removal_ends_with(
            RemovalView { domain: removal.domain, stage: RemovalStageView::Finding },
            RemovalEventView::Found(Ok(None)),
        ) == Some(
            Err::<(), Failure>(
                Failure { kind: Fault::UnknownTunnel(removal.domain), causes: Seq::empty() },
            ),
        ),
        removal_ends_with(
            RemovalView {
                domain: removal.domain,
                stage: RemovalStageView::LoadingToken(record),
            },
            RemovalEventView::Token(Ok(None)),
        ) == Some(
            Err::<(), Failure>(Failure { kind: Fault::NotLoggedIn, causes: Seq::empty() }),
        ),
{
}

/// What is not waited for changes nothing.
pub proof fn removal_waits(removal: RemovalView, event: RemovalEventView)
    requires
        !removal_awaits(removal.stage, event),
    ensures
        removal_next(removal, event).next == RemovalNextView::Continue(removal),
        removal_next(removal, event).notices.len() == 0,
{
}

/// The user is told once, when the tunnel is gone, and is told its domain.
pub proof fn removal_is_told(removal: RemovalView, event: RemovalEventView)
    ensures
        removal_next(removal, event).next matches RemovalNextView::Finished(Ok(_)) ==> {
            &&& removal_next(removal, event).notices.len() == 1
            &&& removal_next(removal, event).notices[0].stream == Stream::Output
            &&& removal_next(removal, event).notices[0].text == in_green("✓"@) + " "@ + ("已删除 "@
                + removal.domain + "，远端资源和本地状态已清理"@)
        },
        removal_next(removal, event).next !is Finished || removal_next(
            removal,
            event,
        ).next->Finished_0 is Err ==> removal_next(removal, event).notices.len() == 0,
{
}

/// How far the removal of the tunnel for `domain` is after `events`.
pub open spec fn removal_after(domain: Seq<char>, events: Seq<RemovalEventView>) -> RemovalNextView
    decreases events.len(),
{
    if events.len() == 0 {
        RemovalNextView::Continue(RemovalView { domain, stage: RemovalStageView::Finding })
    } else {
        match removal_after(domain, events.drop_last()) {
            RemovalNextView::Continue(removal) => removal_next(removal, events.last()).next,
            finished => finished,
        }
    }
}

/// What the removal of the tunnel for `domain` asks for at the place `i` of `events`, if it is not
/// over by then.
pub open spec fn removal_asked(
    domain: Seq<char>,
    events: Seq<RemovalEventView>,
    i: int,
) -> Option<RemovalActionView> {
    match removal_after(domain, events.take(i)) {
        RemovalNextView::Continue(removal) => Some(removal_wants(removal)),
        RemovalNextView::Finished(_) => None,
    }
}

/// At the place `i` of `events` the tunnel for `domain` was asked for, and `record` was found.
pub open spec fn found_at(
    domain: Seq<char>,
    events: Seq<RemovalEventView>,
    i: int,
    record: RecordView,
) -> bool {
    &&& 0 <= i < events.len()
    &&& removal_asked(domain, events, i) == Some(RemovalActionView::Find(domain))
    &&& events[i] == RemovalEventView::Found(Ok(Some(record)))
}

/// At the place `i` of `events` the API was asked to delete the tunnel of `record`, and did.
pub open spec fn deleted_at(
    domain: Seq<char>,
    events: Seq<RemovalEventView>,
    i: int,
    record: RecordView,
) -> bool {
    &&& 0 <= i < events.len()
    &&& removal_asked(domain, events, i) matches Some(RemovalActionView::DeleteTunnel(request))
        && request.method == Method::Delete && request.path == "accounts/"@ + record.account_id
        + "/cfd_tunnel"@ + "/"@ + record.tunnel_id
    &&& events[i] matches RemovalEventView::TunnelDeleted(Ok(_))
}

/// At the place `i` of `events` the tunnel for `domain` was to be taken out of the register, and
/// was.
pub open spec fn forgotten_at(
    domain: Seq<char>,
    events: Seq<RemovalEventView>,
    i: int,
) -> bool {
    &&& 0 <= i < events.len()
    &&& removal_asked(domain, events, i) == Some(RemovalActionView::Forget(domain))
    &&& events[i] matches RemovalEventView::Forgotten(Ok(_))
}

/// What holds of a removal of the tunnel for `domain` after `events`, by how far it has come.
spec fn removal_stands(domain: Seq<char>, events: Seq<RemovalEventView>) -> bool {
    match removal_after(domain, events) {
        RemovalNextView::Continue(removal) => {
            &&& removal.domain == domain
            &&& removal_found(removal.stage) matches Some(record) ==> exists|i: int|
                found_at(domain, events, i, record)
            &&& removal.stage matches RemovalStageView::Forgetting(record) ==> exists|i: int|
                deleted_at(domain, events, i, record)
            &&& removal.stage matches RemovalStageView::DeletingLog(record) ==> (exists|i: int|
                deleted_at(domain, events, i, record)) && (exists|i: int|
                forgotten_at(domain, events, i))
        },
        RemovalNextView::Finished(result) => result is Ok ==> (exists|record: RecordView, i: int, j:
            int|
            #![trigger found_at(domain, events, i, record), deleted_at(domain, events, j, record)]
            found_at(domain, events, i, record) && deleted_at(domain, events, j, record)) && (
        exists|i: int| forgotten_at(domain, events, i)),
    }
}

/// What was done stays done when more happens.
proof fn lemma_done_stays(
    domain: Seq<char>,
    events: Seq<RemovalEventView>,
    i: int,
    record: RecordView,
)
    requires
        events.len() > 0,
        0 <= i < events.len() - 1,
    ensures
        found_at(domain, events.drop_last(), i, record) ==> found_at(domain, events, i, record),
        deleted_at(domain, events.drop_last(), i, record) ==> deleted_at(
            domain,
            events,
            i,
            record,
        ),
        forgotten_at(domain, events.drop_last(), i) ==> forgotten_at(domain, events, i),
{
    assert(events.drop_last().take(i) =~= events.take(i));
}

/// What holds of a removal holds after each step.
proof fn lemma_removal_stands(domain: Seq<char>, events: Seq<RemovalEventView>)
    ensures
        removal_stands(domain, events),
    decreases events.len(),
{
    if events.len() > 0 {
        let before = events.drop_last();
        let last = events.len() - 1;
        lemma_removal_stands(domain, before);
        assert(events.take(last) =~= before);
        assert(events[last] == events.last());
        assert forall|i: int, record: RecordView| #[trigger]
            found_at(domain, before, i, record) implies found_at(domain, events, i, record) by {
            lemma_done_stays(domain, events, i, record);
        }
        assert forall|i: int, record: RecordView| #[trigger]
            deleted_at(domain, before, i, record) implies deleted_at(domain, events, i, record) by {
            lemma_done_stays(domain, events, i, record);
        }
        assert forall|i: int| #[trigger] forgotten_at(domain, before, i) implies forgotten_at(
            domain,
            events,
            i,
        ) by {
            lemma_done_stays(domain, events, i, arbitrary());
        }
        match removal_after(domain, before) {
            RemovalNextView::Continue(removal) => {
                removal_keeps_to_its_domain(removal, events.last());
                removal_deletes_what_was_recorded(removal, events.last());
                assert(removal_asked(domain, events, last) == Some(removal_wants(removal)));
                match removal_next(removal, events.last()).next {
                    RemovalNextView::Continue(after) => {
                        if let Some(record) = removal_found(after.stage) {
                            if removal_found(removal.stage) is None {
                                assert(found_at(domain, events, last, record));
                            } else {
                                let i = choose|i: int| found_at(domain, before, i, record);
                                assert(found_at(domain, events, i, record));
                            }
                            if after.stage is Forgetting && removal.stage !is Forgetting {
                                forgotten_only_when_deleted(removal, events.last(), after);
                                assert(deleted_at(domain, events, last, record));
                            } else if after.stage is Forgetting || after.stage is DeletingLog {
                                let j = choose|j: int| deleted_at(domain, before, j, record);
                                assert(deleted_at(domain, events, j, record));
                            }
                            if after.stage is DeletingLog {
                                if removal.stage is DeletingLog {
                                    let k = choose|k: int| forgotten_at(domain, before, k);
                                    assert(forgotten_at(domain, events, k));
                                } else {
                                    assert(forgotten_at(domain, events, last));
                                }
                            }
                        }
                    },
                    RemovalNextView::Finished(result) => {
                        if result is Ok {
                            let record = removal_found(removal.stage)->Some_0;
                            let i = choose|i: int| found_at(domain, before, i, record);
                            let j = choose|j: int| deleted_at(domain, before, j, record);
                            let k = choose|k: int| forgotten_at(domain, before, k);
                            assert(found_at(domain, events, i, record));
                            assert(deleted_at(domain, events, j, record));
                            assert(forgotten_at(domain, events, k));
                        }
                    },
                }
            },
            RemovalNextView::Finished(result) => {
                if result is Ok {
                    let (record, i, j) = choose|record: RecordView, i: int, j: int|
                        #![trigger found_at(domain, before, i, record), deleted_at(domain, before, j, record)]
                        found_at(domain, before, i, record) && deleted_at(
                            domain,
                            before,
                            j,
                            record,
                        );
                    let k = choose|k: int| forgotten_at(domain, before, k);
                    assert(found_at(domain, events, i, record));
                    assert(deleted_at(domain, events, j, record));
                    assert(forgotten_at(domain, events, k));
                }
            },
        }
    }
}

/// A removal that ends well has found the tunnel for its domain, had the API delete that tunnel,
/// and had the tunnel for its domain taken out of the register: there it is not found any more,
/// whatever the register holds.
pub proof fn removal_that_ends_well_has_removed(
    domain: Seq<char>,
    events: Seq<RemovalEventView>,
    state: StateView,
)
    requires
        removal_after(domain, events) matches RemovalNextView::Finished(Ok(_)),
    ensures
        exists|record: RecordView, i: int, j: int|
            #![trigger found_at(domain, events, i, record), deleted_at(domain, events, j, record)]
            found_at(domain, events, i, record) && deleted_at(domain, events, j, record),
        exists|i: int| #[trigger]
            forgotten_at(domain, events, i) && (removal_asked(domain, events, i) matches Some(
                RemovalActionView::Forget(asked),
            ) && state.removed(asked).find(domain) is None),
{
    lemma_removal_stands(domain, events);
    let i = choose|i: int| forgotten_at(domain, events, i);
    assert(forgotten_at(domain, events, i));
    removed_is_gone(state, domain, domain);
}

} // verus!
