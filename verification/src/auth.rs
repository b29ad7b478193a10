//! Signing in: a token is typed or given, checked, and kept.

use crate::cloudflare::{
    bare, ApiRequest, CloudflareClient, Method, RequestView, TokenStateView, TokenVerifyResult,
    UserProfile, UserView,
};
use crate::error::{failure, ErrorKind, Failure, Fault, PunchError};
use crate::output::{
    line_on, notice, silence, tell, tick, ticked, warn, warned, Notice, NoticeView, Stream,
};
use crate::storage::{path_parts, path_text, show_path, CredentialBackend, PunchDirs};
use crate::style::{in_green, in_yellow};
use crate::text::{
    blank, concat2, is_whitespace, outcome, same_text, trim, trimmed, trimming_takes_margins_off,
};
use std::path::PathBuf;
use vstd::prelude::*;
use vstd::string::*;

verus! {

/// The token that was typed: white space around it does not count, and it may not be blank.
pub open spec fn typed_token(raw: Seq<char>) -> Result<Seq<char>, Failure> {
    if trimmed(raw).len() == 0 {
        Err(failure(Fault::EmptyToken))
    } else {
        Ok(trimmed(raw))
    }
}

/// The token that was typed.
pub fn prompt_token(raw: &str) -> (token: Result<String, PunchError>)
    ensures
        outcome(token) == typed_token(raw@),
{
    let token = trim(raw);
    if token.as_str().is_empty() {
        Err(PunchError::new(ErrorKind::EmptyToken))
    } else {
        Ok(token)
    }
}

/// `text` shows a path with the components `parts`.
pub open spec fn shows_path(text: Seq<char>, parts: Seq<Seq<u8>>) -> bool {
    exists|path: PathBuf| #[trigger] path_parts(path) == parts && path_text(path) == text
}

/// How far signing in has come.
#[derive(Debug, PartialEq, Eq)]
pub enum AuthStage {
    /// The token has yet to be typed.
    Prompting,
    /// The client for the token is being set up.
    Opening(String),
    /// The token is being checked.
    Verifying(String),
    /// The token is being kept.
    Saving(String),
    /// The token was kept, and the user is asked for.
    Greeting(String, CredentialBackend),
}

/// The model of [`AuthStage`].
#[verifier::ext_equal]
pub enum AuthStageView {
    Prompting,
    Opening(Seq<char>),
    Verifying(Seq<char>),
    Saving(Seq<char>),
    Greeting(Seq<char>, CredentialBackend),
}

impl View for AuthStage {
    type V = AuthStageView;

    open spec fn view(&self) -> AuthStageView {
        match self {
            AuthStage::Prompting => AuthStageView::Prompting,
            AuthStage::Opening(value) => AuthStageView::Opening(value@),
            AuthStage::Verifying(value) => AuthStageView::Verifying(value@),
            AuthStage::Saving(value) => AuthStageView::Saving(value@),
            AuthStage::Greeting(a, b) => AuthStageView::Greeting(a@, *b),
        }
    }
}

impl DeepView for AuthStage {
    type V = AuthStageView;

    open spec fn deep_view(&self) -> AuthStageView {
        self@
    }
}

/// Someone signs in: where the lines go, and where the file of the credential is.
#[derive(Debug, PartialEq, Eq)]
pub struct Auth {
    pub stream: Stream,
    pub fallback: String,
    pub stage: AuthStage,
}

/// The model of [`Auth`].
#[verifier::ext_equal]
pub struct AuthView {
    pub stream: Stream,
    pub fallback: Seq<char>,
    pub stage: AuthStageView,
}

impl View for Auth {
    type V = AuthView;

    open spec fn view(&self) -> AuthView {
        AuthView {
            stream: self.stream,
            fallback: self.fallback@,
            stage: self.stage@,
        }
    }
}

impl DeepView for Auth {
    type V = AuthView;

    open spec fn deep_view(&self) -> AuthView {
        self@
    }
}

/// What signing in waits for.
#[derive(Debug, PartialEq, Eq)]
pub enum AuthAction {
    /// The user is asked on the stream for a token, which is not shown.
    Prompt(Stream),
    /// A client is set up for the token.
    Open(String),
    /// The API says what state the token is in.
    Verify(ApiRequest),
    /// The token is kept.
    Save(String),
    /// The API says who the user is.
    AskUser(ApiRequest),
}

/// The model of [`AuthAction`].
#[verifier::ext_equal]
pub enum AuthActionView {
    Prompt(Stream),
    Open(Seq<char>),
    Verify(RequestView),
    Save(Seq<char>),
    AskUser(RequestView),
}

impl View for AuthAction {
    type V = AuthActionView;

    open spec fn view(&self) -> AuthActionView {
        match self {
            AuthAction::Prompt(value) => AuthActionView::Prompt(*value),
            AuthAction::Open(value) => AuthActionView::Open(value@),
            AuthAction::Verify(value) => AuthActionView::Verify(value@),
            AuthAction::Save(value) => AuthActionView::Save(value@),
            AuthAction::AskUser(value) => AuthActionView::AskUser(value@),
        }
    }
}

impl DeepView for AuthAction {
    type V = AuthActionView;

    open spec fn deep_view(&self) -> AuthActionView {
        self@
    }
}

/// What came of it.
#[derive(Debug)]
pub enum AuthEvent {
    Typed(Result<String, PunchError>),
    Opened(Result<(), PunchError>),
    Verified(Result<TokenVerifyResult, PunchError>),
    Saved(Result<CredentialBackend, PunchError>),
    User(Result<UserProfile, PunchError>),
}

/// The model of [`AuthEvent`].
#[verifier::ext_equal]
pub enum AuthEventView {
    Typed(Result<Seq<char>, Failure>),
    Opened(Result<(), Failure>),
    Verified(Result<TokenStateView, Failure>),
    Saved(Result<CredentialBackend, Failure>),
    User(Result<UserView, Failure>),
}

impl View for AuthEvent {
    type V = AuthEventView;

    open spec fn view(&self) -> AuthEventView {
        match self {
            AuthEvent::Typed(value) => AuthEventView::Typed(outcome(*value)),
            AuthEvent::Opened(value) => AuthEventView::Opened(outcome(*value)),
            AuthEvent::Verified(value) => AuthEventView::Verified(outcome(*value)),
            AuthEvent::Saved(value) => AuthEventView::Saved(outcome(*value)),
            AuthEvent::User(value) => AuthEventView::User(outcome(*value)),
        }
    }
}

impl DeepView for AuthEvent {
    type V = AuthEventView;

    open spec fn deep_view(&self) -> AuthEventView {
        self@
    }
}

/// How signing in goes on.
#[derive(Debug)]
pub enum AuthNext {
    Continue(Auth),
    Finished(Result<(), PunchError>),
}

/// The model of [`AuthNext`].
#[verifier::ext_equal]
pub enum AuthNextView {
    Continue(AuthView),
    Finished(Result<(), Failure>),
}

impl View for AuthNext {
    type V = AuthNextView;

    open spec fn view(&self) -> AuthNextView {
        match self {
            AuthNext::Continue(value) => AuthNextView::Continue(value@),
            AuthNext::Finished(value) => AuthNextView::Finished(outcome(*value)),
        }
    }
}

impl DeepView for AuthNext {
    type V = AuthNextView;

    open spec fn deep_view(&self) -> AuthNextView {
        self@
    }
}

/// A step of signing in: what the user is told, and how it goes on.
#[derive(Debug)]
pub struct AuthStep {
    pub notices: Vec<Notice>,
    pub next: AuthNext,
}

/// The model of [`AuthStep`].
#[verifier::ext_equal]
pub struct AuthStepView {
    pub notices: Seq<NoticeView>,
    pub next: AuthNextView,
}

impl View for AuthStep {
    type V = AuthStepView;

    open spec fn view(&self) -> AuthStepView {
        AuthStepView {
            notices: self.notices.deep_view(),
            next: self.next@,
        }
    }
}

impl DeepView for AuthStep {
    type V = AuthStepView;

    open spec fn deep_view(&self) -> AuthStepView {
        self@
    }
}

/// What signing in waits for.
pub open spec fn auth_wants(auth: AuthView) -> AuthActionView {
    match auth.stage {
        AuthStageView::Prompting => AuthActionView::Prompt(auth.stream),
        AuthStageView::Opening(token) => AuthActionView::Open(token),
        AuthStageView::Verifying(_) => AuthActionView::Verify(
            bare(Method::Get, "user/tokens/verify"@),
        ),
        AuthStageView::Saving(token) => AuthActionView::Save(token),
        AuthStageView::Greeting(_, _) => AuthActionView::AskUser(bare(Method::Get, "user"@)),
    }
}

/// Signing in ends with `error`.
pub open spec fn auth_fails(error: Failure) -> AuthStepView {
    AuthStepView { notices: Seq::empty(), next: AuthNextView::Finished(Err(error)) }
}

/// Signing in goes on with `stage`.
pub open spec fn auth_moves(auth: AuthView, stage: AuthStageView) -> AuthStepView {
    AuthStepView {
        notices: Seq::empty(),
        next: AuthNextView::Continue(AuthView { stage, ..auth }),
    }
}

/// How the user is greeted whose token was kept.
pub open spec fn greeting(
    auth: AuthView,
    backend: CredentialBackend,
    email: Option<Seq<char>>,
) -> Seq<NoticeView> {
    let who = match email {
        Some(address) => address,
        None => "Cloudflare 用户"@,
    };
    seq![
        line_on(auth.stream, ticked("验证通过: "@ + who)),
        line_on(
            auth.stream,
            match backend {
                CredentialBackend::KeyringWithFallback => ticked(
                    "凭证已写入系统密钥环，并同步保存到本地回退文件: "@ + auth.fallback,
                ),
                CredentialBackend::FallbackFile => warned(
                    "系统密钥环不可用，已保存到本地凭证文件: "@ + auth.fallback,
                ),
            },
        ),
    ]
}

/// A step of signing in. What was not waited for changes nothing.
pub open spec fn auth_next(auth: AuthView, event: AuthEventView) -> AuthStepView {
    match (auth.stage, event) {
        (AuthStageView::Prompting, AuthEventView::Typed(typed)) => match typed {
            Err(error) => auth_fails(error),
            Ok(raw) => match typed_token(raw) {
                Err(error) => auth_fails(error),
                Ok(token) => auth_moves(auth, AuthStageView::Opening(token)),
            },
        },
        (AuthStageView::Opening(token), AuthEventView::Opened(opened)) => match opened {
            Err(error) => auth_fails(error),
            Ok(_) => auth_moves(auth, AuthStageView::Verifying(token)),
        },
        (AuthStageView::Verifying(token), AuthEventView::Verified(verified)) => match verified {
            Err(error) => auth_fails(error.within("凭证校验失败"@)),
            Ok(state) => if state.status == "active"@ {
                auth_moves(auth, AuthStageView::Saving(token))
            } else {
                auth_fails(failure(Fault::InactiveToken(state.status)))
            },
        },
        (AuthStageView::Saving(token), AuthEventView::Saved(saved)) => match saved {
            Err(error) => auth_fails(error),
            Ok(backend) => auth_moves(auth, AuthStageView::Greeting(token, backend)),
        },
        (AuthStageView::Greeting(_, backend), AuthEventView::User(user)) => AuthStepView {
            notices: greeting(
                auth,
                backend,
                match user {
                    Ok(profile) => profile.email,
                    Err(_) => None,
                },
            ),
            next: AuthNextView::Finished(Ok(())),
        },
        _ => auth_moves(auth, auth.stage),
    }
}

impl Auth {
    /// Someone signs in with `token`, or with one that is yet to be typed.
    pub fn begin(dirs: &PunchDirs, token: Option<String>, stream: Stream) -> (auth: Auth)
        ensures
            auth@.stream == stream,
            shows_path(auth@.fallback, dirs.entry("credentials.json"@)),
            auth@.stage == match token {
                Some(token) => AuthStageView::Opening(token@),
                None => AuthStageView::Prompting,
            },
    {
        let file = dirs.fallback_token_file();
        let fallback = show_path(&file);
        proof {
            assert(path_parts(file) == dirs.entry("credentials.json"@));
        }
        let stage = match token {
            Some(token) => AuthStage::Opening(token),
            None => AuthStage::Prompting,
        };
        Auth { stream, fallback, stage }
    }

    /// What signing in waits for.
    pub fn wants(&self) -> (action: AuthAction)
        ensures
            action@ == auth_wants(self@),
    {
        match &self.stage {
            AuthStage::Prompting => AuthAction::Prompt(self.stream),
            AuthStage::Opening(token) => AuthAction::Open(token.clone()),
            AuthStage::Verifying(token) => AuthAction::Verify(
                CloudflareClient::new(token.clone()).verify_token(),
            ),
            AuthStage::Saving(token) => AuthAction::Save(token.clone()),
            AuthStage::Greeting(token, _) => AuthAction::AskUser(
                CloudflareClient::new(token.clone()).current_user(),
            ),
        }
    }

    /// Goes on with `stage`.
    fn moved(stream: Stream, fallback: String, stage: AuthStage) -> (step: AuthStep)
        ensures
            step@ == (AuthStepView {
                notices: Seq::empty(),
                next: AuthNextView::Continue(
                    AuthView { stream, fallback: fallback@, stage: stage@ },
                ),
            }),
    {
        AuthStep {
            notices: silence(),
            next: AuthNext::Continue(Auth { stream, fallback, stage }),
        }
    }

    /// Ends with `error`.
    fn failed(error: PunchError) -> (step: AuthStep)
        ensures
            step@ == auth_fails(error@),
    {
        AuthStep { notices: silence(), next: AuthNext::Finished(Err(error)) }
    }

    /// A step: `event` is what came of what was waited for.
    pub fn next(self, event: AuthEvent) -> (step: AuthStep)
        ensures
            step@ == auth_next(self@, event@),
    {
        let Auth { stream, fallback, stage } = self;
        match (stage, event) {
            (AuthStage::Prompting, AuthEvent::Typed(typed)) => match typed {
                Err(error) => Auth::failed(error),
                Ok(raw) => match prompt_token(raw.as_str()) {
                    Err(error) => Auth::failed(error),
                    Ok(token) => Auth::moved(stream, fallback, AuthStage::Opening(token)),
                },
            },
            (AuthStage::Opening(token), AuthEvent::Opened(opened)) => match opened {
                Err(error) => Auth::failed(error),
                Ok(_) => Auth::moved(stream, fallback, AuthStage::Verifying(token)),
            },
            (AuthStage::Verifying(token), AuthEvent::Verified(verified)) => match verified {
                Err(error) => Auth::failed(error.within("凭证校验失败")),
                Ok(state) => if same_text(state.status.as_str(), "active") {
                    Auth::moved(stream, fallback, AuthStage::Saving(token))
                } else {
                    Auth::failed(PunchError::new(ErrorKind::InactiveToken(state.status)))
                },
            },
            (AuthStage::Saving(token), AuthEvent::Saved(saved)) => match saved {
                Err(error) => Auth::failed(error),
                Ok(backend) => Auth::moved(stream, fallback, AuthStage::Greeting(token, backend)),
            },
            (AuthStage::Greeting(token, backend), AuthEvent::User(user)) => {
                let client = CloudflareClient::new(token);
                let who = match client.current_user_email(user) {
                    Some(address) => address,
                    None => "Cloudflare 用户".to_owned(),
                };
                let mut lines = notice(
                    stream,
                    tick(concat2("验证通过: ", who.as_str()).as_str()),
                );
                let kept = match backend {
                    CredentialBackend::KeyringWithFallback => tick(
                        concat2(
                            "凭证已写入系统密钥环，并同步保存到本地回退文件: ",
                            fallback.as_str(),
                        ).as_str(),
                    ),
                    CredentialBackend::FallbackFile => warn(
                        concat2(
                            "系统密钥环不可用，已保存到本地凭证文件: ",
                            fallback.as_str(),
                        ).as_str(),
                    ),
                };
                tell(&mut lines, stream, kept);
                let step = AuthStep { notices: lines, next: AuthNext::Finished(Ok(())) };
                proof {
                    assert(step@ =~= auth_next(self@, event@));
                }
                step
            },
            (stage, _) => Auth::moved(stream, fallback, stage),
        }
    }
}

/// How many steps a stage of signing in is from the end.
pub open spec fn auth_distance(stage: AuthStageView) -> nat {
    match stage {
        AuthStageView::Prompting => 5,
        AuthStageView::Opening(_) => 4,
        AuthStageView::Verifying(_) => 3,
        AuthStageView::Saving(_) => 2,
        AuthStageView::Greeting(_, _) => 1,
    }
}

/// `event` is of the kind that `stage` waits for.
pub open spec fn auth_awaits(stage: AuthStageView, event: AuthEventView) -> bool {
    match stage {
        AuthStageView::Prompting => event is Typed,
        AuthStageView::Opening(_) => event is Opened,
        AuthStageView::Verifying(_) => event is Verified,
        AuthStageView::Saving(_) => event is Saved,
        AuthStageView::Greeting(_, _) => event is User,
    }
}

/// Signing in comes to an end: what is waited for brings it nearer.
pub proof fn auth_ends(auth: AuthView, event: AuthEventView)
    requires
        auth_awaits(auth.stage, event),
    ensures
        auth_next(auth, event).next matches AuthNextView::Continue(after) ==> auth_distance(
            after.stage,
        ) < auth_distance(auth.stage),
{
}

/// No token is kept but one that the API calls active: a step that goes on to keep a token is
/// the check of that token, with that answer.
pub proof fn only_active_tokens_are_kept(auth: AuthView, event: AuthEventView, token: Seq<char>)
    requires
        auth.stage !is Saving,
        auth_next(auth, event).next matches AuthNextView::Continue(after) && after.stage
            == AuthStageView::Saving(token),
    ensures
        auth.stage == AuthStageView::Verifying(token),
        event == AuthEventView::Verified(Ok(TokenStateView { status: "active"@ })),
{
}

/// What `auth` asks for after `event`, unless it is over.
pub open spec fn auth_asks_after(auth: AuthView, event: AuthEventView) -> Option<AuthActionView> {
    match auth_next(auth, event).next {
        AuthNextView::Continue(after) => Some(auth_wants(after)),
        AuthNextView::Finished(_) => None,
    }
}

/// How `auth` ends with `event`, if it does.
pub open spec fn auth_ends_with(auth: AuthView, event: AuthEventView) -> Option<
    Result<(), Failure>,
> {
    match auth_next(auth, event).next {
        AuthNextView::Continue(_) => None,
        AuthNextView::Finished(result) => Some(result),
    }
}

/// A token that is typed loses the white space around it and nothing else, and is refused where
/// there is nothing else.
pub proof fn typed_token_is_kept(raw: Seq<char>)
    ensures
        (forall|i: int| 0 <= i < raw.len() ==> is_whitespace(#[trigger] raw[i]))
            <==> typed_token(raw) is Err,
        typed_token(raw) matches Err(error) ==> error == (Failure {
            kind: Fault::EmptyToken,
            causes: Seq::empty(),
        }),
        typed_token(raw) matches Ok(token) ==> exists|before: Seq<char>, after: Seq<char>|
            #[trigger] (before + token + after) == raw && blank(before) && blank(after),
        typed_token(raw) matches Ok(token) ==> token.len() > 0 && !is_whitespace(token.first())
            && !is_whitespace(token.last()),
{
    trimming_takes_margins_off(raw);
    if trimmed(raw).len() == 0 {
        let (before, after) = choose|before: Seq<char>, after: Seq<char>|
            #[trigger] (before + trimmed(raw) + after) == raw && blank(before) && blank(after);
        assert forall|i: int| 0 <= i < raw.len() implies is_whitespace(#[trigger] raw[i]) by {
            if i < before.len() {
                assert(raw[i] == before[i]);
            } else {
                assert(raw[i] == after[i - before.len()]);
            }
        }
    } else {
        let (before, after) = choose|before: Seq<char>, after: Seq<char>|
            #[trigger] (before + trimmed(raw) + after) == raw && blank(before) && blank(after);
        assert(raw[before.len() as int] == trimmed(raw).first());
        let token = typed_token(raw)->Ok_0;
        assert((before + token + after) == raw);
    }
}

/// The token that was typed, or given, is the one that a client is set up for, that is checked and
/// that is kept, in this order; then the user is asked for.
pub proof fn one_token_is_carried_through(
    stream: Stream,
    fallback: Seq<char>,
    token: Seq<char>,
    raw: Seq<char>,
    backend: CredentialBackend,
    user: Result<UserView, Failure>,
)
    ensures
        auth_wants(AuthView { stream, fallback, stage: AuthStageView::Prompting })
            == AuthActionView::Prompt(stream),
        auth_wants(AuthView { stream, fallback, stage: AuthStageView::Opening(token) })
            == AuthActionView::Open(token),
        typed_token(raw) == Ok::<Seq<char>, Failure>(token) ==> auth_asks_after(
            AuthView { stream, fallback, stage: AuthStageView::Prompting },
            AuthEventView::Typed(Ok(raw)),
        ) == Some(AuthActionView::Open(token)),
        auth_next(
            AuthView { stream, fallback, stage: AuthStageView::Opening(token) },
            AuthEventView::Opened(Ok(())),
        ).next matches AuthNextView::Continue(verifying) && (auth_wants(
            verifying,
        ) matches AuthActionView::Verify(request) && request.method == Method::Get && request.path
            == "user/tokens/verify"@ && request.body is None) && auth_asks_after(
            verifying,
            AuthEventView::Verified(Ok(TokenStateView { status: "active"@ })),
        ) == Some(AuthActionView::Save(token)),
        auth_asks_after(
            AuthView { stream, fallback, stage: AuthStageView::Saving(token) },
            AuthEventView::Saved(Ok(backend)),
        ) matches Some(AuthActionView::AskUser(request)) && request.method == Method::Get
            && request.path == "user"@ && request.body is None,
        auth_ends_with(
            AuthView { stream, fallback, stage: AuthStageView::Greeting(token, backend) },
            AuthEventView::User(user),
        ) matches Some(Ok(_)),
{
}

/// What goes wrong ends signing in with its own error; a token that is in any other state than
/// active is refused with that state. Only who the user is need not be known.
pub proof fn bad_tokens_are_refused(auth: AuthView, status: Seq<char>, error: Failure)
    ensures
        auth.stage is Prompting ==> auth_ends_with(auth, AuthEventView::Typed(Err(error))) == Some(
            Err::<(), Failure>(error),
        ),
        auth.stage is Opening ==> auth_ends_with(auth, AuthEventView::Opened(Err(error))) == Some(
            Err::<(), Failure>(error),
        ),
        auth.stage is Saving ==> auth_ends_with(auth, AuthEventView::Saved(Err(error))) == Some(
            Err::<(), Failure>(error),
        ),
        auth.stage is Verifying ==> (auth_ends_with(
            auth,
            AuthEventView::Verified(Err(error)),
        ) matches Some(Err(shown)) && shown.kind == Fault::Outside("凭证校验失败"@) && shown.causes
            == seq![error.kind.text()] + error.causes),
        auth.stage is Verifying && status != "active"@ ==> auth_ends_with(
            auth,
            AuthEventView::Verified(Ok(TokenStateView { status })),
        ) == Some(
            Err::<(), Failure>(
                Failure { kind: Fault::InactiveToken(status), causes: Seq::empty() },
            ),
        ),
{
}

/// What is not waited for changes nothing.
pub proof fn auth_waits(auth: AuthView, event: AuthEventView)
    requires
        !auth_awaits(auth.stage, event),
    ensures
        auth_next(auth, event).next == AuthNextView::Continue(auth),
        auth_next(auth, event).notices.len() == 0,
{
}

/// Every step keeps where the lines go and where the file of the credential is.
pub proof fn auth_keeps_its_place(auth: AuthView, event: AuthEventView)
    ensures
        auth_next(auth, event).next matches AuthNextView::Continue(after) ==> after.stream
            == auth.stream && after.fallback == auth.fallback,
{
}

/// Who has signed in is greeted with two lines, by the address if it is known, and is told where
/// the token is kept. No other step tells anything.
pub proof fn sign_in_is_told(
    auth: AuthView,
    event: AuthEventView,
    token: Seq<char>,
    backend: CredentialBackend,
    user: Result<UserView, Failure>,
)
    ensures
        auth.stage !is Greeting ==> auth_next(auth, event).notices.len() == 0,
        auth.stage == AuthStageView::Greeting(token, backend) ==> {
            let told = auth_next(auth, AuthEventView::User(user)).notices;
            &&& told.len() == 2
            &&& told[0].stream == auth.stream && told[1].stream == auth.stream
            &&& told[0].text == in_green("✓"@) + " "@ + ("验证通过: "@ + (match user {
                Ok(profile) => match profile.email {
                    Some(address) => address,
                    None => "Cloudflare 用户"@,
                },
                Err(_) => "Cloudflare 用户"@,
            }))
            &&& told[1].text == (match backend {
                CredentialBackend::KeyringWithFallback => in_green("✓"@) + " "@ + (
                "凭证已写入系统密钥环，并同步保存到本地回退文件: "@ + auth.fallback),
                CredentialBackend::FallbackFile => in_yellow("⚠"@) + " "@ + (
                "系统密钥环不可用，已保存到本地凭证文件: "@ + auth.fallback),
            })
        },
{
}

/// What shows a path is the text of a path with those components.
pub proof fn shown_path_is_a_path(text: Seq<char>, parts: Seq<Seq<u8>>)
    requires
        shows_path(text, parts),
    ensures
        exists|path: PathBuf| #[trigger] path_parts(path) == parts && path_text(path) == text,
{
}

} // verus!
