use punch::api::{ApiRequest, Method, TokenVerifyResult, UserProfile};
use punch::auth::{prompt_token, Auth, AuthAction, AuthEvent, AuthNext, AuthStep};
use punch::error::{ErrorKind, PunchError};
use punch::output::Stream;
use punch::storage::{CredentialBackend, PunchDirs};
use std::path::PathBuf;

fn begin(token: Option<&str>) -> Auth {
    let dirs = PunchDirs::discover(Some(PathBuf::from("/p")), None).expect("directories");
    Auth::begin(&dirs, token.map(|text| text.to_string()), Stream::Output)
}

fn broken() -> PunchError {
    PunchError::outside("broken", vec!["why".to_string()])
}

fn goes_on(step: AuthStep) -> Auth {
    assert!(step.notices.is_empty());
    match step.next {
        AuthNext::Continue(auth) => auth,
        AuthNext::Finished(result) => panic!("ended with {result:?}"),
    }
}

fn ends(step: AuthStep) -> Result<(), PunchError> {
    match step.next {
        AuthNext::Finished(result) => result,
        AuthNext::Continue(auth) => panic!("waits for {:?}", auth.wants()),
    }
}

fn state(status: &str) -> AuthEvent {
    AuthEvent::Verified(Ok(TokenVerifyResult { status: status.to_string() }))
}

fn get(path: &str) -> ApiRequest {
    ApiRequest { method: Method::Get, path: path.to_string(), body: None }
}

/// Signing in with a token that was kept in `backend`.
fn greeted(backend: CredentialBackend) -> Auth {
    [AuthEvent::Opened(Ok(())), state("active"), AuthEvent::Saved(Ok(backend))]
        .into_iter()
        .fold(begin(Some("tok")), |auth, event| goes_on(auth.next(event)))
}

#[test]
fn typed_tokens_lose_their_margins() {
    assert_eq!(prompt_token(" tok\n"), Ok("tok".to_string()));
    assert_eq!(prompt_token(" \t").unwrap_err().kind, ErrorKind::EmptyToken);
    assert_eq!(prompt_token("").unwrap_err().line(), "令牌不能为空");
}

#[test]
fn a_token_is_typed_where_none_is_given() {
    let auth = begin(None);
    assert_eq!(auth.wants(), AuthAction::Prompt(Stream::Output));
    let auth = goes_on(auth.next(AuthEvent::Typed(Ok(" tok ".to_string()))));
    assert_eq!(auth.wants(), AuthAction::Open("tok".to_string()));
    let error = ends(begin(None).next(AuthEvent::Typed(Ok(" ".to_string())))).unwrap_err();
    assert_eq!(error.kind, ErrorKind::EmptyToken);
    assert_eq!(ends(begin(None).next(AuthEvent::Typed(Err(broken())))), Err(broken()));
}

#[test]
fn a_token_is_checked_kept_and_greeted() {
    let auth = begin(Some("tok"));
    assert_eq!(auth.wants(), AuthAction::Open("tok".to_string()));
    let auth = goes_on(auth.next(AuthEvent::Opened(Ok(()))));
    assert_eq!(auth.wants(), AuthAction::Verify(get("user/tokens/verify")));
    let auth = goes_on(auth.next(state("active")));
    assert_eq!(auth.wants(), AuthAction::Save("tok".to_string()));
    let auth = goes_on(auth.next(AuthEvent::Saved(Ok(CredentialBackend::KeyringWithFallback))));
    assert_eq!(auth.wants(), AuthAction::AskUser(get("user")));
    let user = UserProfile { email: Some("a@b.c".to_string()) };
    let step = auth.next(AuthEvent::User(Ok(user)));
    assert_eq!(step.notices.len(), 2);
    assert_eq!(step.notices[0].text, "\u{1b}[32m✓\u{1b}[39m 验证通过: a@b.c");
    assert_eq!(
        step.notices[1].text,
        "\u{1b}[32m✓\u{1b}[39m 凭证已写入系统密钥环，并同步保存到本地回退文件: /p/credentials.json"
    );
    assert_eq!(ends(step), Ok(()));
}

#[test]
fn a_token_in_the_file_alone_is_told() {
    let step = greeted(CredentialBackend::FallbackFile).next(AuthEvent::User(Err(broken())));
    assert_eq!(step.notices[0].text, "\u{1b}[32m✓\u{1b}[39m 验证通过: Cloudflare 用户");
    assert_eq!(
        step.notices[1].text,
        "\u{1b}[33m⚠\u{1b}[39m 系统密钥环不可用，已保存到本地凭证文件: /p/credentials.json"
    );
    assert_eq!(ends(step), Ok(()));
}

#[test]
fn a_token_that_is_not_active_is_not_kept() {
    let auth = goes_on(begin(Some("tok")).next(AuthEvent::Opened(Ok(()))));
    let error = ends(auth.next(state("disabled"))).unwrap_err();
    assert_eq!(error.line(), "✗ 凭证不可用，状态: disabled");
}

#[test]
fn a_check_that_fails_is_reported() {
    let auth = goes_on(begin(Some("tok")).next(AuthEvent::Opened(Ok(()))));
    let error = ends(auth.next(AuthEvent::Verified(Err(broken())))).unwrap_err();
    assert_eq!(error.line(), "凭证校验失败: broken: why");
    assert_eq!(ends(begin(Some("t")).next(AuthEvent::Opened(Err(broken())))), Err(broken()));
    let auth = goes_on(begin(Some("tok")).next(AuthEvent::Opened(Ok(()))));
    let auth = goes_on(auth.next(state("active")));
    assert_eq!(ends(auth.next(AuthEvent::Saved(Err(broken())))), Err(broken()));
}

#[test]
fn signing_in_ignores_what_it_did_not_ask_for() {
    let auth = goes_on(begin(Some("tok")).next(state("active")));
    assert_eq!(auth.wants(), AuthAction::Open("tok".to_string()));
}
