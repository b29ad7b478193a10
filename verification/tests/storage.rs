use punch::app::App;
use punch::error::{ErrorKind, PunchError};
use punch::storage::{
    project, token_or_environment, CredentialBackend, CredentialStore, FileRead, KeyringRead,
    PunchDirs,
};
use punch::text::{join, split_text};
use std::path::{Path, PathBuf};

fn dirs() -> PunchDirs {
    PunchDirs::discover(Some(PathBuf::from("/srv/punch")), None).expect("directories")
}

#[test]
fn directories_lie_in_the_home() {
    let dirs = dirs();
    assert_eq!(dirs.home(), Path::new("/srv/punch"));
    assert_eq!(dirs.logs_dir(), Path::new("/srv/punch/logs"));
    assert_eq!(dirs.cache_dir(), Path::new("/srv/punch/cache"));
    assert_eq!(dirs.state_file(), Path::new("/srv/punch/state.json"));
    assert_eq!(dirs.fallback_token_file(), Path::new("/srv/punch/credentials.json"));
    assert_eq!(dirs.clone().home(), dirs.home());
}

#[test]
fn directories_that_have_to_exist() {
    let wanted = dirs().ensure();
    assert_eq!(wanted.len(), 2);
    assert_eq!(wanted[0], (PathBuf::from("/srv/punch/logs"), "创建日志目录失败"));
    assert_eq!(wanted[1], (PathBuf::from("/srv/punch/cache"), "创建缓存目录失败"));
}

#[test]
fn log_files_stay_in_the_directory_of_the_logs() {
    let dirs = dirs();
    assert_eq!(dirs.log_file_for("a.b-C9"), Path::new("/srv/punch/logs/a-b-C9.log"));
    assert_eq!(dirs.log_file_for("../../etc"), Path::new("/srv/punch/logs/------etc.log"));
    assert_eq!(dirs.log_file_for(""), Path::new("/srv/punch/logs/.log"));
    assert_eq!(dirs.log_file_for("域.名"), Path::new("/srv/punch/logs/---.log"));
}

#[test]
fn the_first_home_is_taken() {
    let asked = Some(PathBuf::from("/asked"));
    let environment = Some(PathBuf::from("/environment"));
    let data = Some(PathBuf::from("/data"));
    let home = |a: &Option<PathBuf>, b: &Option<PathBuf>, c: &Option<PathBuf>| {
        PunchDirs::from_first(a.clone(), b.clone(), c.clone()).map(|dirs| dirs.home().clone())
    };
    assert_eq!(home(&asked, &environment, &data), Ok(PathBuf::from("/asked")));
    assert_eq!(home(&None, &environment, &data), Ok(PathBuf::from("/environment")));
    assert_eq!(home(&None, &None, &data), Ok(PathBuf::from("/data")));
    let error = home(&None, &None, &None).unwrap_err();
    assert_eq!(error.kind, ErrorKind::NoDataDir);
}

#[test]
fn the_home_in_the_environment_is_used() {
    let dirs = PunchDirs::discover(None, Some(PathBuf::from("/e"))).expect("directories");
    assert_eq!(dirs.home(), Path::new("/e"));
}

#[test]
fn the_data_is_kept_under_the_names_of_the_program() {
    assert_eq!(project(), ("dev", "xinggao", "punch"));
    let (qualifier, organization, application) = project();
    let data = directories::ProjectDirs::from(qualifier, organization, application)
        .map(|dirs| dirs.data_local_dir().to_path_buf());
    let found = PunchDirs::discover(None, None).map(|dirs| dirs.home().clone());
    assert_eq!(found.ok(), data);
}

#[test]
fn the_files_are_apart() {
    let dirs = dirs();
    let files = [dirs.state_file(), dirs.fallback_token_file()];
    assert_ne!(files[0], files[1]);
    for domain in ["state.json", "credentials.json", "../state.json", ""] {
        assert!(!files.contains(&dirs.log_file_for(domain)));
    }
}

#[test]
fn the_system_has_a_home_or_not() {
    match PunchDirs::discover(None, None) {
        Ok(dirs) => assert!(dirs.home().to_string_lossy().contains("punch")),
        Err(error) => assert_eq!(error.kind, ErrorKind::NoDataDir),
    }
}

#[test]
fn the_keyring_goes_before_the_file() {
    let store = CredentialStore::new(dirs());
    assert_eq!(store.service(), "dev.xinggao.punch");
    assert_eq!(store.username(), "cloudflare_api_token");
    assert_eq!(store.fallback_file(), Path::new("/srv/punch/credentials.json"));
    let token = store.load(
        KeyringRead::Token("ring".to_string()),
        FileRead::Parsed("file".to_string()),
    );
    assert_eq!(token, Ok(Some("ring".to_string())));
    let token = store.load(KeyringRead::Nothing, FileRead::Parsed("file".to_string()));
    assert_eq!(token, Ok(Some("file".to_string())));
    assert_eq!(store.load(KeyringRead::Nothing, FileRead::Missing), Ok(None));
}

#[test]
fn a_broken_credential_is_reported() {
    let store = CredentialStore::new(dirs());
    let causes = || vec!["why".to_string()];
    let error = store
        .load(KeyringRead::Nothing, FileRead::Unreadable(causes()))
        .unwrap_err();
    assert_eq!(error.line(), "读取回退凭证失败: why");
    let error = store
        .load(KeyringRead::Nothing, FileRead::Malformed(causes()))
        .unwrap_err();
    assert_eq!(error.line(), "解析回退凭证失败: why");
    let broken = PunchError::outside("no keyring", Vec::new());
    let error = store
        .load(
            KeyringRead::Unavailable(broken),
            FileRead::Parsed("file".to_string()),
        )
        .unwrap_err();
    assert_eq!(error.line(), "no keyring");
}

#[test]
fn a_credential_is_kept_where_it_can_be() {
    let store = CredentialStore::new(dirs());
    assert_eq!(store.save(true), CredentialBackend::KeyringWithFallback);
    assert_eq!(store.save(false), CredentialBackend::FallbackFile);
}

#[test]
fn the_environment_is_the_last_resort() {
    let text = |value: &str| Some(value.to_string());
    assert_eq!(token_or_environment(text("a"), text("b")), text("a"));
    assert_eq!(token_or_environment(None, text("b")), text("b"));
    assert_eq!(token_or_environment(None, None), None);
}

#[test]
fn an_app_keeps_its_things_in_its_home() {
    let app = App::new(Some(PathBuf::from("/h")), None).expect("an app");
    assert_eq!(app.dirs.home(), Path::new("/h"));
    assert_eq!(app.state.save(), Path::new("/h/state.json"));
    assert_eq!(app.credentials.fallback_file(), Path::new("/h/credentials.json"));
    assert_eq!(app.credentials.service(), "dev.xinggao.punch");
}

#[test]
fn pieces_of_a_text_are_put_together_again() {
    for text in ["", ".", "a.b", "a..b.", "..", "中.文"] {
        assert_eq!(join(&split_text(text, '.'), "."), text);
    }
    assert_eq!(split_text("a.b.", '.'), ["a", "b", ""]);
}
