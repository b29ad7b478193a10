//! Where things are kept: the directories of the program, and the credential.

use crate::error::{failure, ErrorKind, Failure, Fault, PunchError};
use crate::text::{concat2, dash, dashed, outcome};
use directories::ProjectDirs;
use std::path::PathBuf;
use vstd::prelude::*;
use vstd::string::*;
use vstd::utf8::*;

verus! {

/// `std::path::PathBuf`.
#[verifier::external_type_specification]
#[verifier::external_body]
pub struct ExPathBuf(PathBuf);

/// The components of a path, each as its bytes. Two paths are the same where these are.
pub uninterp spec fn path_parts(path: PathBuf) -> Seq<Seq<u8>>;

/// A path as it is shown: characters that are no Unicode are replaced.
pub uninterp spec fn path_text(path: PathBuf) -> Seq<char>;

/// `PathBuf::clone` copies the path.
pub assume_specification[ <PathBuf as Clone>::clone ](path: &PathBuf) -> (copy: PathBuf)
    ensures
        copy == *path,
;

/// A name that stands for one component of a path on every system: it is not empty, it names
/// neither the directory itself nor the one above, and it holds no separator and no colon.
pub open spec fn plain_name(name: Seq<char>) -> bool {
    &&& name.len() > 0
    &&& name != "."@
    &&& name != ".."@
    &&& !name.contains('/')
    &&& !name.contains('\\')
    &&& !name.contains(':')
}

/// `std::path::Path::join` with a plain name: one more component.
#[verifier::external_body]
fn join_path(base: &PathBuf, name: &str) -> (path: PathBuf)
    requires
        plain_name(name@),
    ensures
        path_parts(path) == path_parts(*base).push(encode_utf8(name@)),
{
    base.join(name)
}

/// `std::path::Path::display`, written out.
#[verifier::external_body]
pub(crate) fn show_path(path: &PathBuf) -> (text: String)
    ensures
        text@ == path_text(*path),
{
    path.display().to_string()
}

/// The names under which the system keeps the data of this program: the qualifier, the
/// organization and the application.
pub fn project() -> (names: (&'static str, &'static str, &'static str))
    ensures
        names.0@ == "dev"@,
        names.1@ == "xinggao"@,
        names.2@ == "punch"@,
{
    ("dev", "xinggao", "punch")
}

/// `directories::ProjectDirs::from` for this program, and its `data_local_dir`. It is asked for
/// under the names of this program alone. The contract says nothing of the result: the environment
/// decides where it is and whether there is one.
#[verifier::external_body]
fn project_data_dir(qualifier: &str, organization: &str, application: &str) -> (dir: Option<
    PathBuf,
>)
    requires
        qualifier@ == "dev"@,
        organization@ == "xinggao"@,
        application@ == "punch"@,
{
    match ProjectDirs::from(qualifier, organization, application) {
        Some(dirs) => Some(dirs.data_local_dir().to_path_buf()),
        None => None,
    }
}

/// The directories of the program.
#[derive(Debug)]
pub struct PunchDirs {
    home: PathBuf,
}

impl Clone for PunchDirs {
    fn clone(&self) -> (copy: Self)
        ensures
            copy == *self,
    {
        PunchDirs { home: self.home.clone() }
    }
}

/// The home directory among the one that was asked for, the one in the environment, and the
/// one for the data of programs: the first that there is.
pub open spec fn chosen_home(
    asked: Option<PathBuf>,
    environment: Option<PathBuf>,
    data_dir: Option<PathBuf>,
) -> Option<PathBuf> {
    if asked is Some {
        asked
    } else if environment is Some {
        environment
    } else {
        data_dir
    }
}

/// The name of the log file for `domain`.
pub open spec fn log_name(domain: Seq<char>) -> Seq<char> {
    dashed(domain) + ".log"@
}

impl PunchDirs {
    /// The home directory.
    pub closed spec fn root(self) -> PathBuf {
        self.home
    }

    /// The components of the path of `name` in the home directory.
    pub open spec fn entry(self, name: Seq<char>) -> Seq<Seq<u8>> {
        path_parts(self.root()).push(encode_utf8(name))
    }

    /// The components of the path of the log file for `domain`.
    pub open spec fn log_entry(self, domain: Seq<char>) -> Seq<Seq<u8>> {
        self.entry("logs"@).push(encode_utf8(log_name(domain)))
    }

    /// The directories of the program: in `home_override`, else in the directory
    /// `environment` that `PUNCH_HOME` names, else where the system keeps the data of programs.
    pub fn discover(
        home_override: Option<PathBuf>,
        environment: Option<PathBuf>,
    ) -> (dirs: Result<PunchDirs, PunchError>)
        ensures
            exists|data_dir: Option<PathBuf>|
                match #[trigger] chosen_home(home_override, environment, data_dir) {
                    Some(home) => dirs matches Ok(d) && d.root() == home,
                    None => dirs matches Err(e) && e@ == failure(Fault::NoDataDir),
                },
    {
        let data_dir = if home_override.is_none() && environment.is_none() {
            let (qualifier, organization, application) = project();
            project_data_dir(qualifier, organization, application)
        } else {
            None
        };
        PunchDirs::from_first(home_override, environment, data_dir)
    }

    /// The directories of the program, in the first directory that there is.
    pub fn from_first(
        home_override: Option<PathBuf>,
        environment: Option<PathBuf>,
        data_dir: Option<PathBuf>,
    ) -> (dirs: Result<PunchDirs, PunchError>)
        ensures
            match chosen_home(home_override, environment, data_dir) {
                Some(home) => dirs matches Ok(d) && d.root() == home,
                None => dirs matches Err(e) && e@ == failure(Fault::NoDataDir),
            },
    {
        match home_override {
            Some(home) => Ok(PunchDirs { home }),
            None => match environment {
                Some(home) => Ok(PunchDirs { home }),
                None => match data_dir {
                    Some(home) => Ok(PunchDirs { home }),
                    None => Err(PunchError::new(ErrorKind::NoDataDir)),
                },
            },
        }
    }

    /// The directories that have to exist, with what to say where one cannot be made.
    pub fn ensure(&self) -> (wanted: Vec<(PathBuf, &'static str)>)
        ensures
            wanted@.len() == 2,
            path_parts(wanted@[0].0) == self.entry("logs"@),
            wanted@[0].1@ == "创建日志目录失败"@,
            path_parts(wanted@[1].0) == self.entry("cache"@),
            wanted@[1].1@ == "创建缓存目录失败"@,
    {
        let mut wanted: Vec<(PathBuf, &'static str)> = Vec::new();
        wanted.push((self.logs_dir(), "创建日志目录失败"));
        wanted.push((self.cache_dir(), "创建缓存目录失败"));
        wanted
    }

    /// The home directory.
    pub fn home(&self) -> (home: &PathBuf)
        ensures
            *home == self.root(),
    {
        &self.home
    }

    /// The directory of the logs.
    pub fn logs_dir(&self) -> (dir: PathBuf)
        ensures
            path_parts(dir) == self.entry("logs"@),
    {
        proof {
            reveal_strlit("logs");
            reveal_strlit(".");
            reveal_strlit("..");
        }
        join_path(&self.home, "logs")
    }

    /// The directory of the cache.
    pub fn cache_dir(&self) -> (dir: PathBuf)
        ensures
            path_parts(dir) == self.entry("cache"@),
    {
        proof {
            reveal_strlit("cache");
            reveal_strlit(".");
            reveal_strlit("..");
        }
        join_path(&self.home, "cache")
    }

    /// The file of the state.
    pub fn state_file(&self) -> (file: PathBuf)
        ensures
            path_parts(file) == self.entry("state.json"@),
    {
        proof {
            reveal_strlit("state.json");
            reveal_strlit(".");
            reveal_strlit("..");
        }
        join_path(&self.home, "state.json")
    }

    /// The file of the credential, next to the keyring of the system.
    pub fn fallback_token_file(&self) -> (file: PathBuf)
        ensures
            path_parts(file) == self.entry("credentials.json"@),
    {
        proof {
            reveal_strlit("credentials.json");
            reveal_strlit(".");
            reveal_strlit("..");
        }
        join_path(&self.home, "credentials.json")
    }

    /// The log file for `domain`.
    pub fn log_file_for(&self, domain: &str) -> (file: PathBuf)
        ensures
            path_parts(file) == self.log_entry(domain@),
    {
        let safe = dash(domain);
        let name = concat2(safe.as_str(), ".log");
        proof {
            log_name_is_plain(domain@);
        }
        join_path(&self.logs_dir(), name.as_str())
    }
}

/// The name of a log file is one component, whatever the domain holds: a log never lies outside
/// of the directory of the logs.
pub proof fn log_name_is_plain(domain: Seq<char>)
    ensures
        plain_name(log_name(domain)),
{
    reveal_strlit(".log");
    reveal_strlit(".");
    reveal_strlit("..");
    let name = log_name(domain);
    assert(name.len() >= 4);
    assert forall|i: int| 0 <= i < name.len() implies name[i] != '/' && name[i] != '\\' && name[i]
        != ':' by {
        if i < domain.len() {
            assert(name[i] == dashed(domain)[i]);
        } else {
            assert(name[i] == ".log"@[i - domain.len()]);
        }
    }
}

/// The file of the state, that of the credential and the log files are different files.
pub proof fn files_are_apart(dirs: PunchDirs, domain: Seq<char>)
    ensures
        dirs.entry("state.json"@) != dirs.entry("credentials.json"@),
        dirs.log_entry(domain) != dirs.entry("state.json"@),
        dirs.log_entry(domain) != dirs.entry("credentials.json"@),
{
    reveal_strlit("state.json");
    reveal_strlit("credentials.json");
    let home = path_parts(dirs.root());
    encode_utf8_decode_utf8("state.json"@);
    encode_utf8_decode_utf8("credentials.json"@);
    assert("state.json"@.len() != "credentials.json"@.len());
    assert(dirs.entry("state.json"@).last() != dirs.entry("credentials.json"@).last());
    assert(dirs.log_entry(domain).len() == home.len() + 2);
    assert(dirs.entry("state.json"@).len() == home.len() + 1);
    assert(dirs.entry("credentials.json"@).len() == home.len() + 1);
}

/// What came of reading a file that holds a `T`.
pub enum FileRead<T> {
    /// There is no such file.
    Missing,
    /// It could not be read.
    Unreadable(Vec<String>),
    /// It was read, and holds no `T`.
    Malformed(Vec<String>),
    /// It holds this.
    Parsed(T),
}

/// What came of asking the keyring of the system for the credential.
pub enum KeyringRead {
    /// There is no entry to ask for.
    Unavailable(PunchError),
    /// The keyring gave nothing.
    Nothing,
    /// The keyring gave the token.
    Token(String),
}

/// Where a credential was kept.
#[derive(Debug, Clone, Copy, PartialEq, Eq, Structural)]
pub enum CredentialBackend {
    KeyringWithFallback,
    FallbackFile,
}

impl DeepView for CredentialBackend {
    type V = CredentialBackend;

    open spec fn deep_view(&self) -> CredentialBackend {
        *self
    }
}

/// Where the credential is kept.
#[derive(Debug)]
pub struct CredentialStore {
    dirs: PunchDirs,
    service: &'static str,
    username: &'static str,
}

impl Clone for CredentialStore {
    fn clone(&self) -> (copy: Self)
        ensures
            copy == *self,
    {
        CredentialStore {
            dirs: self.dirs.clone(),
            service: self.service,
            username: self.username,
        }
    }
}

/// The credential that a keyring and a file give: the keyring's, if it gives one.
pub open spec fn credential(keyring: KeyringRead, file: FileRead<String>) -> Result<
    Option<Seq<char>>,
    Failure,
> {
    match keyring {
        KeyringRead::Unavailable(error) => Err(error@),
        KeyringRead::Token(token) => Ok(Some(token@)),
        KeyringRead::Nothing => match file {
            FileRead::Missing => Ok(None),
            FileRead::Unreadable(causes) => Err(
                Failure {
                    kind: Fault::Outside("读取回退凭证失败"@),
                    causes: causes.deep_view(),
                },
            ),
            FileRead::Malformed(causes) => Err(
                Failure {
                    kind: Fault::Outside("解析回退凭证失败"@),
                    causes: causes.deep_view(),
                },
            ),
            FileRead::Parsed(token) => Ok(Some(token@)),
        },
    }
}

/// The token that is stored, else the one in the environment.
pub open spec fn usable_token(
    stored: Option<Seq<char>>,
    environment: Option<Seq<char>>,
) -> Option<Seq<char>> {
    if stored is Some {
        stored
    } else {
        environment
    }
}

impl CredentialStore {
    /// The directories that the store keeps its file in.
    pub closed spec fn place(self) -> PunchDirs {
        self.dirs
    }

    /// The service and the user under which the keyring keeps the credential.
    pub closed spec fn account(self) -> (Seq<char>, Seq<char>) {
        (self.service@, self.username@)
    }

    /// The store in `dirs`.
    pub fn new(dirs: PunchDirs) -> (store: CredentialStore)
        ensures
            store.place() == dirs,
            store.account() == ("dev.xinggao.punch"@, "cloudflare_api_token"@),
    {
        CredentialStore {
            dirs,
            service: "dev.xinggao.punch",
            username: "cloudflare_api_token",
        }
    }

    /// The service under which the keyring keeps the credential.
    pub fn service(&self) -> (service: &'static str)
        ensures
            service@ == self.account().0,
    {
        self.service
    }

    /// The user under whom the keyring keeps the credential.
    pub fn username(&self) -> (username: &'static str)
        ensures
            username@ == self.account().1,
    {
        self.username
    }

    /// The file that keeps the credential beside the keyring.
    pub fn fallback_file(&self) -> (file: PathBuf)
        ensures
            path_parts(file) == self.place().entry("credentials.json"@),
    {
        self.dirs.fallback_token_file()
    }

    /// The credential, from what the keyring and the file gave.
    pub fn load(
        &self,
        keyring: KeyringRead,
        file: FileRead<String>,
    ) -> (token: Result<Option<String>, PunchError>)
        ensures
            outcome(token) == credential(keyring, file),
    {
        match keyring {
            KeyringRead::Unavailable(error) => Err(error),
            KeyringRead::Token(token) => Ok(Some(token)),
            KeyringRead::Nothing => match file {
                FileRead::Missing => Ok(None),
                FileRead::Unreadable(causes) => Err(
                    PunchError::outside("读取回退凭证失败", causes),
                ),
                FileRead::Malformed(causes) => Err(
                    PunchError::outside("解析回退凭证失败", causes),
                ),
                FileRead::Parsed(token) => Ok(Some(token)),
            },
        }
    }

    /// Where a credential is kept whose file was written, and which the keyring took or not.
    pub fn save(&self, in_keyring: bool) -> (backend: CredentialBackend)
        ensures
            backend == (if in_keyring {
                CredentialBackend::KeyringWithFallback
            } else {
                CredentialBackend::FallbackFile
            }),
    {
        if in_keyring {
            CredentialBackend::KeyringWithFallback
        } else {
            CredentialBackend::FallbackFile
        }
    }
}

/// The stored token, else the one in the environment.
pub fn token_or_environment(
    stored: Option<String>,
    environment: Option<String>,
) -> (token: Option<String>)
    ensures
        token.deep_view() == usable_token(stored.deep_view(), environment.deep_view()),
{
    match stored {
        Some(token) => Some(token),
        None => environment,
    }
}

/// A token that was saved is loaded again: from the keyring where the keyring took it, and from
/// the file where the keyring gives nothing.
pub proof fn saved_token_is_loaded(keyring: KeyringRead, file: FileRead<String>, token: Seq<char>)
    requires
        keyring matches KeyringRead::Token(t) ==> t@ == token,
        keyring !is Unavailable,
        file matches FileRead::Parsed(t) && t@ == token,
    ensures
        credential(keyring, file) == Ok::<Option<Seq<char>>, Failure>(Some(token)),
{
}

/// The directory that was asked for is the home, then the one that the environment names, and only
/// then where the system keeps the data of programs.
pub proof fn home_is_the_first_there_is(
    asked: PathBuf,
    environment: PathBuf,
    a: Option<PathBuf>,
    b: Option<PathBuf>,
)
    ensures
        chosen_home(Some(asked), a, b) == Some(asked),
        chosen_home(None, Some(environment), b) == Some(environment),
        chosen_home(None, None, b) == b,
{
}

/// The log of a domain lies in the directory of the logs, under the domain with a dash in place of
/// each character that is no ASCII letter or digit.
pub proof fn log_is_named_after_domain(dirs: PunchDirs, domain: Seq<char>)
    ensures
        log_name(domain).len() == domain.len() + 4,
        forall|i: int|
            0 <= i < domain.len() ==> #[trigger] log_name(domain)[i] == (if 'a' <= domain[i] <= 'z'
                || 'A' <= domain[i] <= 'Z' || '0' <= domain[i] <= '9' {
                domain[i]
            } else {
                '-'
            }),
        log_name(domain).skip(domain.len() as int) == ".log"@,
        dirs.log_entry(domain) == path_parts(dirs.root()).push(encode_utf8("logs"@)).push(
            encode_utf8(log_name(domain)),
        ),
        dirs.entry(domain) == path_parts(dirs.root()).push(encode_utf8(domain)),
{
    reveal_strlit(".log");
    assert(log_name(domain).skip(domain.len() as int) =~= ".log"@);
}

/// The token in the keyring is the one that counts; without one it is the one in the file, and
/// without a file there is none. A keyring that cannot be asked, and a file that cannot be read or
/// understood, are errors.
pub proof fn keyring_goes_before_file(
    file: FileRead<String>,
    token: String,
    error: PunchError,
    causes: Vec<String>,
)
    ensures
        credential(KeyringRead::Token(token), file) == Ok::<Option<Seq<char>>, Failure>(
            Some(token@),
        ),
        credential(KeyringRead::Nothing, FileRead::Parsed(token)) == Ok::<
            Option<Seq<char>>,
            Failure,
        >(Some(token@)),
        credential(KeyringRead::Nothing, FileRead::Missing) == Ok::<Option<Seq<char>>, Failure>(
            None,
        ),
        credential(KeyringRead::Unavailable(error), file) == Err::<Option<Seq<char>>, Failure>(
            error@,
        ),
        credential(KeyringRead::Nothing, FileRead::Unreadable(causes)) == Err::<
            Option<Seq<char>>,
            Failure,
        >(
            Failure {
                kind: Fault::Outside("读取回退凭证失败"@),
                causes: causes.deep_view(),
            },
        ),
        credential(KeyringRead::Nothing, FileRead::Malformed(causes)) == Err::<
            Option<Seq<char>>,
            Failure,
        >(
            Failure {
                kind: Fault::Outside("解析回退凭证失败"@),
                causes: causes.deep_view(),
            },
        ),
{
}

/// The environment is asked for a token only where none is stored.
pub proof fn stored_token_goes_first(environment: Option<Seq<char>>, token: Seq<char>)
    ensures
        usable_token(Some(token), environment) == Some(token),
        usable_token(None, environment) == environment,
{
}

} // verus!
