//! The errors of the library: what went wrong, and the chain of causes below it.

use crate::number::{decimal, show};
use crate::text::{concat2, concat3, concat4, contains_text, join, joined};
use vstd::prelude::*;
use vstd::string::*;

verus! {

/// What went wrong.
#[derive(Debug, PartialEq, Eq)]
pub enum ErrorKind {
    /// The command line names neither a command nor a target.
    MissingTarget,
    /// The target is blank.
    EmptyTarget,
    /// The text after the last colon of a target is no port.
    InvalidPort(String),
    /// The host part of a target holds no dot.
    InvalidDomain(String),
    /// A text is no number of minutes, hours or days.
    InvalidExpiry(String),
    /// A time to live ends in an unknown unit.
    InvalidExpiryUnit(String),
    /// There is no directory to keep data in.
    NoDataDir,
    /// No tunnel is registered for the domain.
    UnknownTunnel(String),
    /// A remote tunnel cannot be removed without a credential.
    NotLoggedIn,
    /// No tunnel has a log to show.
    NoLog,
    /// The log file at the path holds no line.
    EmptyLog(String),
    /// The configuration lists no tunnel.
    NothingConfigured,
    /// The token that was typed is blank.
    EmptyToken,
    /// The token exists, but is in the given state.
    InactiveToken(String),
    /// Nothing answered on the local port in time.
    PortTimeout(u16),
    /// Nothing listens on the local port.
    PortClosed(u16),
    /// No zone of the account covers the domain.
    NotHosted(String),
    /// A reply that reports success carries no result.
    MissingResult,
    /// The body of a reply could not be read as a reply.
    UnreadableReply(String),
    /// The API reports a failure: the HTTP status, and what it says.
    Api(String, String),
    /// The `cloudflared` program is not installed.
    NoCloudflared,
    /// `cloudflared` ended with the given status.
    CloudflaredFailed(String),
    /// Work outside of the library failed: what it was.
    Outside(String),
}

/// The model of [`ErrorKind`].
#[verifier::ext_equal]
pub enum Fault {
    MissingTarget,
    EmptyTarget,
    InvalidPort(Seq<char>),
    InvalidDomain(Seq<char>),
    InvalidExpiry(Seq<char>),
    InvalidExpiryUnit(Seq<char>),
    NoDataDir,
    UnknownTunnel(Seq<char>),
    NotLoggedIn,
    NoLog,
    EmptyLog(Seq<char>),
    NothingConfigured,
    EmptyToken,
    InactiveToken(Seq<char>),
    PortTimeout(u16),
    PortClosed(u16),
    NotHosted(Seq<char>),
    MissingResult,
    UnreadableReply(Seq<char>),
    Api(Seq<char>, Seq<char>),
    NoCloudflared,
    CloudflaredFailed(Seq<char>),
    Outside(Seq<char>),
}

impl View for ErrorKind {
    type V = Fault;

    open spec fn view(&self) -> Fault {
        match self {
            ErrorKind::MissingTarget => Fault::MissingTarget,
            ErrorKind::EmptyTarget => Fault::EmptyTarget,
            ErrorKind::InvalidPort(value) => Fault::InvalidPort(value@),
            ErrorKind::InvalidDomain(value) => Fault::InvalidDomain(value@),
            ErrorKind::InvalidExpiry(value) => Fault::InvalidExpiry(value@),
            ErrorKind::InvalidExpiryUnit(value) => Fault::InvalidExpiryUnit(value@),
            ErrorKind::NoDataDir => Fault::NoDataDir,
            ErrorKind::UnknownTunnel(value) => Fault::UnknownTunnel(value@),
            ErrorKind::NotLoggedIn => Fault::NotLoggedIn,
            ErrorKind::NoLog => Fault::NoLog,
            ErrorKind::EmptyLog(value) => Fault::EmptyLog(value@),
            ErrorKind::NothingConfigured => Fault::NothingConfigured,
            ErrorKind::EmptyToken => Fault::EmptyToken,
            ErrorKind::InactiveToken(value) => Fault::InactiveToken(value@),
            ErrorKind::PortTimeout(value) => Fault::PortTimeout(*value),
            ErrorKind::PortClosed(value) => Fault::PortClosed(*value),
            ErrorKind::NotHosted(value) => Fault::NotHosted(value@),
            ErrorKind::MissingResult => Fault::MissingResult,
            ErrorKind::UnreadableReply(value) => Fault::UnreadableReply(value@),
            ErrorKind::Api(a, b) => Fault::Api(a@, b@),
            ErrorKind::NoCloudflared => Fault::NoCloudflared,
            ErrorKind::CloudflaredFailed(value) => Fault::CloudflaredFailed(value@),
            ErrorKind::Outside(value) => Fault::Outside(value@),
        }
    }
}

impl DeepView for ErrorKind {
    type V = Fault;

    open spec fn deep_view(&self) -> Fault {
        self@
    }
}

/// The hint that follows an API failure: non-empty where the token lacks the right to
/// edit tunnels.
pub open spec fn permission_hint(message: Seq<char>) -> Seq<char> {
    if crate::text::contains_text(message, "Authentication error"@) {
        PERMISSION_HINT@
    } else {
        ""@
    }
}

/// What the hint says.
pub const PERMISSION_HINT: &'static str = "\n提示: 该 token 可以通过基础校验，但访问 Cloudflare Tunnel API 被拒绝。请确认已授予 `Cloudflare Tunnel:Edit` 或同等账户级权限。";

impl Fault {
    /// The message.
    pub open spec fn text(self) -> Seq<char> {
        match self {
            Fault::MissingTarget => "请输入目标，例如 `punch demo.com:8080`"@,
            Fault::EmptyTarget => "请输入域名，例如 `punch demo.com:8080`"@,
            Fault::InvalidPort(port) => "无效端口: "@ + port,
            Fault::InvalidDomain(domain) => "无效域名: "@ + domain,
            Fault::InvalidExpiry(value) => "无效过期时间: "@ + value,
            Fault::InvalidExpiryUnit(unit) => "无效过期时间单位: "@ + unit
                + "，支持 m/h/d"@,
            Fault::NoDataDir => "无法推导 punch 配置目录，请设置 PUNCH_HOME"@,
            Fault::UnknownTunnel(domain) => "未找到隧道: "@ + domain,
            Fault::NotLoggedIn => "删除远端隧道需要已登录的 Cloudflare 凭证"@,
            Fault::NoLog => "没有可用日志，请先启动一个隧道"@,
            Fault::EmptyLog(path) => "日志为空: "@ + path,
            Fault::NothingConfigured => "配置文件中没有 tunnels 项"@,
            Fault::EmptyToken => "令牌不能为空"@,
            Fault::InactiveToken(status) => "✗ 凭证不可用，状态: "@ + status,
            Fault::PortTimeout(port) => "✗ 端口 "@ + decimal(port as nat) + " 连接超时"@,
            Fault::PortClosed(port) => "✗ 端口 "@ + decimal(port as nat)
                + " 未监听，无法建立本地映射"@,
            Fault::NotHosted(domain) => "✗ "@ + domain + " 未在 Cloudflare 托管\n  解决: 1) 登录 https://dash.cloudflare.com 2) 添加站点并修改 DNS"@,
            Fault::MissingResult => "Cloudflare API 响应缺少 result 字段"@,
            Fault::UnreadableReply(body) => "解析 Cloudflare API 响应失败: "@ + body,
            Fault::Api(status, message) => "Cloudflare API 错误 ("@ + status + "): "@
                + message + permission_hint(message),
            Fault::NoCloudflared => "✗ 未找到 cloudflared\n  解决: 安装 cloudflared 后重试，或将其加入 PATH"@,
            Fault::CloudflaredFailed(status) => "cloudflared 异常退出: "@ + status,
            Fault::Outside(message) => message,
        }
    }
}

impl ErrorKind {
    /// The message.
    pub fn message(&self) -> (message: String)
        ensures
            message@ == self@.text(),
    {
        match self {
            ErrorKind::MissingTarget => "请输入目标，例如 `punch demo.com:8080`".to_owned(),
            ErrorKind::EmptyTarget => "请输入域名，例如 `punch demo.com:8080`".to_owned(),
            ErrorKind::InvalidPort(port) => concat2("无效端口: ", port.as_str()),
            ErrorKind::InvalidDomain(domain) => concat2("无效域名: ", domain.as_str()),
            ErrorKind::InvalidExpiry(value) => concat2("无效过期时间: ", value.as_str()),
            ErrorKind::InvalidExpiryUnit(unit) => concat3(
                "无效过期时间单位: ",
                unit.as_str(),
                "，支持 m/h/d",
            ),
            ErrorKind::NoDataDir => "无法推导 punch 配置目录，请设置 PUNCH_HOME".to_owned(),
            ErrorKind::UnknownTunnel(domain) => concat2("未找到隧道: ", domain.as_str()),
            ErrorKind::NotLoggedIn => "删除远端隧道需要已登录的 Cloudflare 凭证".to_owned(),
            ErrorKind::NoLog => "没有可用日志，请先启动一个隧道".to_owned(),
            ErrorKind::EmptyLog(path) => concat2("日志为空: ", path.as_str()),
            ErrorKind::NothingConfigured => "配置文件中没有 tunnels 项".to_owned(),
            ErrorKind::EmptyToken => "令牌不能为空".to_owned(),
            ErrorKind::InactiveToken(status) => concat2(
                "✗ 凭证不可用，状态: ",
                status.as_str(),
            ),
            ErrorKind::PortTimeout(port) => concat3(
                "✗ 端口 ",
                show(*port as u64).as_str(),
                " 连接超时",
            ),
            ErrorKind::PortClosed(port) => concat3(
                "✗ 端口 ",
                show(*port as u64).as_str(),
                " 未监听，无法建立本地映射",
            ),
            ErrorKind::NotHosted(domain) => concat3(
                "✗ ",
                domain.as_str(),
                " 未在 Cloudflare 托管\n  解决: 1) 登录 https://dash.cloudflare.com 2) 添加站点并修改 DNS",
            ),
            ErrorKind::MissingResult => "Cloudflare API 响应缺少 result 字段".to_owned(),
            ErrorKind::UnreadableReply(body) => concat2(
                "解析 Cloudflare API 响应失败: ",
                body.as_str(),
            ),
            ErrorKind::Api(status, message) => concat4(
                "Cloudflare API 错误 (",
                status.as_str(),
                "): ",
                message.as_str(),
            ).concat(tunnel_permission_hint(message.as_str())),
            ErrorKind::NoCloudflared => "✗ 未找到 cloudflared\n  解决: 安装 cloudflared 后重试，或将其加入 PATH".to_owned(),
            ErrorKind::CloudflaredFailed(status) => concat2(
                "cloudflared 异常退出: ",
                status.as_str(),
            ),
            ErrorKind::Outside(message) => message.clone(),
        }
    }
}

/// What to tell whoever reads an API failure with this message.
pub fn tunnel_permission_hint(message: &str) -> (hint: &'static str)
    ensures
        hint@ == permission_hint(message@),
{
    if crate::text::has_text(message, "Authentication error") {
        PERMISSION_HINT
    } else {
        ""
    }
}

/// An error with the messages of its causes, the nearest one first.
#[derive(Debug, PartialEq, Eq)]
pub struct PunchError {
    pub kind: ErrorKind,
    pub causes: Vec<String>,
}

/// The model of [`PunchError`].
#[verifier::ext_equal]
pub struct Failure {
    pub kind: Fault,
    pub causes: Seq<Seq<char>>,
}

impl View for PunchError {
    type V = Failure;

    open spec fn view(&self) -> Failure {
        Failure { kind: self.kind@, causes: self.causes.deep_view() }
    }
}

impl DeepView for PunchError {
    type V = Failure;

    open spec fn deep_view(&self) -> Failure {
        self@
    }
}

/// The failure `kind`, with no cause below it.
pub open spec fn failure(kind: Fault) -> Failure {
    Failure { kind, causes: Seq::empty() }
}

impl Failure {
    /// The messages of the failure and of its causes.
    pub open spec fn chain(self) -> Seq<Seq<char>> {
        seq![self.kind.text()] + self.causes
    }

    /// The failure of `work` that this one is the cause of.
    pub open spec fn within(self, work: Seq<char>) -> Failure {
        Failure { kind: Fault::Outside(work), causes: self.chain() }
    }

    /// The whole chain on one line.
    pub open spec fn line(self) -> Seq<char> {
        joined(self.chain(), ": "@)
    }
}

impl PunchError {
    /// The error `kind`, with no cause below it.
    pub fn new(kind: ErrorKind) -> (error: PunchError)
        ensures
            error@ == failure(kind@),
    {
        let error = PunchError { kind, causes: Vec::new() };
        proof {
            assert(error@ =~= failure(kind@));
        }
        error
    }

    /// The error `kind` with one cause.
    pub fn caused(kind: ErrorKind, cause: String) -> (error: PunchError)
        ensures
            error@ == (Failure { kind: kind@, causes: seq![cause@] }),
    {
        let mut causes: Vec<String> = Vec::new();
        causes.push(cause);
        let error = PunchError { kind, causes };
        proof {
            assert(error@ =~= Failure { kind: kind@, causes: seq![cause@] });
        }
        error
    }

    /// A failure of `work` outside of the library, with its causes.
    pub fn outside(work: &str, causes: Vec<String>) -> (error: PunchError)
        ensures
            error@ == (Failure { kind: Fault::Outside(work@), causes: causes.deep_view() }),
    {
        PunchError { kind: ErrorKind::Outside(work.to_owned()), causes }
    }

    /// `self` as the cause of a failure of `work`.
    pub fn within(self, work: &str) -> (error: PunchError)
        ensures
            error@ == self@.within(work@),
    {
        let mut causes: Vec<String> = Vec::new();
        causes.push(self.kind.message());
        let mut rest = self.causes;
        causes.append(&mut rest);
        let error = PunchError { kind: ErrorKind::Outside(work.to_owned()), causes };
        proof {
            assert(error@ =~= self@.within(work@));
        }
        error
    }

    /// The whole chain on one line, the message first.
    pub fn line(&self) -> (line: String)
        ensures
            line@ == self@.line(),
    {
        let mut parts: Vec<String> = Vec::new();
        parts.push(self.kind.message());
        let mut i: usize = 0;
        proof {
            assert(parts.deep_view() =~= self@.chain().take(1));
        }
        while i < self.causes.len()
            invariant
                i <= self.causes@.len(),
                parts.deep_view() == self@.chain().take(1 + i),
            decreases self.causes@.len() - i,
        {
            let ghost before = parts.deep_view();
            parts.push(self.causes[i].clone());
            proof {
                assert(parts.deep_view() =~= before.push(self@.chain()[1 + i]));
                assert(self@.chain().take(2 + i) =~= before.push(self@.chain()[1 + i]));
            }
            i = i + 1;
        }
        proof {
            assert(self@.chain().take(1 + i) =~= self@.chain());
        }
        join(&parts, ": ")
    }
}

/// A failure is told as its message and then, behind colons, the messages of its causes.
pub proof fn causes_are_told(kind: Fault, causes: Seq<Seq<char>>, cause: Seq<char>)
    ensures
        (Failure { kind, causes: Seq::empty() }).line() == kind.text(),
        (Failure { kind, causes: causes.push(cause) }).line() == (Failure { kind, causes }).line()
            + ": "@ + cause,
{
    let alone = Failure { kind, causes: Seq::empty() };
    assert(alone.chain() =~= seq![kind.text()]);
    let all = Failure { kind, causes: causes.push(cause) };
    let before = Failure { kind, causes };
    assert(all.chain() =~= before.chain().push(cause));
    assert(before.chain().push(cause).drop_last() =~= before.chain());
}

/// A failure within some work is told as the work, and then as it was.
pub proof fn work_is_told_first(error: Failure, work: Seq<char>)
    ensures
        error.within(work).kind.text() == work,
        error.within(work).causes.len() == error.causes.len() + 1,
        error.within(work).causes[0] == error.kind.text(),
        forall|i: int|
            0 <= i < error.causes.len() ==> #[trigger] error.within(work).causes[i + 1]
                == error.causes[i],
{
}

/// A message names what it is about.
pub proof fn messages_name_their_subject(subject: Seq<char>, port: u16)
    ensures
        Fault::InvalidPort(subject).text() == "无效端口: "@ + subject,
        Fault::InvalidDomain(subject).text() == "无效域名: "@ + subject,
        Fault::InvalidExpiry(subject).text() == "无效过期时间: "@ + subject,
        Fault::InvalidExpiryUnit(subject).text() == "无效过期时间单位: "@ + subject
            + "，支持 m/h/d"@,
        Fault::UnknownTunnel(subject).text() == "未找到隧道: "@ + subject,
        Fault::EmptyLog(subject).text() == "日志为空: "@ + subject,
        Fault::InactiveToken(subject).text() == "✗ 凭证不可用，状态: "@ + subject,
        Fault::PortTimeout(port).text() == "✗ 端口 "@ + decimal(port as nat) + " 连接超时"@,
        Fault::PortClosed(port).text() == "✗ 端口 "@ + decimal(port as nat)
            + " 未监听，无法建立本地映射"@,
        Fault::NotHosted(subject).text() == "✗ "@ + subject
            + " 未在 Cloudflare 托管\n  解决: 1) 登录 https://dash.cloudflare.com 2) 添加站点并修改 DNS"@,
        Fault::UnreadableReply(subject).text() == "解析 Cloudflare API 响应失败: "@ + subject,
        Fault::CloudflaredFailed(subject).text() == "cloudflared 异常退出: "@ + subject,
        Fault::Outside(subject).text() == subject,
{
}

/// A failure of the API is told with its status and what the API says; the hint on what the token
/// may do follows exactly where the API speaks of an authentication error.
pub proof fn hint_follows_authentication_errors(status: Seq<char>, message: Seq<char>)
    ensures
        contains_text(message, "Authentication error"@) ==> Fault::Api(status, message).text()
            == "Cloudflare API 错误 ("@ + status + "): "@ + message + PERMISSION_HINT@,
        !contains_text(message, "Authentication error"@) ==> Fault::Api(status, message).text()
            == "Cloudflare API 错误 ("@ + status + "): "@ + message,
{
    reveal_strlit("");
    assert("Cloudflare API 错误 ("@ + status + "): "@ + message + ""@ =~= "Cloudflare API 错误 ("@
        + status + "): "@ + message);
}

/// A message without a subject says what to do.
pub proof fn messages_say_what_is_missing()
    ensures
        Fault::MissingTarget.text() == "请输入目标，例如 `punch demo.com:8080`"@,
        Fault::EmptyTarget.text() == "请输入域名，例如 `punch demo.com:8080`"@,
        Fault::NoDataDir.text() == "无法推导 punch 配置目录，请设置 PUNCH_HOME"@,
        Fault::NotLoggedIn.text() == "删除远端隧道需要已登录的 Cloudflare 凭证"@,
        Fault::NoLog.text() == "没有可用日志，请先启动一个隧道"@,
        Fault::NothingConfigured.text() == "配置文件中没有 tunnels 项"@,
        Fault::EmptyToken.text() == "令牌不能为空"@,
        Fault::MissingResult.text() == "Cloudflare API 响应缺少 result 字段"@,
        Fault::NoCloudflared.text()
            == "✗ 未找到 cloudflared\n  解决: 安装 cloudflared 后重试，或将其加入 PATH"@,
{
}

} // verus!
