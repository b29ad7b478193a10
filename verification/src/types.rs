//! What a tunnel is: where it leads, what state it is in, and all that is recorded of it.

use crate::clock::Timestamp;
use crate::error::{failure, ErrorKind, Failure, Fault, PunchError};
use crate::number::{
    decimal, lemma_decimal, only_digits_are_read, parse_u16, read_unsigned, show, IntError,
};
use crate::text::{
    blank, concat2, concat3, has_char, is_whitespace, last_split_is_exact, lemma_split_at_last,
    outcome, rsplit_once, split_at_last, trim, trimmed, trimmed_end, trimmed_start,
    trimming_takes_margins_off,
};
use std::str::FromStr;
use vstd::prelude::*;
use vstd::string::*;

verus! {

/// What the local service speaks.
#[derive(Debug, Clone, Copy, PartialEq, Eq, Structural)]
pub enum LocalProtocol {
    Http,
    Https,
    Tcp,
}

impl LocalProtocol {
    /// The name of the protocol, as a URL scheme.
    pub open spec fn name(self) -> Seq<char> {
        match self {
            LocalProtocol::Http => "http"@,
            LocalProtocol::Https => "https"@,
            LocalProtocol::Tcp => "tcp"@,
        }
    }

    /// The URL of the local service on `port`.
    pub open spec fn url(self, port: u16) -> Seq<char> {
        self.name() + "://127.0.0.1:"@ + decimal(port as nat)
    }

    /// The URL of the local service on `port`.
    pub fn service_url(self, port: u16) -> (url: String)
        ensures
            url@ == self.url(port),
    {
        concat3(self.scheme(), "://127.0.0.1:", show(port as u64).as_str())
    }

    /// The name of the protocol, as a URL scheme.
    pub fn scheme(self) -> (scheme: &'static str)
        ensures
            scheme@ == self.name(),
    {
        match self {
            LocalProtocol::Http => "http",
            LocalProtocol::Https => "https",
            LocalProtocol::Tcp => "tcp",
        }
    }
}

/// The port that a target leads to when it names none.
pub const DEFAULT_PORT: u16 = 8080;

/// Where a tunnel leads: the public domain and the local port.
#[derive(Debug, PartialEq, Eq)]
pub struct TunnelTarget {
    pub domain: String,
    pub port: u16,
}

/// The model of [`TunnelTarget`].
#[verifier::ext_equal]
pub struct TargetView {
    pub domain: Seq<char>,
    pub port: u16,
}

impl View for TunnelTarget {
    type V = TargetView;

    open spec fn view(&self) -> TargetView {
        TargetView { domain: self.domain@, port: self.port }
    }
}

impl DeepView for TunnelTarget {
    type V = TargetView;

    open spec fn deep_view(&self) -> TargetView {
        self@
    }
}

/// `domain` and `port` as a target, unless the domain holds no dot.
pub open spec fn checked_target(domain: Seq<char>, port: u16) -> Result<TargetView, Failure> {
    if domain.contains('.') {
        Ok(TargetView { domain, port })
    } else {
        Err(failure(Fault::InvalidDomain(domain)))
    }
}

/// What the target `value` means: white space around it does not count, and what follows
/// the last colon is the port, unless it holds a dot.
pub open spec fn target_of(value: Seq<char>) -> Result<TargetView, Failure> {
    let text = trimmed(value);
    if text.len() == 0 {
        Err(failure(Fault::EmptyTarget))
    } else {
        match split_at_last(text, ':') {
            Some((domain, port)) => if port.contains('.') {
                checked_target(text, DEFAULT_PORT)
            } else {
                match read_unsigned(port, u16::MAX as nat) {
                    Ok(n) => checked_target(domain, n as u16),
                    Err(cause) => Err(
                        Failure { kind: Fault::InvalidPort(port), causes: seq![cause.text()] },
                    ),
                }
            },
            None => checked_target(text, DEFAULT_PORT),
        }
    }
}

impl TunnelTarget {
    /// The target that `value` names: `domain:port`, or the domain alone.
    pub fn parse(value: &str) -> (target: Result<TunnelTarget, PunchError>)
        ensures
            outcome(target) == target_of(value@),
    {
        let text = trim(value);
        if text.as_str().is_empty() {
            return Err(PunchError::new(ErrorKind::EmptyTarget));
        }
        let (domain, port) = match rsplit_once(text.as_str(), ':') {
            Some((domain, port)) => if !has_char(port.as_str(), '.') {
                match parse_u16(port.as_str()) {
                    Ok(n) => (domain, n),
                    Err(cause) => {
                        return Err(
                            PunchError::caused(ErrorKind::InvalidPort(port), cause.message()),
                        );
                    },
                }
            } else {
                (text, DEFAULT_PORT)
            },
            None => (text, DEFAULT_PORT),
        };
        if domain.as_str().is_empty() || !has_char(domain.as_str(), '.') {
            return Err(PunchError::new(ErrorKind::InvalidDomain(domain)));
        }
        Ok(TunnelTarget { domain, port })
    }
}

impl Clone for TunnelTarget {
    fn clone(&self) -> (target: Self)
        ensures
            target == *self,
    {
        TunnelTarget { domain: self.domain.clone(), port: self.port }
    }
}

impl FromStr for TunnelTarget {
    type Err = PunchError;

    fn from_str(value: &str) -> (target: Result<TunnelTarget, PunchError>)
        ensures
            outcome(target) == target_of(value@),
    {
        TunnelTarget::parse(value)
    }
}

/// What is known of the process behind a tunnel.
#[derive(Debug, Clone, Copy, PartialEq, Eq, Structural)]
pub enum TunnelStatus {
    Running,
    Stopped,
    Failed,
    Unknown,
}

impl TunnelStatus {
    /// The name of the status.
    pub open spec fn name(self) -> Seq<char> {
        match self {
            TunnelStatus::Running => "running"@,
            TunnelStatus::Stopped => "stopped"@,
            TunnelStatus::Failed => "failed"@,
            TunnelStatus::Unknown => "unknown"@,
        }
    }

    /// The name of the status.
    pub fn label(self) -> (label: &'static str)
        ensures
            label@ == self.name(),
    {
        match self {
            TunnelStatus::Running => "running",
            TunnelStatus::Stopped => "stopped",
            TunnelStatus::Failed => "failed",
            TunnelStatus::Unknown => "unknown",
        }
    }
}

/// The terms on which a tunnel is shared.
#[derive(Debug, PartialEq, Eq)]
pub struct ShareSettings {
    pub expires_at: Timestamp,
    pub password_hint: String,
}

/// The model of [`ShareSettings`].
#[verifier::ext_equal]
pub struct ShareView {
    pub expires_at: Timestamp,
    pub password_hint: Seq<char>,
}

impl View for ShareSettings {
    type V = ShareView;

    open spec fn view(&self) -> ShareView {
        ShareView {
            expires_at: self.expires_at,
            password_hint: self.password_hint@,
        }
    }
}

impl DeepView for ShareSettings {
    type V = ShareView;

    open spec fn deep_view(&self) -> ShareView {
        self@
    }
}

impl Clone for ShareSettings {
    fn clone(&self) -> (copy: Self)
        ensures
            copy == *self,
    {
        ShareSettings {
            expires_at: self.expires_at,
            password_hint: self.password_hint.clone(),
        }
    }
}

/// All that is recorded of a tunnel.
#[derive(Debug, PartialEq, Eq)]
pub struct TunnelRecord {
    pub domain: String,
    pub local_port: u16,
    pub local_protocol: LocalProtocol,
    pub zone_id: String,
    pub zone_name: String,
    pub account_id: String,
    pub tunnel_id: String,
    pub tunnel_name: String,
    pub tunnel_token: String,
    pub dns_record_id: Option<String>,
    pub dns_target: String,
    pub pid: Option<u32>,
    pub detached: bool,
    pub status: TunnelStatus,
    pub log_file: String,
    pub created_at: Timestamp,
    pub started_at: Option<Timestamp>,
    pub last_seen_at: Option<Timestamp>,
    pub share: Option<ShareSettings>,
}

/// The model of [`TunnelRecord`].
#[verifier::ext_equal]
pub struct RecordView {
    pub domain: Seq<char>,
    pub local_port: u16,
    pub local_protocol: LocalProtocol,
    pub zone_id: Seq<char>,
    pub zone_name: Seq<char>,
    pub account_id: Seq<char>,
    pub tunnel_id: Seq<char>,
    pub tunnel_name: Seq<char>,
    pub tunnel_token: Seq<char>,
    pub dns_record_id: Option<Seq<char>>,
    pub dns_target: Seq<char>,
    pub pid: Option<u32>,
    pub detached: bool,
    pub status: TunnelStatus,
    pub log_file: Seq<char>,
    pub created_at: Timestamp,
    pub started_at: Option<Timestamp>,
    pub last_seen_at: Option<Timestamp>,
    pub share: Option<ShareView>,
}

impl View for TunnelRecord {
    type V = RecordView;

    open spec fn view(&self) -> RecordView {
        RecordView {
            domain: self.domain@,
            local_port: self.local_port,
            local_protocol: self.local_protocol,
            zone_id: self.zone_id@,
            zone_name: self.zone_name@,
            account_id: self.account_id@,
            tunnel_id: self.tunnel_id@,
            tunnel_name: self.tunnel_name@,
            tunnel_token: self.tunnel_token@,
            dns_record_id: self.dns_record_id.deep_view(),
            dns_target: self.dns_target@,
            pid: self.pid,
            detached: self.detached,
            status: self.status,
            log_file: self.log_file@,
            created_at: self.created_at,
            started_at: self.started_at,
            last_seen_at: self.last_seen_at,
            share: self.share.deep_view(),
        }
    }
}

impl DeepView for TunnelRecord {
    type V = RecordView;

    open spec fn deep_view(&self) -> RecordView {
        self@
    }
}

impl Clone for TunnelRecord {
    fn clone(&self) -> (copy: Self)
        ensures
            copy == *self,
    {
        TunnelRecord {
            domain: self.domain.clone(),
            local_port: self.local_port,
            local_protocol: self.local_protocol,
            zone_id: self.zone_id.clone(),
            zone_name: self.zone_name.clone(),
            account_id: self.account_id.clone(),
            tunnel_id: self.tunnel_id.clone(),
            tunnel_name: self.tunnel_name.clone(),
            tunnel_token: self.tunnel_token.clone(),
            dns_record_id: copy_text(&self.dns_record_id),
            dns_target: self.dns_target.clone(),
            pid: self.pid,
            detached: self.detached,
            status: self.status,
            log_file: self.log_file.clone(),
            created_at: self.created_at,
            started_at: self.started_at,
            last_seen_at: self.last_seen_at,
            share: match &self.share {
                Some(value) => Some(value.clone()),
                None => None,
            },
        }
    }
}

/// The public URL of `domain`.
pub open spec fn url_of(domain: Seq<char>) -> Seq<char> {
    "https://"@ + domain
}

/// A copy of an optional text.
pub fn copy_text(text: &Option<String>) -> (copy: Option<String>)
    ensures
        copy == *text,
{
    match text {
        Some(t) => Some(t.clone()),
        None => None,
    }
}

impl TunnelRecord {
    /// The URL under which the tunnel is reached from outside.
    pub fn public_url(&self) -> (url: String)
        ensures
            url@ == url_of(self.domain@),
    {
        concat2("https://", self.domain.as_str())
    }

    /// The URL of the local service behind the tunnel.
    pub fn local_target(&self) -> (url: String)
        ensures
            url@ == self.local_protocol.url(self.local_port),
    {
        self.local_protocol.service_url(self.local_port)
    }
}

/// A text that neither begins nor ends with white space is its own trimming.
pub proof fn lemma_trimmed_fixed(s: Seq<char>)
    requires
        s.len() > 0,
        !is_whitespace(s.first()),
        !is_whitespace(s.last()),
    ensures
        trimmed(s) == s,
{
}

/// A domain and a port written together as `domain:port` are read back as they were, for
/// every port and for every domain that holds a dot and begins with no white space.
pub proof fn target_reads_back(domain: Seq<char>, port: u16)
    requires
        domain.contains('.'),
        !is_whitespace(domain.first()),
    ensures
        target_of(domain + ":"@ + decimal(port as nat)) == Ok::<TargetView, Failure>(
            TargetView { domain, port },
        ),
{
    let digits = decimal(port as nat);
    let value = domain + ":"@ + digits;
    lemma_decimal(port as nat);
    reveal_strlit(":");
    assert(value.first() == domain.first());
    assert(value.last() == digits.last());
    assert(crate::number::is_digit(digits[digits.len() - 1]));
    lemma_trimmed_fixed(value);
    assert(value[domain.len() as int] == ':');
    assert forall|j: int| domain.len() < j < value.len() implies value[j] != ':' by {
        assert(value[j] == digits[j - domain.len() - 1]);
        assert(crate::number::is_digit(digits[j - domain.len() - 1]));
    }
    lemma_split_at_last(value, ':', domain.len() as int);
    assert(value.take(domain.len() as int) == domain);
    assert(value.skip(domain.len() as int + 1) == digits);
    assert(!digits.contains('.')) by {
        assert forall|j: int| 0 <= j < digits.len() implies digits[j] != '.' by {
            assert(crate::number::is_digit(digits[j]));
        }
    }
    crate::number::decimal_reads_back(port as nat, u16::MAX as nat);
}

/// A target without a colon leads to the default port: the whole text is the domain.
pub proof fn default_port_without_colon(domain: Seq<char>)
    requires
        domain.contains('.'),
        !domain.contains(':'),
        !is_whitespace(domain.first()),
        !is_whitespace(domain.last()),
    ensures
        target_of(domain) == Ok::<TargetView, Failure>(TargetView { domain, port: 8080 }),
{
    lemma_trimmed_fixed(domain);
    crate::text::lemma_split_at_last_none(domain, ':');
}

/// White space around a target makes no difference.
pub proof fn target_ignores_margins(value: Seq<char>)
    ensures
        target_of(trimmed(value)) == target_of(value),
{
    lemma_trimmed_twice(value);
}

/// Trimming a second time changes nothing.
pub proof fn lemma_trimmed_twice(s: Seq<char>)
    ensures
        trimmed(trimmed(s)) == trimmed(s),
{
    lemma_start_fixed(s);
    lemma_end_fixed(trimmed_start(s));
    let t = trimmed(s);
    if t.len() > 0 {
        lemma_trimmed_fixed(t);
    }
}

/// What is left after the leading white space is gone begins with none.
proof fn lemma_start_fixed(s: Seq<char>)
    ensures
        trimmed_start(s).len() > 0 ==> !is_whitespace(trimmed_start(s).first()),
    decreases s.len(),
{
    if s.len() > 0 && is_whitespace(s.first()) {
        lemma_start_fixed(s.drop_first());
    }
}

/// What is left after the trailing white space is gone ends with none, and begins as before.
proof fn lemma_end_fixed(s: Seq<char>)
    ensures
        trimmed_end(s).len() > 0 ==> !is_whitespace(trimmed_end(s).last()),
        trimmed_end(s).len() > 0 ==> trimmed_end(s).first() == s.first(),
    decreases s.len(),
{
    if s.len() > 0 && is_whitespace(s.last()) {
        lemma_end_fixed(s.drop_last());
    }
}

/// The local service is reached on its port, under the scheme of its protocol; the tunnel is
/// reached over HTTPS under its domain.
pub proof fn addresses_are_urls(port: u16, domain: Seq<char>)
    ensures
        LocalProtocol::Http.url(port) == "http://127.0.0.1:"@ + decimal(port as nat),
        LocalProtocol::Https.url(port) == "https://127.0.0.1:"@ + decimal(port as nat),
        LocalProtocol::Tcp.url(port) == "tcp://127.0.0.1:"@ + decimal(port as nat),
        url_of(domain) == "https://"@ + domain,
{
    reveal_strlit("http");
    reveal_strlit("https");
    reveal_strlit("tcp");
    reveal_strlit("://127.0.0.1:");
    reveal_strlit("http://127.0.0.1:");
    reveal_strlit("https://127.0.0.1:");
    reveal_strlit("tcp://127.0.0.1:");
    assert("http"@ + "://127.0.0.1:"@ =~= "http://127.0.0.1:"@);
    assert("https"@ + "://127.0.0.1:"@ =~= "https://127.0.0.1:"@);
    assert("tcp"@ + "://127.0.0.1:"@ =~= "tcp://127.0.0.1:"@);
}

/// Each status and each protocol has its own name.
pub proof fn names_are_told_apart()
    ensures
        LocalProtocol::Http.name() == "http"@,
        LocalProtocol::Https.name() == "https"@,
        LocalProtocol::Tcp.name() == "tcp"@,
        TunnelStatus::Running.name() == "running"@,
        TunnelStatus::Stopped.name() == "stopped"@,
        TunnelStatus::Failed.name() == "failed"@,
        TunnelStatus::Unknown.name() == "unknown"@,
{
}

/// A target that is understood is what was written, white space aside: a domain with a dot in it,
/// alone and then with the default port, or with a colon and the number of its port behind it.
pub proof fn target_is_what_was_written(value: Seq<char>)
    ensures
        target_of(value) matches Ok(target) ==> target.domain.contains('.') && ((trimmed(value)
            == target.domain && target.port == 8080) || exists|port: Seq<char>|
            trimmed(value) == target.domain + seq![':'] + port && !port.contains(':')
                && #[trigger] read_unsigned(port, 65535) == Ok::<nat, IntError>(
                target.port as nat,
            )),
{
    last_split_is_exact(trimmed(value), ':');
    if let Ok(target) = target_of(value) {
        if let Some((left, right)) = split_at_last(trimmed(value), ':') {
            if !right.contains('.') {
                only_digits_are_read(right, 65535);
                assert(read_unsigned(right, 65535) == Ok::<nat, IntError>(target.port as nat));
            }
        }
    }
}

/// What is refused as a target is refused for what is wrong with it: nothing is there, what stands
/// behind the colon is no port, or the domain holds no dot.
pub proof fn bad_targets_are_refused(value: Seq<char>, domain: Seq<char>, port: Seq<char>)
    ensures
        blank(value) ==> target_of(value) == Err::<TargetView, Failure>(
            Failure { kind: Fault::EmptyTarget, causes: Seq::empty() },
        ),
        trimmed(value).len() > 0 && !trimmed(value).contains('.') && !trimmed(value).contains(':')
            ==> target_of(value) == Err::<TargetView, Failure>(
            Failure { kind: Fault::InvalidDomain(trimmed(value)), causes: Seq::empty() },
        ),
        trimmed(value) == domain + seq![':'] + port && !port.contains(':') && !port.contains('.')
            ==> match read_unsigned(port, 65535) {
            Ok(n) => domain.contains('.') || target_of(value) == Err::<TargetView, Failure>(
                Failure { kind: Fault::InvalidDomain(domain), causes: Seq::empty() },
            ),
            Err(cause) => target_of(value) == Err::<TargetView, Failure>(
                Failure { kind: Fault::InvalidPort(port), causes: seq![cause.text()] },
            ),
        },
{
    let text = trimmed(value);
    if blank(value) {
        trimming_takes_margins_off(value);
        let (before, after) = choose|before: Seq<char>, after: Seq<char>|
            #[trigger] (before + text + after) == value && blank(before) && blank(after);
        if text.len() > 0 {
            assert(value[before.len() as int] == text.first());
        }
    }
    if !text.contains(':') {
        crate::text::lemma_split_at_last_none(text, ':');
    }
    if text == domain + seq![':'] + port && !port.contains(':') {
        assert(text[domain.len() as int] == ':');
        assert(text.contains(text[domain.len() as int]));
        assert forall|j: int| domain.len() < j < text.len() implies text[j] != ':' by {
            assert(text[j] == port[j - domain.len() - 1]);
            assert(port.contains(port[j - domain.len() - 1]));
        }
        lemma_split_at_last(text, ':', domain.len() as int);
        assert(text.take(domain.len() as int) =~= domain);
        assert(text.skip(domain.len() as int + 1) =~= port);
    }
}

/// A colon with a dot somewhere behind it is part of the domain.
pub proof fn colon_before_a_dot_is_no_port(value: Seq<char>, left: Seq<char>, right: Seq<char>)
    requires
        trimmed(value) == left + seq![':'] + right,
        !right.contains(':'),
        right.contains('.'),
    ensures
        target_of(value) == Ok::<TargetView, Failure>(
            TargetView { domain: trimmed(value), port: 8080 },
        ),
{
    let text = trimmed(value);
    assert(text[left.len() as int] == ':');
    assert forall|j: int| left.len() < j < text.len() implies text[j] != ':' by {
        assert(text[j] == right[j - left.len() - 1]);
        assert(right.contains(right[j - left.len() - 1]));
    }
    lemma_split_at_last(text, ':', left.len() as int);
    assert(text.skip(left.len() as int + 1) =~= right);
    let i = choose|i: int| 0 <= i < right.len() && right[i] == '.';
    assert(text[left.len() + 1 + i] == '.');
}

} // verus!
