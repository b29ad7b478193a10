//! What is said to the Cloudflare API and what it says: the data of requests and replies.

use crate::types::copy_text;
use vstd::prelude::*;

verus! {

/// What the API says of a token.
#[derive(Debug, PartialEq, Eq)]
pub struct TokenVerifyResult {
    pub status: String,
}

/// The model of [`TokenVerifyResult`].
#[verifier::ext_equal]
pub struct TokenStateView {
    pub status: Seq<char>,
}

impl View for TokenVerifyResult {
    type V = TokenStateView;

    open spec fn view(&self) -> TokenStateView {
        TokenStateView {
            status: self.status@,
        }
    }
}

impl DeepView for TokenVerifyResult {
    type V = TokenStateView;

    open spec fn deep_view(&self) -> TokenStateView {
        self@
    }
}

impl Clone for TokenVerifyResult {
    fn clone(&self) -> (copy: Self)
        ensures
            copy == *self,
    {
        TokenVerifyResult {
            status: self.status.clone(),
        }
    }
}

/// What the API says of the user.
#[derive(Debug, PartialEq, Eq)]
pub struct UserProfile {
    pub email: Option<String>,
}

/// The model of [`UserProfile`].
#[verifier::ext_equal]
pub struct UserView {
    pub email: Option<Seq<char>>,
}

impl View for UserProfile {
    type V = UserView;

    open spec fn view(&self) -> UserView {
        UserView {
            email: self.email.deep_view(),
        }
    }
}

impl DeepView for UserProfile {
    type V = UserView;

    open spec fn deep_view(&self) -> UserView {
        self@
    }
}

impl Clone for UserProfile {
    fn clone(&self) -> (copy: Self)
        ensures
            copy == *self,
    {
        UserProfile {
            email: copy_text(&self.email),
        }
    }
}

/// The account that a zone belongs to.
#[derive(Debug, PartialEq, Eq)]
pub struct ZoneAccount {
    pub id: String,
}

/// The model of [`ZoneAccount`].
#[verifier::ext_equal]
pub struct AccountView {
    pub id: Seq<char>,
}

impl View for ZoneAccount {
    type V = AccountView;

    open spec fn view(&self) -> AccountView {
        AccountView {
            id: self.id@,
        }
    }
}

impl DeepView for ZoneAccount {
    type V = AccountView;

    open spec fn deep_view(&self) -> AccountView {
        self@
    }
}

impl Clone for ZoneAccount {
    fn clone(&self) -> (copy: Self)
        ensures
            copy == *self,
    {
        ZoneAccount {
            id: self.id.clone(),
        }
    }
}

/// A zone: a domain that the API serves, with all below it.
#[derive(Debug, PartialEq, Eq)]
pub struct Zone {
    pub id: String,
    pub name: String,
    pub account: ZoneAccount,
}

/// The model of [`Zone`].
#[verifier::ext_equal]
pub struct ZoneView {
    pub id: Seq<char>,
    pub name: Seq<char>,
    pub account: AccountView,
}

impl View for Zone {
    type V = ZoneView;

    open spec fn view(&self) -> ZoneView {
        ZoneView {
            id: self.id@,
            name: self.name@,
            account: self.account@,
        }
    }
}

impl DeepView for Zone {
    type V = ZoneView;

    open spec fn deep_view(&self) -> ZoneView {
        self@
    }
}

impl Clone for Zone {
    fn clone(&self) -> (copy: Self)
        ensures
            copy == *self,
    {
        Zone {
            id: self.id.clone(),
            name: self.name.clone(),
            account: self.account.clone(),
        }
    }
}

/// A tunnel that is ready to run.
#[derive(Debug, PartialEq, Eq)]
pub struct TunnelDetails {
    pub id: String,
    pub name: String,
    pub token: String,
}

/// The model of [`TunnelDetails`].
#[verifier::ext_equal]
pub struct TunnelView {
    pub id: Seq<char>,
    pub name: Seq<char>,
    pub token: Seq<char>,
}

impl View for TunnelDetails {
    type V = TunnelView;

    open spec fn view(&self) -> TunnelView {
        TunnelView {
            id: self.id@,
            name: self.name@,
            token: self.token@,
        }
    }
}

impl DeepView for TunnelDetails {
    type V = TunnelView;

    open spec fn deep_view(&self) -> TunnelView {
        self@
    }
}

impl Clone for TunnelDetails {
    fn clone(&self) -> (copy: Self)
        ensures
            copy == *self,
    {
        TunnelDetails {
            id: self.id.clone(),
            name: self.name.clone(),
            token: self.token.clone(),
        }
    }
}

/// A tunnel in a list of tunnels.
#[derive(Debug, PartialEq, Eq)]
pub struct TunnelSummary {
    pub id: String,
    pub name: String,
}

/// The model of [`TunnelSummary`].
#[verifier::ext_equal]
pub struct SummaryView {
    pub id: Seq<char>,
    pub name: Seq<char>,
}

impl View for TunnelSummary {
    type V = SummaryView;

    open spec fn view(&self) -> SummaryView {
        SummaryView {
            id: self.id@,
            name: self.name@,
        }
    }
}

impl DeepView for TunnelSummary {
    type V = SummaryView;

    open spec fn deep_view(&self) -> SummaryView {
        self@
    }
}

impl Clone for TunnelSummary {
    fn clone(&self) -> (copy: Self)
        ensures
            copy == *self,
    {
        TunnelSummary {
            id: self.id.clone(),
            name: self.name.clone(),
        }
    }
}

/// A tunnel that was just made. The reply may hold its token.
#[derive(Debug, PartialEq, Eq)]
pub struct CreateTunnelResult {
    pub id: String,
    pub name: String,
    pub token: Option<String>,
}

/// The model of [`CreateTunnelResult`].
#[verifier::ext_equal]
pub struct CreatedView {
    pub id: Seq<char>,
    pub name: Seq<char>,
    pub token: Option<Seq<char>>,
}

impl View for CreateTunnelResult {
    type V = CreatedView;

    open spec fn view(&self) -> CreatedView {
        CreatedView {
            id: self.id@,
            name: self.name@,
            token: self.token.deep_view(),
        }
    }
}

impl DeepView for CreateTunnelResult {
    type V = CreatedView;

    open spec fn deep_view(&self) -> CreatedView {
        self@
    }
}

impl Clone for CreateTunnelResult {
    fn clone(&self) -> (copy: Self)
        ensures
            copy == *self,
    {
        CreateTunnelResult {
            id: self.id.clone(),
            name: self.name.clone(),
            token: copy_text(&self.token),
        }
    }
}

/// The token of a tunnel, in an object of its own.
#[derive(Debug, PartialEq, Eq)]
pub struct TunnelTokenResponse {
    pub token: String,
}

/// The model of [`TunnelTokenResponse`].
#[verifier::ext_equal]
pub struct TokenView {
    pub token: Seq<char>,
}

impl View for TunnelTokenResponse {
    type V = TokenView;

    open spec fn view(&self) -> TokenView {
        TokenView {
            token: self.token@,
        }
    }
}

impl DeepView for TunnelTokenResponse {
    type V = TokenView;

    open spec fn deep_view(&self) -> TokenView {
        self@
    }
}

impl Clone for TunnelTokenResponse {
    fn clone(&self) -> (copy: Self)
        ensures
            copy == *self,
    {
        TunnelTokenResponse {
            token: self.token.clone(),
        }
    }
}

/// A DNS record.
#[derive(Debug, PartialEq, Eq)]
pub struct DnsRecord {
    pub id: String,
}

/// The model of [`DnsRecord`].
#[verifier::ext_equal]
pub struct DnsView {
    pub id: Seq<char>,
}

impl View for DnsRecord {
    type V = DnsView;

    open spec fn view(&self) -> DnsView {
        DnsView {
            id: self.id@,
        }
    }
}

impl DeepView for DnsRecord {
    type V = DnsView;

    open spec fn deep_view(&self) -> DnsView {
        self@
    }
}

impl Clone for DnsRecord {
    fn clone(&self) -> (copy: Self)
        ensures
            copy == *self,
    {
        DnsRecord {
            id: self.id.clone(),
        }
    }
}

/// The tunnel to make.
#[derive(Debug, PartialEq, Eq)]
pub struct CreateTunnelRequest {
    pub name: String,
    pub config_src: String,
}

/// The model of [`CreateTunnelRequest`].
#[verifier::ext_equal]
pub struct CreateView {
    pub name: Seq<char>,
    pub config_src: Seq<char>,
}

impl View for CreateTunnelRequest {
    type V = CreateView;

    open spec fn view(&self) -> CreateView {
        CreateView {
            name: self.name@,
            config_src: self.config_src@,
        }
    }
}

impl DeepView for CreateTunnelRequest {
    type V = CreateView;

    open spec fn deep_view(&self) -> CreateView {
        self@
    }
}

impl Clone for CreateTunnelRequest {
    fn clone(&self) -> (copy: Self)
        ensures
            copy == *self,
    {
        CreateTunnelRequest {
            name: self.name.clone(),
            config_src: self.config_src.clone(),
        }
    }
}

/// How a tunnel speaks to the local service.
#[derive(Debug, Clone, Copy, PartialEq, Eq, Structural)]
pub struct OriginRequest {
    pub no_tls_verify: bool,
}

/// Where requests for a host name go. A rule without one is for all that is left.
#[derive(Debug, PartialEq, Eq)]
pub struct TunnelIngressRule {
    pub hostname: Option<String>,
    pub service: String,
    pub origin_request: Option<OriginRequest>,
}

/// The model of [`TunnelIngressRule`].
#[verifier::ext_equal]
pub struct RuleView {
    pub hostname: Option<Seq<char>>,
    pub service: Seq<char>,
    pub origin_request: Option<OriginRequest>,
}

impl View for TunnelIngressRule {
    type V = RuleView;

    open spec fn view(&self) -> RuleView {
        RuleView {
            hostname: self.hostname.deep_view(),
            service: self.service@,
            origin_request: self.origin_request,
        }
    }
}

impl DeepView for TunnelIngressRule {
    type V = RuleView;

    open spec fn deep_view(&self) -> RuleView {
        self@
    }
}

/// The rules of a tunnel: the first that fits decides.
#[derive(Debug, PartialEq, Eq)]
pub struct TunnelConfigRequest {
    pub ingress: Vec<TunnelIngressRule>,
}

/// The model of [`TunnelConfigRequest`].
#[verifier::ext_equal]
pub struct ConfigView {
    pub ingress: Seq<RuleView>,
}

impl View for TunnelConfigRequest {
    type V = ConfigView;

    open spec fn view(&self) -> ConfigView {
        ConfigView {
            ingress: self.ingress.deep_view(),
        }
    }
}

impl DeepView for TunnelConfigRequest {
    type V = ConfigView;

    open spec fn deep_view(&self) -> ConfigView {
        self@
    }
}

/// The DNS record to write.
#[derive(Debug, PartialEq, Eq)]
pub struct DnsRecordRequest {
    pub record_type: String,
    pub name: String,
    pub content: String,
    pub proxied: bool,
    pub ttl: u32,
}

/// The model of [`DnsRecordRequest`].
#[verifier::ext_equal]
pub struct DnsWriteView {
    pub record_type: Seq<char>,
    pub name: Seq<char>,
    pub content: Seq<char>,
    pub proxied: bool,
    pub ttl: u32,
}

impl View for DnsRecordRequest {
    type V = DnsWriteView;

    open spec fn view(&self) -> DnsWriteView {
        DnsWriteView {
            record_type: self.record_type@,
            name: self.name@,
            content: self.content@,
            proxied: self.proxied,
            ttl: self.ttl,
        }
    }
}

impl DeepView for DnsRecordRequest {
    type V = DnsWriteView;

    open spec fn deep_view(&self) -> DnsWriteView {
        self@
    }
}

/// What a request does.
#[derive(Debug, Clone, Copy, PartialEq, Eq, Structural)]
pub enum Method {
    Get,
    Post,
    Put,
    Delete,
}

/// What a request carries.
#[derive(Debug, PartialEq, Eq)]
pub enum Payload {
    Tunnel(CreateTunnelRequest),
    Rules(TunnelConfigRequest),
    Dns(DnsRecordRequest),
}

/// The model of [`Payload`].
#[verifier::ext_equal]
pub enum PayloadView {
    Tunnel(CreateView),
    Rules(ConfigView),
    Dns(DnsWriteView),
}

impl View for Payload {
    type V = PayloadView;

    open spec fn view(&self) -> PayloadView {
        match self {
            Payload::Tunnel(value) => PayloadView::Tunnel(value@),
            Payload::Rules(value) => PayloadView::Rules(value@),
            Payload::Dns(value) => PayloadView::Dns(value@),
        }
    }
}

impl DeepView for Payload {
    type V = PayloadView;

    open spec fn deep_view(&self) -> PayloadView {
        self@
    }
}

/// A request to the API, by the path below its root.
#[derive(Debug, PartialEq, Eq)]
pub struct ApiRequest {
    pub method: Method,
    pub path: String,
    pub body: Option<Payload>,
}

/// The model of [`ApiRequest`].
#[verifier::ext_equal]
pub struct RequestView {
    pub method: Method,
    pub path: Seq<char>,
    pub body: Option<PayloadView>,
}

impl View for ApiRequest {
    type V = RequestView;

    open spec fn view(&self) -> RequestView {
        RequestView {
            method: self.method,
            path: self.path@,
            body: self.body.deep_view(),
        }
    }
}

impl DeepView for ApiRequest {
    type V = RequestView;

    open spec fn deep_view(&self) -> RequestView {
        self@
    }
}

/// A request as it goes out.
#[derive(Debug, PartialEq, Eq)]
pub struct HttpRequest {
    pub method: Method,
    pub url: String,
    pub bearer: String,
    pub content_type: String,
    pub body: Option<Payload>,
}

/// The model of [`HttpRequest`].
#[verifier::ext_equal]
pub struct HttpView {
    pub method: Method,
    pub url: Seq<char>,
    pub bearer: Seq<char>,
    pub content_type: Seq<char>,
    pub body: Option<PayloadView>,
}

impl View for HttpRequest {
    type V = HttpView;

    open spec fn view(&self) -> HttpView {
        HttpView {
            method: self.method,
            url: self.url@,
            bearer: self.bearer@,
            content_type: self.content_type@,
            body: self.body.deep_view(),
        }
    }
}

impl DeepView for HttpRequest {
    type V = HttpView;

    open spec fn deep_view(&self) -> HttpView {
        self@
    }
}

/// One of the errors in a reply.
#[derive(Debug, PartialEq, Eq)]
pub struct ApiError {
    pub code: u64,
    pub message: Option<String>,
}

/// The model of [`ApiError`].
#[verifier::ext_equal]
pub struct ApiErrorView {
    pub code: u64,
    pub message: Option<Seq<char>>,
}

impl View for ApiError {
    type V = ApiErrorView;

    open spec fn view(&self) -> ApiErrorView {
        ApiErrorView {
            code: self.code,
            message: self.message.deep_view(),
        }
    }
}

impl DeepView for ApiError {
    type V = ApiErrorView;

    open spec fn deep_view(&self) -> ApiErrorView {
        self@
    }
}

} // verus!
