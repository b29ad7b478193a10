//! The Cloudflare API: what is asked of it, and what its replies mean.

pub use crate::api::{
    AccountView, ApiError, ApiErrorView, ApiRequest, ConfigView, CreateTunnelRequest,
    CreateTunnelResult, CreateView, CreatedView, DnsRecord, DnsRecordRequest, DnsView,
    DnsWriteView, HttpRequest, HttpView, Method, OriginRequest, Payload, PayloadView,
    RequestView, RuleView, SummaryView, TokenStateView, TokenVerifyResult, TokenView,
    TunnelConfigRequest, TunnelDetails, TunnelIngressRule, TunnelSummary, TunnelTokenResponse,
    TunnelView, UserProfile, UserView, Zone, ZoneAccount, ZoneView,
};
use crate::error::{failure, ErrorKind, Failure, Fault, PunchError};
use crate::number::{decimal, show};
use crate::text::{
    concat2, concat3, concat4, join, joined, joining_undoes_splitting, lemma_split_len, outcome,
    parts_are_joined_by_separators, split, split_text,
};
use vstd::prelude::*;
use vstd::string::*;

verus! {

/// The version of the program.
pub const VERSION: &'static str = "0.1.0";

/// A reply of the API, as it is read.
#[derive(Debug)]
pub struct ApiEnvelope<T> {
    pub success: bool,
    pub errors: Vec<ApiError>,
    pub result: Option<T>,
}

/// What came of a request.
#[derive(Debug)]
pub enum Reply<T> {
    /// It could not be sent.
    SendFailed(Vec<String>),
    /// The body of the reply could not be read.
    ReadFailed(Vec<String>),
    /// The body is no reply of the API.
    Malformed(String, Vec<String>),
    /// The HTTP status and the reply.
    Parsed(String, ApiEnvelope<T>),
}

/// What an error in a reply says.
pub open spec fn error_text(error: ApiErrorView) -> Seq<char> {
    match error.message {
        Some(message) => message,
        None => "Cloudflare 错误 "@ + decimal(error.code as nat),
    }
}

/// What the errors in a reply say.
pub open spec fn errors_text(errors: Seq<ApiErrorView>) -> Seq<char> {
    joined(errors.map_values(|error: ApiErrorView| error_text(error)), "; "@)
}

/// A search for the zone of a domain: the candidate that was asked for.
#[derive(Debug, PartialEq, Eq)]
pub struct ZoneSearch {
    pub domain: String,
    pub index: usize,
}

/// The model of [`ZoneSearch`].
#[verifier::ext_equal]
pub struct SearchView {
    pub domain: Seq<char>,
    pub index: usize,
}

impl View for ZoneSearch {
    type V = SearchView;

    open spec fn view(&self) -> SearchView {
        SearchView {
            domain: self.domain@,
            index: self.index,
        }
    }
}

impl DeepView for ZoneSearch {
    type V = SearchView;

    open spec fn deep_view(&self) -> SearchView {
        self@
    }
}

/// How a search for a zone goes on.
#[derive(Debug)]
pub enum ZoneStep {
    /// Ask this.
    Ask(ApiRequest, ZoneSearch),
    /// It is over.
    Done(Result<Zone, PunchError>),
}

/// The model of [`ZoneStep`].
#[verifier::ext_equal]
pub enum ZoneStepView {
    Ask(RequestView, SearchView),
    Done(Result<ZoneView, Failure>),
}

impl View for ZoneStep {
    type V = ZoneStepView;

    open spec fn view(&self) -> ZoneStepView {
        match self {
            ZoneStep::Ask(a, b) => ZoneStepView::Ask(a@, b@),
            ZoneStep::Done(value) => ZoneStepView::Done(outcome(*value)),
        }
    }
}

impl DeepView for ZoneStep {
    type V = ZoneStepView;

    open spec fn deep_view(&self) -> ZoneStepView {
        self@
    }
}

/// A tunnel is looked for among those that there are.
#[derive(Debug, PartialEq, Eq)]
pub struct TunnelListing {
    pub account_id: String,
    pub tunnel_name: String,
}

/// The model of [`TunnelListing`].
#[verifier::ext_equal]
pub struct ListingView {
    pub account_id: Seq<char>,
    pub tunnel_name: Seq<char>,
}

impl View for TunnelListing {
    type V = ListingView;

    open spec fn view(&self) -> ListingView {
        ListingView {
            account_id: self.account_id@,
            tunnel_name: self.tunnel_name@,
        }
    }
}

impl DeepView for TunnelListing {
    type V = ListingView;

    open spec fn deep_view(&self) -> ListingView {
        self@
    }
}

/// A tunnel is being made.
#[derive(Debug, PartialEq, Eq)]
pub struct TunnelCreation {
    pub account_id: String,
}

/// The model of [`TunnelCreation`].
#[verifier::ext_equal]
pub struct CreationView {
    pub account_id: Seq<char>,
}

impl View for TunnelCreation {
    type V = CreationView;

    open spec fn view(&self) -> CreationView {
        CreationView {
            account_id: self.account_id@,
        }
    }
}

impl DeepView for TunnelCreation {
    type V = CreationView;

    open spec fn deep_view(&self) -> CreationView {
        self@
    }
}

/// The token of a tunnel is asked for.
#[derive(Debug, PartialEq, Eq)]
pub struct TokenFetch {
    pub account_id: String,
    pub id: String,
    pub name: String,
}

/// The model of [`TokenFetch`].
#[verifier::ext_equal]
pub struct FetchView {
    pub account_id: Seq<char>,
    pub id: Seq<char>,
    pub name: Seq<char>,
}

impl View for TokenFetch {
    type V = FetchView;

    open spec fn view(&self) -> FetchView {
        FetchView {
            account_id: self.account_id@,
            id: self.id@,
            name: self.name@,
        }
    }
}

impl DeepView for TokenFetch {
    type V = FetchView;

    open spec fn deep_view(&self) -> FetchView {
        self@
    }
}

/// The token of a tunnel is asked for a second time.
#[derive(Debug, PartialEq, Eq)]
pub struct TokenRetry {
    pub id: String,
    pub name: String,
}

/// The model of [`TokenRetry`].
#[verifier::ext_equal]
pub struct RetryView {
    pub id: Seq<char>,
    pub name: Seq<char>,
}

impl View for TokenRetry {
    type V = RetryView;

    open spec fn view(&self) -> RetryView {
        RetryView {
            id: self.id@,
            name: self.name@,
        }
    }
}

impl DeepView for TokenRetry {
    type V = RetryView;

    open spec fn deep_view(&self) -> RetryView {
        self@
    }
}

/// How the setup of a tunnel goes on.
#[derive(Debug)]
pub enum TunnelStep {
    /// Ask for its token.
    FetchToken(ApiRequest, TokenFetch),
    /// Make it.
    Create(ApiRequest, TunnelCreation),
    /// It is over.
    Done(Result<TunnelDetails, PunchError>),
}

/// The model of [`TunnelStep`].
#[verifier::ext_equal]
pub enum TunnelStepView {
    FetchToken(RequestView, FetchView),
    Create(RequestView, CreationView),
    Done(Result<TunnelView, Failure>),
}

impl View for TunnelStep {
    type V = TunnelStepView;

    open spec fn view(&self) -> TunnelStepView {
        match self {
            TunnelStep::FetchToken(a, b) => TunnelStepView::FetchToken(a@, b@),
            TunnelStep::Create(a, b) => TunnelStepView::Create(a@, b@),
            TunnelStep::Done(value) => TunnelStepView::Done(outcome(*value)),
        }
    }
}

impl DeepView for TunnelStep {
    type V = TunnelStepView;

    open spec fn deep_view(&self) -> TunnelStepView {
        self@
    }
}

/// How asking for a token goes on.
#[derive(Debug)]
pub enum TokenStep {
    /// Ask again.
    Retry(ApiRequest, TokenRetry),
    /// It is over.
    Done(Result<TunnelDetails, PunchError>),
}

/// The model of [`TokenStep`].
#[verifier::ext_equal]
pub enum TokenStepView {
    Retry(RequestView, RetryView),
    Done(Result<TunnelView, Failure>),
}

impl View for TokenStep {
    type V = TokenStepView;

    open spec fn view(&self) -> TokenStepView {
        match self {
            TokenStep::Retry(a, b) => TokenStepView::Retry(a@, b@),
            TokenStep::Done(value) => TokenStepView::Done(outcome(*value)),
        }
    }
}

impl DeepView for TokenStep {
    type V = TokenStepView;

    open spec fn deep_view(&self) -> TokenStepView {
        self@
    }
}

/// A DNS record is looked for.
#[derive(Debug, PartialEq, Eq)]
pub struct DnsListing {
    pub zone_id: String,
    pub hostname: String,
    pub target: String,
}

/// The model of [`DnsListing`].
#[verifier::ext_equal]
pub struct DnsListingView {
    pub zone_id: Seq<char>,
    pub hostname: Seq<char>,
    pub target: Seq<char>,
}

impl View for DnsListing {
    type V = DnsListingView;

    open spec fn view(&self) -> DnsListingView {
        DnsListingView {
            zone_id: self.zone_id@,
            hostname: self.hostname@,
            target: self.target@,
        }
    }
}

impl DeepView for DnsListing {
    type V = DnsListingView;

    open spec fn deep_view(&self) -> DnsListingView {
        self@
    }
}

/// What came of a request: the result, or why there is none.
pub open spec fn interpreted<T>(reply: Reply<T>) -> Result<T, Failure> {
    match reply {
        Reply::SendFailed(causes) => Err(
            Failure { kind: Fault::Outside("Cloudflare API 请求失败"@), causes: causes.deep_view() },
        ),
        Reply::ReadFailed(causes) => Err(
            Failure {
                kind: Fault::Outside("读取 Cloudflare API 响应失败"@),
                causes: causes.deep_view(),
            },
        ),
        Reply::Malformed(body, causes) => Err(
            Failure { kind: Fault::UnreadableReply(body@), causes: causes.deep_view() },
        ),
        Reply::Parsed(status, envelope) => if envelope.success {
            match envelope.result {
                Some(result) => Ok(result),
                None => Err(failure(Fault::MissingResult)),
            }
        } else {
            Err(failure(Fault::Api(status@, errors_text(envelope.errors.deep_view()))))
        },
    }
}

/// What the errors in a reply say.
fn describe(errors: &Vec<ApiError>) -> (message: String)
    ensures
        message@ == errors_text(errors.deep_view()),
{
    let mut parts: Vec<String> = Vec::new();
    let mut i: usize = 0;
    while i < errors.len()
        invariant
            i <= errors@.len(),
            parts@.len() == i,
            forall|j: int| 0 <= j < i ==> (#[trigger] parts@[j])@ == error_text(errors@[j]@),
        decreases errors@.len() - i,
    {
        let text = match &errors[i].message {
            Some(message) => message.clone(),
            None => concat2("Cloudflare 错误 ", show(errors[i].code).as_str()),
        };
        parts.push(text);
        i = i + 1;
    }
    proof {
        assert(parts.deep_view() =~= errors.deep_view().map_values(
            |error: ApiErrorView| error_text(error),
        ));
    }
    join(&parts, "; ")
}

/// What came of a request: the result, or why there is none.
pub fn interpret<T>(reply: Reply<T>) -> (result: Result<T, PunchError>)
    ensures
        match interpreted(reply) {
            Ok(value) => result matches Ok(v) && v == value,
            Err(error) => result matches Err(e) && e@ == error,
        },
{
    match reply {
        Reply::SendFailed(causes) => Err(PunchError::outside("Cloudflare API 请求失败", causes)),
        Reply::ReadFailed(causes) => Err(
            PunchError::outside("读取 Cloudflare API 响应失败", causes),
        ),
        Reply::Malformed(body, causes) => Err(
            PunchError { kind: ErrorKind::UnreadableReply(body), causes },
        ),
        Reply::Parsed(status, envelope) => if envelope.success {
            match envelope.result {
                Some(result) => Ok(result),
                None => Err(PunchError::new(ErrorKind::MissingResult)),
            }
        } else {
            let message = describe(&envelope.errors);
            Err(PunchError::new(ErrorKind::Api(status, message)))
        },
    }
}

/// A request without a body.
pub open spec fn bare(method: Method, path: Seq<char>) -> RequestView {
    RequestView { method, path, body: None }
}

/// The path of the tunnels of an account.
pub open spec fn tunnels_path(account: Seq<char>) -> Seq<char> {
    "accounts/"@ + account + "/cfd_tunnel"@
}

/// The path of one tunnel.
pub open spec fn tunnel_path(account: Seq<char>, tunnel: Seq<char>) -> Seq<char> {
    tunnels_path(account) + "/"@ + tunnel
}

/// The path of the DNS records of a zone.
pub open spec fn dns_path(zone: Seq<char>) -> Seq<char> {
    "zones/"@ + zone + "/dns_records"@
}

/// The request for the token of a tunnel.
pub open spec fn token_request(account: Seq<char>, tunnel: Seq<char>) -> RequestView {
    bare(Method::Get, tunnel_path(account, tunnel) + "/token"@)
}

/// The request for the zone with the name `name`.
pub open spec fn zone_request(name: Seq<char>) -> RequestView {
    bare(Method::Get, "zones?name="@ + name + "&status=active&per_page=1"@)
}

/// The rules that send `hostname` to `service` and refuse all else.
pub open spec fn rules_for(
    hostname: Seq<char>,
    service: Seq<char>,
    insecure: bool,
) -> Seq<RuleView> {
    seq![
        RuleView {
            hostname: Some(hostname),
            service,
            origin_request: Some(OriginRequest { no_tls_verify: insecure }),
        },
        RuleView { hostname: None, service: "http_status:404"@, origin_request: None },
    ]
}

/// The DNS record that leads `hostname` to `target`.
pub open spec fn alias(hostname: Seq<char>, target: Seq<char>) -> PayloadView {
    PayloadView::Dns(
        DnsWriteView {
            record_type: "CNAME"@,
            name: hostname,
            content: target,
            proxied: true,
            ttl: 1,
        },
    )
}

/// The tunnel `name`, run by the settings that the API keeps.
pub open spec fn new_tunnel(name: Seq<char>) -> PayloadView {
    PayloadView::Tunnel(CreateView { name, config_src: "cloudflare"@ })
}

/// `domain` without its first `index` labels.
pub open spec fn zone_candidate(domain: Seq<char>, index: int) -> Seq<char> {
    joined(split(domain, '.').skip(index), "."@)
}

/// How many candidates for its zone a domain has: its tails of two labels and more.
pub open spec fn candidate_count(domain: Seq<char>) -> int {
    split(domain, '.').len() - 1
}

/// The search for the zone of `domain`, from the candidate `index` on.
pub open spec fn zone_step(domain: Seq<char>, index: int) -> ZoneStepView {
    if index < candidate_count(domain) {
        ZoneStepView::Ask(
            zone_request(zone_candidate(domain, index)),
            SearchView { domain, index: index as usize },
        )
    } else {
        ZoneStepView::Done(Err(failure(Fault::NotHosted(domain))))
    }
}

/// How the search for a zone goes on after a reply: the first zone that a reply holds is it.
pub open spec fn zone_next(
    search: SearchView,
    reply: Result<Seq<ZoneView>, Failure>,
) -> ZoneStepView {
    match reply {
        Err(error) => ZoneStepView::Done(Err(error)),
        Ok(zones) => if zones.len() > 0 {
            ZoneStepView::Done(Ok(zones[0]))
        } else {
            zone_step(search.domain, search.index + 1)
        },
    }
}

/// The tunnels with the name `name` that an account has.
pub open spec fn tunnel_query(account: Seq<char>, name: Seq<char>) -> RequestView {
    bare(
        Method::Get,
        tunnels_path(account) + "?name="@ + name + "&is_deleted=false&per_page=1"@,
    )
}

/// How the setup of a tunnel goes on when the tunnels of its name are known: the first one is
/// taken, and where there is none, one is made.
pub open spec fn listed_next(
    listing: ListingView,
    reply: Result<Seq<SummaryView>, Failure>,
) -> TunnelStepView {
    match reply {
        Err(error) => TunnelStepView::Done(Err(error)),
        Ok(tunnels) => if tunnels.len() > 0 {
            TunnelStepView::FetchToken(
                token_request(listing.account_id, tunnels[0].id),
                FetchView {
                    account_id: listing.account_id,
                    id: tunnels[0].id,
                    name: tunnels[0].name,
                },
            )
        } else {
            TunnelStepView::Create(
                RequestView {
                    method: Method::Post,
                    path: tunnels_path(listing.account_id),
                    body: Some(new_tunnel(listing.tunnel_name)),
                },
                CreationView { account_id: listing.account_id },
            )
        },
    }
}

/// How the setup of a tunnel goes on when it was made.
pub open spec fn created_next(
    creation: CreationView,
    reply: Result<CreatedView, Failure>,
) -> TunnelStepView {
    match reply {
        Err(error) => TunnelStepView::Done(Err(error)),
        Ok(tunnel) => match tunnel.token {
            Some(token) => TunnelStepView::Done(
                Ok(TunnelView { id: tunnel.id, name: tunnel.name, token }),
            ),
            None => TunnelStepView::FetchToken(
                token_request(creation.account_id, tunnel.id),
                FetchView { account_id: creation.account_id, id: tunnel.id, name: tunnel.name },
            ),
        },
    }
}

/// What came of asking for a token: a failure is a reason to ask again, since the reply may
/// hold the token in an object.
pub open spec fn token_next(fetch: FetchView, reply: Result<Seq<char>, Failure>) -> TokenStepView {
    match reply {
        Ok(token) => TokenStepView::Done(Ok(TunnelView { id: fetch.id, name: fetch.name, token })),
        Err(_) => TokenStepView::Retry(
            token_request(fetch.account_id, fetch.id),
            RetryView { id: fetch.id, name: fetch.name },
        ),
    }
}

/// What came of asking for a token again.
pub open spec fn retry_next(
    retry: RetryView,
    reply: Result<TokenView, Failure>,
) -> Result<TunnelView, Failure> {
    match reply {
        Ok(wrapper) => Ok(
            TunnelView { id: retry.id, name: retry.name, token: wrapper.token },
        ),
        Err(error) => Err(error),
    }
}

/// The aliases with the name `hostname` that a zone has.
pub open spec fn dns_query(zone: Seq<char>, hostname: Seq<char>) -> RequestView {
    bare(Method::Get, dns_path(zone) + "?type=CNAME&name="@ + hostname + "&per_page=1"@)
}

/// How the record is written when the records of its name are known: over the first one, or
/// as a new one.
pub open spec fn dns_next(
    listing: DnsListingView,
    reply: Result<Seq<DnsView>, Failure>,
) -> Result<RequestView, Failure> {
    match reply {
        Err(error) => Err(error),
        Ok(records) => Ok(
            if records.len() > 0 {
                RequestView {
                    method: Method::Put,
                    path: dns_path(listing.zone_id) + "/"@ + records[0].id,
                    body: Some(alias(listing.hostname, listing.target)),
                }
            } else {
                RequestView {
                    method: Method::Post,
                    path: dns_path(listing.zone_id),
                    body: Some(alias(listing.hostname, listing.target)),
                }
            },
        ),
    }
}

/// A request without a body.
fn plain(method: Method, path: String) -> (request: ApiRequest)
    ensures
        request@ == bare(method, path@),
{
    ApiRequest { method, path, body: None }
}

/// The path of the tunnels of an account.
fn path_of_tunnels(account_id: &str) -> (path: String)
    ensures
        path@ == tunnels_path(account_id@),
{
    concat3("accounts/", account_id, "/cfd_tunnel")
}

/// The path of one tunnel.
fn path_of_tunnel(account_id: &str, tunnel_id: &str) -> (path: String)
    ensures
        path@ == tunnel_path(account_id@, tunnel_id@),
{
    concat3(path_of_tunnels(account_id).as_str(), "/", tunnel_id)
}

/// The path of the DNS records of a zone.
fn path_of_dns(zone_id: &str) -> (path: String)
    ensures
        path@ == dns_path(zone_id@),
{
    concat3("zones/", zone_id, "/dns_records")
}

/// The request for the token of a tunnel.
fn ask_for_token(account_id: &str, tunnel_id: &str) -> (request: ApiRequest)
    ensures
        request@ == token_request(account_id@, tunnel_id@),
{
    plain(Method::Get, concat2(path_of_tunnel(account_id, tunnel_id).as_str(), "/token"))
}

/// The DNS record that leads `hostname` to `target`.
fn alias_payload(hostname: &str, target: &str) -> (payload: Payload)
    ensures
        payload@ == alias(hostname@, target@),
{
    Payload::Dns(
        DnsRecordRequest {
            record_type: "CNAME".to_owned(),
            name: hostname.to_owned(),
            content: target.to_owned(),
            proxied: true,
            ttl: 1,
        },
    )
}

/// Who speaks to the API.
#[derive(Debug)]
pub struct CloudflareClient {
    token: String,
}

impl Clone for CloudflareClient {
    fn clone(&self) -> (copy: Self)
        ensures
            copy == *self,
    {
        CloudflareClient { token: self.token.clone() }
    }
}

impl CloudflareClient {
    /// The token that is sent with each request.
    pub closed spec fn credential(self) -> Seq<char> {
        self.token@
    }

    /// The client that speaks with `token`.
    pub fn new(token: String) -> (client: CloudflareClient)
        ensures
            client.credential() == token@,
    {
        CloudflareClient { token }
    }

    /// The name under which the program speaks.
    pub fn user_agent() -> (name: String)
        ensures
            name@ == "punch/"@ + VERSION@,
    {
        concat2("punch/", VERSION)
    }

    /// `request` as it goes out.
    pub fn request(&self, request: ApiRequest) -> (http: HttpRequest)
        ensures
            http@ == (HttpView {
                method: request.method,
                url: "https://api.cloudflare.com/client/v4/"@ + request.path@,
                bearer: self.credential(),
                content_type: "application/json"@,
                body: request.body.deep_view(),
            }),
    {
        HttpRequest {
            method: request.method,
            url: concat2("https://api.cloudflare.com/client/v4/", request.path.as_str()),
            bearer: self.token.clone(),
            content_type: "application/json".to_owned(),
            body: request.body,
        }
    }

    /// Asks whether the token is good.
    pub fn verify_token(&self) -> (request: ApiRequest)
        ensures
            request@ == bare(Method::Get, "user/tokens/verify"@),
    {
        plain(Method::Get, "user/tokens/verify".to_owned())
    }

    /// Asks who the user is.
    pub fn current_user(&self) -> (request: ApiRequest)
        ensures
            request@ == bare(Method::Get, "user"@),
    {
        plain(Method::Get, "user".to_owned())
    }

    /// The address of the user, if the reply holds one.
    pub fn current_user_email(&self, reply: Result<UserProfile, PunchError>) -> (email: Option<
        String,
    >)
        ensures
            email.deep_view() == match reply {
                Ok(profile) => profile@.email,
                Err(_) => None,
            },
    {
        match reply {
            Ok(profile) => profile.email,
            Err(_) => None,
        }
    }

    /// Asks for the first `per_page` zones.
    pub fn list_zones(&self, per_page: usize) -> (request: ApiRequest)
        ensures
            request@ == bare(
                Method::Get,
                "zones?status=active&per_page="@ + decimal(per_page as nat),
            ),
    {
        plain(
            Method::Get,
            concat2("zones?status=active&per_page=", show(per_page as u64).as_str()),
        )
    }

    /// Asks for a tunnel of an account: what is refused shows that the right is missing.
    pub fn validate_tunnel_access(&self, account_id: &str) -> (request: ApiRequest)
        ensures
            request@ == bare(Method::Get, tunnels_path(account_id@) + "?per_page=1"@),
    {
        plain(Method::Get, concat2(path_of_tunnels(account_id).as_str(), "?per_page=1"))
    }

    /// Begins the search for the zone of `domain`.
    pub fn resolve_zone(&self, domain: &str) -> (step: ZoneStep)
        ensures
            step@ == zone_step(domain@, 0),
    {
        ZoneSearch::from(domain, 0)
    }

    /// Begins the setup of the tunnel `tunnel_name`.
    pub fn ensure_tunnel(&self, account_id: &str, tunnel_name: &str) -> (step: (
        ApiRequest,
        TunnelListing,
    ))
        ensures
            step.0@ == tunnel_query(account_id@, tunnel_name@),
            step.1@ == (ListingView { account_id: account_id@, tunnel_name: tunnel_name@ }),
    {
        let path = concat4(
            path_of_tunnels(account_id).as_str(),
            "?name=",
            tunnel_name,
            "&is_deleted=false&per_page=1",
        );
        (
            plain(Method::Get, path),
            TunnelListing { account_id: account_id.to_owned(), tunnel_name: tunnel_name.to_owned() },
        )
    }

    /// Sends `hostname` to `service` through the tunnel.
    pub fn configure_tunnel(
        &self,
        account_id: &str,
        tunnel_id: &str,
        hostname: &str,
        service: &str,
        insecure: bool,
    ) -> (request: ApiRequest)
        ensures
            request@ == (RequestView {
                method: Method::Put,
                path: tunnel_path(account_id@, tunnel_id@) + "/configurations"@,
                body: Some(
                    PayloadView::Rules(
                        ConfigView { ingress: rules_for(hostname@, service@, insecure) },
                    ),
                ),
            }),
    {
        let mut ingress: Vec<TunnelIngressRule> = Vec::new();
        ingress.push(
            TunnelIngressRule {
                hostname: Some(hostname.to_owned()),
                service: service.to_owned(),
                origin_request: Some(OriginRequest { no_tls_verify: insecure }),
            },
        );
        ingress.push(
            TunnelIngressRule {
                hostname: None,
                service: "http_status:404".to_owned(),
                origin_request: None,
            },
        );
        proof {
            assert(ingress.deep_view() =~= rules_for(hostname@, service@, insecure));
        }
        ApiRequest {
            method: Method::Put,
            path: concat2(path_of_tunnel(account_id, tunnel_id).as_str(), "/configurations"),
            body: Some(Payload::Rules(TunnelConfigRequest { ingress })),
        }
    }

    /// Begins to lead `hostname` to `target`.
    pub fn ensure_dns_record(&self, zone_id: &str, hostname: &str, target: &str) -> (step: (
        ApiRequest,
        DnsListing,
    ))
        ensures
            step.0@ == dns_query(zone_id@, hostname@),
            step.1@ == (DnsListingView {
                zone_id: zone_id@,
                hostname: hostname@,
                target: target@,
            }),
    {
        let path = concat4(
            path_of_dns(zone_id).as_str(),
            "?type=CNAME&name=",
            hostname,
            "&per_page=1",
        );
        (
            plain(Method::Get, path),
            DnsListing {
                zone_id: zone_id.to_owned(),
                hostname: hostname.to_owned(),
                target: target.to_owned(),
            },
        )
    }

    /// Deletes a DNS record.
    pub fn delete_dns_record(&self, zone_id: &str, record_id: &str) -> (request: ApiRequest)
        ensures
            request@ == bare(Method::Delete, dns_path(zone_id@) + "/"@ + record_id@),
    {
        plain(Method::Delete, concat3(path_of_dns(zone_id).as_str(), "/", record_id))
    }

    /// Deletes a tunnel.
    pub fn delete_tunnel(&self, account_id: &str, tunnel_id: &str) -> (request: ApiRequest)
        ensures
            request@ == bare(Method::Delete, tunnel_path(account_id@, tunnel_id@)),
    {
        plain(Method::Delete, path_of_tunnel(account_id, tunnel_id))
    }
}

impl ZoneSearch {
    /// The search for the zone of `domain`, from the candidate `index` on.
    fn from(domain: &str, index: usize) -> (step: ZoneStep)
        ensures
            step@ == zone_step(domain@, index as int),
    {
        let parts = split_text(domain, '.');
        proof {
            lemma_split_len(domain@, '.');
            assert(parts.deep_view().len() == parts@.len());
        }
        if index < parts.len() - 1 {
            let mut rest: Vec<String> = Vec::new();
            let mut i: usize = index;
            while i < parts.len()
                invariant
                    index <= i <= parts@.len(),
                    rest@.len() == i - index,
                    forall|j: int| 0 <= j < rest@.len() ==> (#[trigger] rest@[j])@ == parts@[index + j]@,
                decreases parts@.len() - i,
            {
                rest.push(parts[i].clone());
                i = i + 1;
            }
            proof {
                assert(rest.deep_view() =~= parts.deep_view().skip(index as int));
            }
            let candidate = join(&rest, ".");
            let path = concat3("zones?name=", candidate.as_str(), "&status=active&per_page=1");
            ZoneStep::Ask(plain(Method::Get, path), ZoneSearch { domain: domain.to_owned(), index })
        } else {
            ZoneStep::Done(Err(PunchError::new(ErrorKind::NotHosted(domain.to_owned()))))
        }
    }

    /// How the search goes on after the reply to what it asked.
    pub fn next(self, reply: Result<Vec<Zone>, PunchError>) -> (step: ZoneStep)
        ensures
            step@ == zone_next(self@, outcome(reply)),
    {
        match reply {
            Err(error) => ZoneStep::Done(Err(error)),
            Ok(found) => {
                let mut zones = found;
                if zones.len() > 0 {
                    ZoneStep::Done(Ok(zones.remove(0)))
                } else if self.index < self.domain.as_str().unicode_len() {
                    ZoneSearch::from(self.domain.as_str(), self.index + 1)
                } else {
                    proof {
                        lemma_split_len(self.domain@, '.');
                    }
                    ZoneStep::Done(Err(PunchError::new(ErrorKind::NotHosted(self.domain))))
                }
            },
        }
    }
}

impl TunnelListing {
    /// How the setup goes on when the tunnels of its name are known.
    pub fn next(self, reply: Result<Vec<TunnelSummary>, PunchError>) -> (step: TunnelStep)
        ensures
            step@ == listed_next(self@, outcome(reply)),
    {
        match reply {
            Err(error) => TunnelStep::Done(Err(error)),
            Ok(found) => {
                let mut tunnels = found;
                if tunnels.len() > 0 {
                    let tunnel = tunnels.remove(0);
                    let request = ask_for_token(self.account_id.as_str(), tunnel.id.as_str());
                    TunnelStep::FetchToken(
                        request,
                        TokenFetch {
                            account_id: self.account_id,
                            id: tunnel.id,
                            name: tunnel.name,
                        },
                    )
                } else {
                    let payload = CreateTunnelRequest {
                        name: self.tunnel_name,
                        config_src: "cloudflare".to_owned(),
                    };
                    TunnelStep::Create(
                        ApiRequest {
                            method: Method::Post,
                            path: path_of_tunnels(self.account_id.as_str()),
                            body: Some(Payload::Tunnel(payload)),
                        },
                        TunnelCreation { account_id: self.account_id },
                    )
                }
            },
        }
    }
}

impl TunnelCreation {
    /// How the setup goes on when the tunnel was made.
    pub fn next(self, reply: Result<CreateTunnelResult, PunchError>) -> (step: TunnelStep)
        ensures
            step@ == created_next(self@, outcome(reply)),
    {
        match reply {
            Err(error) => TunnelStep::Done(Err(error)),
            Ok(tunnel) => match tunnel.token {
                Some(token) => TunnelStep::Done(
                    Ok(TunnelDetails { id: tunnel.id, name: tunnel.name, token }),
                ),
                None => {
                    let request = ask_for_token(self.account_id.as_str(), tunnel.id.as_str());
                    TunnelStep::FetchToken(
                        request,
                        TokenFetch {
                            account_id: self.account_id,
                            id: tunnel.id,
                            name: tunnel.name,
                        },
                    )
                },
            },
        }
    }
}

impl TokenFetch {
    /// What came of asking for the token.
    pub fn next(self, reply: Result<String, PunchError>) -> (step: TokenStep)
        ensures
            step@ == token_next(self@, outcome(reply)),
    {
        match reply {
            Ok(token) => TokenStep::Done(
                Ok(TunnelDetails { id: self.id, name: self.name, token }),
            ),
            Err(_) => {
                let request = ask_for_token(self.account_id.as_str(), self.id.as_str());
                TokenStep::Retry(request, TokenRetry { id: self.id, name: self.name })
            },
        }
    }
}

impl TokenRetry {
    /// What came of asking for the token again.
    pub fn next(self, reply: Result<TunnelTokenResponse, PunchError>) -> (tunnel: Result<
        TunnelDetails,
        PunchError,
    >)
        ensures
            outcome(tunnel) == retry_next(self@, outcome(reply)),
    {
        match reply {
            Ok(wrapper) => Ok(
                TunnelDetails { id: self.id, name: self.name, token: wrapper.token },
            ),
            Err(error) => Err(error),
        }
    }
}

impl DnsListing {
    /// How the record is written when the records of its name are known.
    pub fn next(self, reply: Result<Vec<DnsRecord>, PunchError>) -> (request: Result<
        ApiRequest,
        PunchError,
    >)
        ensures
            outcome(request) == dns_next(self@, outcome(reply)),
    {
        match reply {
            Err(error) => Err(error),
            Ok(records) => {
                let payload = alias_payload(self.hostname.as_str(), self.target.as_str());
                let path = path_of_dns(self.zone_id.as_str());
                if records.len() > 0 {
                    Ok(
                        ApiRequest {
                            method: Method::Put,
                            path: concat3(path.as_str(), "/", records[0].id.as_str()),
                            body: Some(payload),
                        },
                    )
                } else {
                    Ok(ApiRequest { method: Method::Post, path, body: Some(payload) })
                }
            },
        }
    }
}

/// What the whole search for the zone of `domain` gives, from the candidate `index` on, when
/// the API answers the question for the zone `name` with `answers(name)`.
pub open spec fn zone_search(
    domain: Seq<char>,
    index: int,
    answers: spec_fn(Seq<char>) -> Result<Seq<ZoneView>, Failure>,
) -> Result<ZoneView, Failure>
    decreases candidate_count(domain) - index,
{
    if index < candidate_count(domain) {
        match zone_next(
            SearchView { domain, index: index as usize },
            answers(zone_candidate(domain, index)),
        ) {
            ZoneStepView::Done(result) => result,
            ZoneStepView::Ask(_, _) => zone_search(domain, index + 1, answers),
        }
    } else {
        Err(failure(Fault::NotHosted(domain)))
    }
}

/// The first candidate is the domain itself, and each further one is a tail of it.
pub proof fn candidates_are_tails(domain: Seq<char>, index: int)
    requires
        0 <= index < candidate_count(domain),
    ensures
        zone_candidate(domain, 0) == domain,
        zone_candidate(domain, index).len() <= domain.len(),
        zone_candidate(domain, index) == domain.skip(
            domain.len() - zone_candidate(domain, index).len(),
        ),
    decreases index,
{
    reveal_strlit(".");
    assert("."@ =~= seq!['.']);
    joining_undoes_splitting(domain, '.');
    assert(split(domain, '.').skip(0) =~= split(domain, '.'));
    assert(domain.skip(0) =~= domain);
    if index > 0 {
        candidates_are_tails(domain, index - 1);
        let parts = split(domain, '.').skip(index - 1);
        let rest = split(domain, '.').skip(index);
        assert(parts.skip(1) =~= rest);
        lemma_joined_tail(parts, "."@);
        let longer = joined(parts, "."@);
        let head = parts[0] + "."@;
        assert(longer.skip(head.len() as int) =~= joined(rest, "."@));
        let cut = domain.len() - longer.len();
        assert(domain.skip(cut).skip(head.len() as int) =~= domain.skip(cut + head.len()));
    }
}

/// Parts that are joined begin with the first part and the separator.
proof fn lemma_joined_tail(parts: Seq<Seq<char>>, separator: Seq<char>)
    requires
        parts.len() > 1,
    ensures
        joined(parts, separator) == parts[0] + separator + joined(parts.skip(1), separator),
    decreases parts.len(),
{
    let rest = parts.skip(1);
    if parts.len() == 2 {
        assert(joined(parts.drop_last(), separator) == parts[0]);
    } else {
        lemma_joined_tail(parts.drop_last(), separator);
        assert(parts.drop_last().skip(1) =~= rest.drop_last());
        assert(joined(parts, separator) =~= parts[0] + separator + joined(rest, separator));
    }
}

/// The most specific zone wins: where the API knows of no zone for the candidates before
/// `index`, and of one for the candidate `index`, the search gives the first of these.
pub proof fn longest_zone_wins(
    domain: Seq<char>,
    index: int,
    answers: spec_fn(Seq<char>) -> Result<Seq<ZoneView>, Failure>,
    zones: Seq<ZoneView>,
)
    requires
        0 <= index < candidate_count(domain),
        candidate_count(domain) <= usize::MAX,
        forall|j: int|
            0 <= j < index ==> #[trigger] answers(zone_candidate(domain, j)) == Ok::<
                Seq<ZoneView>,
                Failure,
            >(Seq::empty()),
        answers(zone_candidate(domain, index)) == Ok::<Seq<ZoneView>, Failure>(zones),
        zones.len() > 0,
    ensures
        zone_search(domain, 0, answers) == Ok::<ZoneView, Failure>(zones[0]),
{
    lemma_search_skips(domain, 0, index, answers);
}

/// Where the API knows of no zone for any candidate, the search says that the domain is hosted
/// elsewhere.
pub proof fn unknown_zone_is_reported(
    domain: Seq<char>,
    answers: spec_fn(Seq<char>) -> Result<Seq<ZoneView>, Failure>,
)
    requires
        candidate_count(domain) <= usize::MAX,
        forall|j: int|
            0 <= j < candidate_count(domain) ==> #[trigger] answers(zone_candidate(domain, j))
                == Ok::<Seq<ZoneView>, Failure>(Seq::empty()),
    ensures
        zone_search(domain, 0, answers) == Err::<ZoneView, Failure>(
            failure(Fault::NotHosted(domain)),
        ),
{
    lemma_split_len(domain, '.');
    lemma_search_skips(domain, 0, candidate_count(domain), answers);
}

/// Candidates for which the API knows of no zone are passed over.
proof fn lemma_search_skips(
    domain: Seq<char>,
    from: int,
    to: int,
    answers: spec_fn(Seq<char>) -> Result<Seq<ZoneView>, Failure>,
)
    requires
        0 <= from <= to <= candidate_count(domain) <= usize::MAX,
        forall|j: int|
            from <= j < to ==> #[trigger] answers(zone_candidate(domain, j)) == Ok::<
                Seq<ZoneView>,
                Failure,
            >(Seq::empty()),
    ensures
        zone_search(domain, from, answers) == zone_search(domain, to, answers),
    decreases to - from,
{
    if from < to {
        assert(answers(zone_candidate(domain, from)) == Ok::<Seq<ZoneView>, Failure>(Seq::empty()));
        lemma_search_skips(domain, from + 1, to, answers);
    }
}

/// The token of a tunnel, when the API answers the first question for it with `plain` and the
/// second one with `wrapped`.
pub open spec fn token_outcome(
    fetch: FetchView,
    plain: Result<Seq<char>, Failure>,
    wrapped: Result<TokenView, Failure>,
) -> Result<TunnelView, Failure> {
    match token_next(fetch, plain) {
        TokenStepView::Done(result) => result,
        TokenStepView::Retry(_, retry) => retry_next(retry, wrapped),
    }
}

/// The whole setup of a tunnel, when the API answers the question for tunnels of its name with
/// `listed`, the wish to make one with `created`, and those for its token with `plain` and
/// `wrapped`.
pub open spec fn tunnel_setup(
    listing: ListingView,
    listed: Result<Seq<SummaryView>, Failure>,
    created: Result<CreatedView, Failure>,
    plain: Result<Seq<char>, Failure>,
    wrapped: Result<TokenView, Failure>,
) -> Result<TunnelView, Failure> {
    match listed_next(listing, listed) {
        TunnelStepView::Done(result) => result,
        TunnelStepView::FetchToken(_, fetch) => token_outcome(fetch, plain, wrapped),
        TunnelStepView::Create(_, creation) => match created_next(creation, created) {
            TunnelStepView::FetchToken(_, fetch) => token_outcome(fetch, plain, wrapped),
            TunnelStepView::Done(result) => result,
            // A tunnel that was made is not made again.
            TunnelStepView::Create(_, _) => arbitrary(),
        },
    }
}

/// A tunnel that exists is used again: where the API knows of one with the name, none is made,
/// and what is set up is the first that it knows of.
pub proof fn existing_tunnel_is_reused(
    listing: ListingView,
    tunnels: Seq<SummaryView>,
    created: Result<CreatedView, Failure>,
    plain: Result<Seq<char>, Failure>,
    wrapped: Result<TokenView, Failure>,
)
    requires
        tunnels.len() > 0,
    ensures
        listed_next(listing, Ok(tunnels)) !is Create,
        tunnel_setup(listing, Ok(tunnels), created, plain, wrapped) matches Ok(tunnel)
            ==> tunnel.id == tunnels[0].id && tunnel.name == tunnels[0].name,
{
}

/// Where the API knows of no tunnel with the name, one is made under that name, and what is set
/// up is the one that was made.
pub proof fn missing_tunnel_is_made(
    listing: ListingView,
    created: Result<CreatedView, Failure>,
    plain: Result<Seq<char>, Failure>,
    wrapped: Result<TokenView, Failure>,
)
    ensures
        listed_next(listing, Ok(Seq::empty())) matches TunnelStepView::Create(request, _)
            && request.body == Some(new_tunnel(listing.tunnel_name)),
        tunnel_setup(listing, Ok(Seq::empty()), created, plain, wrapped) matches Ok(tunnel) ==> (
        created matches Ok(made) && tunnel.id == made.id && tunnel.name == made.name),
{
}

/// A token is found in either form of the reply: as a text, or in an object.
pub proof fn token_is_found_in_either_form(
    fetch: FetchView,
    plain: Result<Seq<char>, Failure>,
    wrapped: Result<TokenView, Failure>,
)
    ensures
        plain matches Ok(token) ==> token_outcome(fetch, plain, wrapped) == Ok::<
            TunnelView,
            Failure,
        >(TunnelView { id: fetch.id, name: fetch.name, token }),
        plain is Err && wrapped is Ok ==> token_outcome(fetch, plain, wrapped) == Ok::<
            TunnelView,
            Failure,
        >(TunnelView { id: fetch.id, name: fetch.name, token: wrapped->Ok_0.token }),
{
}

/// Whether a record for the name exists or not, what is written leads the name to the target.
pub proof fn dns_always_points_to_target(
    listing: DnsListingView,
    records: Seq<DnsView>,
)
    ensures
        dns_next(listing, Ok(records)) matches Ok(request) && request.body == Some(
            alias(listing.hostname, listing.target),
        ),
{
}

/// A reply is a success exactly where the API says so and gives a result; what it says of errors
/// is told with the HTTP status, whatever else the reply holds.
pub proof fn replies_are_understood<T>(
    status: String,
    envelope: ApiEnvelope<T>,
    body: String,
    causes: Vec<String>,
)
    ensures
        envelope.success && envelope.result is Some ==> interpreted(
            Reply::Parsed(status, envelope),
        ) == Ok::<T, Failure>(envelope.result->Some_0),
        envelope.success && envelope.result is None ==> interpreted(
            Reply::Parsed(status, envelope),
        ) == Err::<T, Failure>(Failure { kind: Fault::MissingResult, causes: Seq::empty() }),
        !envelope.success ==> (interpreted(Reply::Parsed(status, envelope)) matches Err(error)
            && error.causes.len() == 0 && error.kind == Fault::Api(
            status@,
            errors_text(envelope.errors.deep_view()),
        )),
        interpreted(Reply::<T>::Malformed(body, causes)) == Err::<T, Failure>(
            Failure { kind: Fault::UnreadableReply(body@), causes: causes.deep_view() },
        ),
        interpreted(Reply::<T>::SendFailed(causes)) == Err::<T, Failure>(
            Failure {
                kind: Fault::Outside("Cloudflare API 请求失败"@),
                causes: causes.deep_view(),
            },
        ),
        interpreted(Reply::<T>::ReadFailed(causes)) == Err::<T, Failure>(
            Failure {
                kind: Fault::Outside("读取 Cloudflare API 响应失败"@),
                causes: causes.deep_view(),
            },
        ),
{
}

/// What the errors of a reply say is told in their order, with a semicolon between two of them; an
/// error that says nothing is told by its number.
pub proof fn errors_are_told(errors: Seq<ApiErrorView>, error: ApiErrorView)
    ensures
        errors_text(Seq::empty()) == Seq::<char>::empty(),
        errors_text(seq![error]) == (match error.message {
            Some(message) => message,
            None => "Cloudflare 错误 "@ + decimal(error.code as nat),
        }),
        errors.len() > 0 ==> errors_text(errors.push(error)) == errors_text(errors) + "; "@
            + errors_text(seq![error]),
{
    let tell = |e: ApiErrorView| error_text(e);
    assert(Seq::<ApiErrorView>::empty().map_values(tell) =~= Seq::<Seq<char>>::empty());
    assert(seq![error].map_values(tell) =~= seq![error_text(error)]);
    assert(errors.push(error).map_values(tell) =~= errors.map_values(tell).push(
        error_text(error),
    ));
    parts_are_joined_by_separators(errors.map_values(tell), error_text(error), "; "@);
}

/// What is only read is read with a request without a body, under the path of what it is about.
pub proof fn questions_name_their_subject(
    account: Seq<char>,
    tunnel: Seq<char>,
    zone: Seq<char>,
    name: Seq<char>,
)
    ensures
        tunnels_path(account) == "accounts/"@ + account + "/cfd_tunnel"@,
        tunnel_path(account, tunnel) == "accounts/"@ + account + "/cfd_tunnel"@ + "/"@ + tunnel,
        dns_path(zone) == "zones/"@ + zone + "/dns_records"@,
        token_request(account, tunnel) == (RequestView {
            method: Method::Get,
            path: "accounts/"@ + account + "/cfd_tunnel"@ + "/"@ + tunnel + "/token"@,
            body: None,
        }),
        zone_request(name) == (RequestView {
            method: Method::Get,
            path: "zones?name="@ + name + "&status=active&per_page=1"@,
            body: None,
        }),
        tunnel_query(account, name) == (RequestView {
            method: Method::Get,
            path: "accounts/"@ + account + "/cfd_tunnel"@ + "?name="@ + name
                + "&is_deleted=false&per_page=1"@,
            body: None,
        }),
        dns_query(zone, name) == (RequestView {
            method: Method::Get,
            path: "zones/"@ + zone + "/dns_records"@ + "?type=CNAME&name="@ + name
                + "&per_page=1"@,
            body: None,
        }),
        bare(Method::Delete, name) == (RequestView {
            method: Method::Delete,
            path: name,
            body: None,
        }),
{
}

/// The settings of a tunnel send exactly the hostname to the service, check its certificate unless
/// they are told not to, and refuse all else.
pub proof fn settings_send_one_hostname(
    hostname: Seq<char>,
    service: Seq<char>,
    insecure: bool,
)
    ensures
        ({
            let rules = rules_for(hostname, service, insecure);
            &&& rules.len() == 2
            &&& rules[0].hostname == Some(hostname)
            &&& rules[0].service == service
            &&& rules[0].origin_request matches Some(origin) && origin.no_tls_verify == insecure
            &&& rules[1].hostname is None
            &&& rules[1].service == "http_status:404"@
            &&& rules[1].origin_request is None
        }),
{
}

/// A DNS record is an alias of the hostname for the target, behind the proxy, with the life that
/// the API chooses; a tunnel is made under its name, with its settings kept by the API.
pub proof fn written_records_hold(hostname: Seq<char>, target: Seq<char>, name: Seq<char>)
    ensures
        alias(hostname, target) matches PayloadView::Dns(record) && record.record_type == "CNAME"@
            && record.name == hostname && record.content == target && record.proxied && record.ttl
            == 1,
        new_tunnel(name) matches PayloadView::Tunnel(tunnel) && tunnel.name == name
            && tunnel.config_src == "cloudflare"@,
{
}

/// How many dots a text holds.
pub open spec fn dots(s: Seq<char>) -> nat
    decreases s.len(),
{
    if s.len() == 0 {
        0
    } else if s.last() == '.' {
        dots(s.drop_last()) + 1
    } else {
        dots(s.drop_last())
    }
}

/// A domain has as many candidates for its zone as it has dots: each candidate has one label less
/// than the one before it, and the last one has two.
pub proof fn candidates_lose_one_label_each(domain: Seq<char>, index: int)
    ensures
        candidate_count(domain) == dots(domain),
        0 <= index && index + 1 < candidate_count(domain) ==> zone_candidate(domain, index)
            == split(domain, '.')[index] + "."@ + zone_candidate(domain, index + 1),
        candidate_count(domain) > 0 ==> ({
            let labels = split(domain, '.');
            zone_candidate(domain, candidate_count(domain) - 1) == labels[labels.len() - 2]
                + "."@ + labels[labels.len() - 1]
        }),
{
    lemma_dots(domain);
    let labels = split(domain, '.');
    if 0 <= index && index + 1 < candidate_count(domain) {
        lemma_joined_tail(labels.skip(index), "."@);
        assert(labels.skip(index).skip(1) =~= labels.skip(index + 1));
    }
    if candidate_count(domain) > 0 {
        let last = labels.skip(labels.len() - 2);
        lemma_joined_tail(last, "."@);
        assert(last.skip(1) =~= seq![labels[labels.len() - 1]]);
    }
}

/// A domain has one label more than it has dots.
proof fn lemma_dots(domain: Seq<char>)
    ensures
        split(domain, '.').len() == dots(domain) + 1,
    decreases domain.len(),
{
    if domain.len() > 0 {
        lemma_dots(domain.drop_last());
    }
}

/// A search asks for the zones by the names of the candidates, in their order, and says that the
/// domain is hosted elsewhere when there is none left. A zone that is found ends it, and so does
/// an error.
pub proof fn search_asks_for_candidates(
    domain: Seq<char>,
    index: usize,
    zones: Seq<ZoneView>,
    error: Failure,
)
    ensures
        index < candidate_count(domain) ==> (zone_step(
            domain,
            index as int,
        ) matches ZoneStepView::Ask(request, search) && request.method == Method::Get
            && request.body is None && request.path == "zones?name="@ + zone_candidate(
            domain,
            index as int,
        ) + "&status=active&per_page=1"@ && search == (SearchView { domain, index })),
        index >= candidate_count(domain) ==> zone_step(domain, index as int) == ZoneStepView::Done(
            Err(Failure { kind: Fault::NotHosted(domain), causes: Seq::empty() }),
        ),
        zones.len() > 0 ==> zone_next(SearchView { domain, index }, Ok(zones))
            == ZoneStepView::Done(Ok(zones[0])),
        zone_next(SearchView { domain, index }, Err(error)) == ZoneStepView::Done(Err(error)),
        zones.len() == 0 ==> zone_next(SearchView { domain, index }, Ok(zones)) == zone_step(
            domain,
            index + 1,
        ),
{
}

/// An error that the API answers a question for a zone with ends the search with that error.
pub proof fn search_ends_with_errors(
    domain: Seq<char>,
    index: int,
    answers: spec_fn(Seq<char>) -> Result<Seq<ZoneView>, Failure>,
    error: Failure,
)
    requires
        0 <= index < candidate_count(domain),
        candidate_count(domain) <= usize::MAX,
        forall|j: int|
            0 <= j < index ==> #[trigger] answers(zone_candidate(domain, j)) == Ok::<
                Seq<ZoneView>,
                Failure,
            >(Seq::empty()),
        answers(zone_candidate(domain, index)) == Err::<Seq<ZoneView>, Failure>(error),
    ensures
        zone_search(domain, 0, answers) == Err::<ZoneView, Failure>(error),
{
    lemma_search_skips(domain, 0, index, answers);
}

/// The token of a tunnel that was found, or made without one, is asked for in its account and by
/// its id, and once more where the first reply is no token; a tunnel that was made with its token
/// is ready. An error in listing or making ends the setup.
pub proof fn setup_asks_for_the_tunnel(
    listing: ListingView,
    tunnels: Seq<SummaryView>,
    made: CreatedView,
    fetch: FetchView,
    error: Failure,
)
    ensures
        tunnels.len() > 0 ==> (listed_next(listing, Ok(tunnels)) matches TunnelStepView::FetchToken(
            request,
            next,
        ) && request.method == Method::Get && request.body is None && request.path == "accounts/"@
            + listing.account_id + "/cfd_tunnel"@ + "/"@ + tunnels[0].id + "/token"@ && next == (
        FetchView {
            account_id: listing.account_id,
            id: tunnels[0].id,
            name: tunnels[0].name,
        })),
        tunnels.len() == 0 ==> (listed_next(listing, Ok(tunnels)) matches TunnelStepView::Create(
            request,
            next,
        ) && request.method == Method::Post && request.path == "accounts/"@ + listing.account_id
            + "/cfd_tunnel"@ && next.account_id == listing.account_id && (
        request.body matches Some(PayloadView::Tunnel(body)) && body.name == listing.tunnel_name
            && body.config_src == "cloudflare"@)),
        listed_next(listing, Err(error)) == TunnelStepView::Done(Err(error)),
        made.token matches Some(token) ==> created_next(
            CreationView { account_id: listing.account_id },
            Ok(made),
        ) == TunnelStepView::Done(Ok(TunnelView { id: made.id, name: made.name, token })),
        made.token is None ==> (created_next(
            CreationView { account_id: listing.account_id },
            Ok(made),
        ) matches TunnelStepView::FetchToken(request, next) && request.path == "accounts/"@
            + listing.account_id + "/cfd_tunnel"@ + "/"@ + made.id + "/token"@ && request.method
            == Method::Get && next == (FetchView {
            account_id: listing.account_id,
            id: made.id,
            name: made.name,
        })),
        created_next(CreationView { account_id: listing.account_id }, Err(error))
            == TunnelStepView::Done(Err(error)),
        token_next(fetch, Err(error)) matches TokenStepView::Retry(request, next) && request.path
            == "accounts/"@ + fetch.account_id + "/cfd_tunnel"@ + "/"@ + fetch.id + "/token"@
            && request.method == Method::Get && request.body is None && next.id == fetch.id
            && next.name == fetch.name,
        retry_next(RetryView { id: fetch.id, name: fetch.name }, Err(error)) == Err::<
            TunnelView,
            Failure,
        >(error),
{
}

/// A DNS record that exists is written over, by its id, and one that does not is made; both lead
/// the hostname to the target. An error writes nothing.
pub proof fn dns_record_is_written_once(
    listing: DnsListingView,
    records: Seq<DnsView>,
    error: Failure,
)
    ensures
        dns_next(listing, Ok(records)) matches Ok(request) && {
            &&& records.len() > 0 ==> request.method == Method::Put && request.path == "zones/"@
                + listing.zone_id + "/dns_records"@ + "/"@ + records[0].id
            &&& records.len() == 0 ==> request.method == Method::Post && request.path == "zones/"@
                + listing.zone_id + "/dns_records"@
            &&& request.body matches Some(PayloadView::Dns(record)) && record.name
                == listing.hostname && record.content == listing.target && record.record_type
                == "CNAME"@ && record.proxied && record.ttl == 1
        },
        dns_next(listing, Err(error)) == Err::<RequestView, Failure>(error),
{
}

} // verus!
