use punch::api::{
    ApiError, ApiRequest, CreateTunnelRequest, CreateTunnelResult, DnsRecord, DnsRecordRequest,
    Method, OriginRequest, Payload, TunnelConfigRequest, TunnelDetails, TunnelIngressRule,
    TunnelSummary, TunnelTokenResponse, UserProfile, Zone, ZoneAccount,
};
use punch::cloudflare::{
    interpret, ApiEnvelope, CloudflareClient, Reply, TokenStep, TunnelStep, ZoneStep,
};
use punch::error::{tunnel_permission_hint, ErrorKind, PunchError};

fn client() -> CloudflareClient {
    CloudflareClient::new("secret".to_string())
}

fn get(path: &str) -> ApiRequest {
    ApiRequest { method: Method::Get, path: path.to_string(), body: None }
}

fn zone(name: &str) -> Zone {
    Zone {
        id: format!("id-{name}"),
        name: name.to_string(),
        account: ZoneAccount { id: "account".to_string() },
    }
}

fn broken() -> PunchError {
    PunchError::outside("broken", Vec::new())
}

fn reply(success: bool, errors: Vec<ApiError>, result: Option<u8>) -> Reply<u8> {
    Reply::Parsed("403 Forbidden".to_string(), ApiEnvelope { success, errors, result })
}

fn api_error(code: u64, message: Option<&str>) -> ApiError {
    ApiError { code, message: message.map(|text| text.to_string()) }
}

#[test]
fn a_successful_reply_gives_its_result() {
    assert_eq!(interpret(reply(true, Vec::new(), Some(5))), Ok(5));
}

#[test]
fn a_successful_reply_without_a_result_is_an_error() {
    let error = interpret(reply(true, Vec::new(), None)).unwrap_err();
    assert_eq!(error.kind, ErrorKind::MissingResult);
}

#[test]
fn the_errors_of_a_reply_are_joined() {
    let errors = vec![api_error(7, Some("one")), api_error(1003, None), api_error(9, Some("two"))];
    let error = interpret(reply(false, errors, Some(5))).unwrap_err();
    assert_eq!(
        error.line(),
        "Cloudflare API 错误 (403 Forbidden): one; Cloudflare 错误 1003; two"
    );
    let error = interpret(reply(false, Vec::new(), None)).unwrap_err();
    assert_eq!(error.line(), "Cloudflare API 错误 (403 Forbidden): ");
}

#[test]
fn a_refused_token_gets_a_hint() {
    let hint = "\n提示: 该 token 可以通过基础校验，但访问 Cloudflare Tunnel API 被拒绝。请确认已授予 `Cloudflare Tunnel:Edit` 或同等账户级权限。";
    assert_eq!(tunnel_permission_hint("x Authentication error y"), hint);
    assert_eq!(tunnel_permission_hint("Authentication erro"), "");
    let errors = vec![api_error(10000, Some("Authentication error"))];
    let error = interpret(reply(false, errors, None)).unwrap_err();
    assert_eq!(
        error.line(),
        format!("Cloudflare API 错误 (403 Forbidden): Authentication error{hint}")
    );
}

#[test]
fn replies_that_did_not_come_are_errors() {
    let causes = || vec!["why".to_string()];
    let line = |reply: Reply<u8>| interpret(reply).unwrap_err().line();
    assert_eq!(line(Reply::SendFailed(causes())), "Cloudflare API 请求失败: why");
    assert_eq!(line(Reply::ReadFailed(causes())), "读取 Cloudflare API 响应失败: why");
    assert_eq!(
        line(Reply::Malformed("<html>".to_string(), causes())),
        "解析 Cloudflare API 响应失败: <html>: why"
    );
}

#[test]
fn requests_go_out_with_the_token() {
    let http = client().request(get("user"));
    assert_eq!(http.method, Method::Get);
    assert_eq!(http.url, "https://api.cloudflare.com/client/v4/user");
    assert_eq!(http.bearer, "secret");
    assert_eq!(http.content_type, "application/json");
    assert_eq!(http.body, None);
    assert_eq!(CloudflareClient::user_agent(), "punch/0.1.0");
}

#[test]
fn simple_requests_have_their_paths() {
    let client = client();
    assert_eq!(client.verify_token(), get("user/tokens/verify"));
    assert_eq!(client.current_user(), get("user"));
    assert_eq!(client.list_zones(5), get("zones?status=active&per_page=5"));
    assert_eq!(client.validate_tunnel_access("a"), get("accounts/a/cfd_tunnel?per_page=1"));
    let delete = |path: &str| ApiRequest { method: Method::Delete, ..get(path) };
    assert_eq!(client.delete_dns_record("z", "r"), delete("zones/z/dns_records/r"));
    assert_eq!(client.delete_tunnel("a", "t"), delete("accounts/a/cfd_tunnel/t"));
}

#[test]
fn the_address_of_the_user_may_be_missing() {
    let client = client();
    let profile = |email: Option<&str>| UserProfile { email: email.map(|text| text.to_string()) };
    assert_eq!(
        client.current_user_email(Ok(profile(Some("a@b.c")))),
        Some("a@b.c".to_string())
    );
    assert_eq!(client.current_user_email(Ok(profile(None))), None);
    assert_eq!(client.current_user_email(Err(broken())), None);
}

/// Answers each question of a search for a zone.
fn search(domain: &str, answers: &[Result<Vec<Zone>, PunchError>]) -> (Vec<String>, Result<Zone, PunchError>) {
    let mut asked = Vec::new();
    let mut step = client().resolve_zone(domain);
    loop {
        match step {
            ZoneStep::Ask(request, search) => {
                let answer = match &answers[asked.len()] {
                    Ok(zones) => Ok(zones.clone()),
                    Err(_) => Err(broken()),
                };
                asked.push(request.path);
                step = search.next(answer);
            }
            ZoneStep::Done(result) => return (asked, result),
        }
    }
}

#[test]
fn the_most_specific_zone_wins() {
    let (asked, found) = search(
        "a.b.example.com",
        &[Ok(vec![]), Ok(vec![zone("b.example.com"), zone("other")]), Ok(vec![zone("example.com")])],
    );
    assert_eq!(
        asked,
        [
            "zones?name=a.b.example.com&status=active&per_page=1",
            "zones?name=b.example.com&status=active&per_page=1",
        ]
    );
    assert_eq!(found, Ok(zone("b.example.com")));
}

#[test]
fn a_domain_of_one_label_has_no_zone() {
    let (asked, found) = search("localhost", &[]);
    assert!(asked.is_empty());
    assert_eq!(found.unwrap_err().kind, ErrorKind::NotHosted("localhost".to_string()));
}

#[test]
fn a_domain_that_no_zone_covers_is_hosted_elsewhere() {
    let (asked, found) = search("a.b.c", &[Ok(vec![]), Ok(vec![])]);
    assert_eq!(asked.len(), 2);
    assert_eq!(found.unwrap_err().kind, ErrorKind::NotHosted("a.b.c".to_string()));
}

#[test]
fn a_failed_question_ends_the_search() {
    let (asked, found) = search("a.b.c", &[Err(broken()), Ok(vec![zone("b.c")])]);
    assert_eq!(asked.len(), 1);
    assert_eq!(found, Err(broken()));
}

#[test]
fn empty_labels_count_as_labels() {
    let (asked, _) = search(".a.", &[Ok(vec![]), Ok(vec![])]);
    assert_eq!(
        asked,
        ["zones?name=.a.&status=active&per_page=1", "zones?name=a.&status=active&per_page=1"]
    );
}

fn summary(id: &str) -> TunnelSummary {
    TunnelSummary { id: id.to_string(), name: format!("name-{id}") }
}

fn details(id: &str, token: &str) -> TunnelDetails {
    TunnelDetails {
        id: id.to_string(),
        name: format!("name-{id}"),
        token: token.to_string(),
    }
}

#[test]
fn an_existing_tunnel_is_used_again() {
    let (request, listing) = client().ensure_tunnel("acc", "punch-x");
    assert_eq!(
        request,
        get("accounts/acc/cfd_tunnel?name=punch-x&is_deleted=false&per_page=1")
    );
    match listing.next(Ok(vec![summary("t1"), summary("t2")])) {
        TunnelStep::FetchToken(request, fetch) => {
            assert_eq!(request, get("accounts/acc/cfd_tunnel/t1/token"));
            match fetch.next(Ok("tok".to_string())) {
                TokenStep::Done(result) => assert_eq!(result, Ok(details("t1", "tok"))),
                other => panic!("expected the tunnel, got {other:?}"),
            }
        }
        other => panic!("expected a question for the token, got {other:?}"),
    }
}

#[test]
fn a_token_in_an_object_is_found() {
    let (_, listing) = client().ensure_tunnel("acc", "punch-x");
    let TunnelStep::FetchToken(_, fetch) = listing.next(Ok(vec![summary("t1")])) else {
        panic!("expected a question for the token");
    };
    let TokenStep::Retry(request, retry) = fetch.next(Err(broken())) else {
        panic!("expected a second question");
    };
    assert_eq!(request, get("accounts/acc/cfd_tunnel/t1/token"));
    let found = retry.next(Ok(TunnelTokenResponse { token: "tok".to_string() }));
    assert_eq!(found, Ok(details("t1", "tok")));
}

#[test]
fn a_token_that_is_not_found_is_an_error() {
    let (_, listing) = client().ensure_tunnel("acc", "punch-x");
    let TunnelStep::FetchToken(_, fetch) = listing.next(Ok(vec![summary("t1")])) else {
        panic!("expected a question for the token");
    };
    let TokenStep::Retry(_, retry) = fetch.next(Err(PunchError::new(ErrorKind::MissingResult))) else {
        panic!("expected a second question");
    };
    assert_eq!(retry.next(Err(broken())), Err(broken()));
}

#[test]
fn a_missing_tunnel_is_made() {
    let (_, listing) = client().ensure_tunnel("acc", "punch-x");
    let TunnelStep::Create(request, creation) = listing.next(Ok(Vec::new())) else {
        panic!("expected a new tunnel");
    };
    assert_eq!(request.method, Method::Post);
    assert_eq!(request.path, "accounts/acc/cfd_tunnel");
    assert_eq!(
        request.body,
        Some(Payload::Tunnel(CreateTunnelRequest {
            name: "punch-x".to_string(),
            config_src: "cloudflare".to_string(),
        }))
    );
    let made = CreateTunnelResult {
        id: "t9".to_string(),
        name: "name-t9".to_string(),
        token: Some("tok".to_string()),
    };
    match creation.next(Ok(made)) {
        TunnelStep::Done(result) => assert_eq!(result, Ok(details("t9", "tok"))),
        other => panic!("expected the tunnel, got {other:?}"),
    }
}

#[test]
fn a_new_tunnel_without_a_token_is_asked_for_it() {
    let (_, listing) = client().ensure_tunnel("acc", "punch-x");
    let TunnelStep::Create(_, creation) = listing.next(Ok(Vec::new())) else {
        panic!("expected a new tunnel");
    };
    let made = CreateTunnelResult {
        id: "t9".to_string(),
        name: "name-t9".to_string(),
        token: None,
    };
    match creation.next(Ok(made)) {
        TunnelStep::FetchToken(request, _) => {
            assert_eq!(request, get("accounts/acc/cfd_tunnel/t9/token"));
        }
        other => panic!("expected a question for the token, got {other:?}"),
    }
}

#[test]
fn a_failed_setup_is_reported() {
    let (_, listing) = client().ensure_tunnel("acc", "n");
    match listing.next(Err(broken())) {
        TunnelStep::Done(result) => assert_eq!(result, Err(broken())),
        other => panic!("expected an error, got {other:?}"),
    }
    let (_, listing) = client().ensure_tunnel("acc", "n");
    let TunnelStep::Create(_, creation) = listing.next(Ok(Vec::new())) else {
        panic!("expected a new tunnel");
    };
    match creation.next(Err(broken())) {
        TunnelStep::Done(result) => assert_eq!(result, Err(broken())),
        other => panic!("expected an error, got {other:?}"),
    }
}

#[test]
fn a_tunnel_leads_to_the_local_service_and_nowhere_else() {
    let request =
        client().configure_tunnel("acc", "t1", "demo.com", "https://127.0.0.1:1", true);
    assert_eq!(request.method, Method::Put);
    assert_eq!(request.path, "accounts/acc/cfd_tunnel/t1/configurations");
    assert_eq!(
        request.body,
        Some(Payload::Rules(TunnelConfigRequest {
            ingress: vec![
                TunnelIngressRule {
                    hostname: Some("demo.com".to_string()),
                    service: "https://127.0.0.1:1".to_string(),
                    origin_request: Some(OriginRequest { no_tls_verify: true }),
                },
                TunnelIngressRule {
                    hostname: None,
                    service: "http_status:404".to_string(),
                    origin_request: None,
                },
            ],
        }))
    );
}

#[test]
fn a_dns_record_is_written_over_or_made() {
    let payload = || {
        Some(Payload::Dns(DnsRecordRequest {
            record_type: "CNAME".to_string(),
            name: "demo.com".to_string(),
            content: "t1.cfargotunnel.com".to_string(),
            proxied: true,
            ttl: 1,
        }))
    };
    let begin = || client().ensure_dns_record("z", "demo.com", "t1.cfargotunnel.com");
    let (request, listing) = begin();
    assert_eq!(request, get("zones/z/dns_records?type=CNAME&name=demo.com&per_page=1"));
    let write = listing
        .next(Ok(vec![DnsRecord { id: "r1".to_string() }]))
        .expect("a request");
    assert_eq!(write.method, Method::Put);
    assert_eq!(write.path, "zones/z/dns_records/r1");
    assert_eq!(write.body, payload());
    let write = begin().1.next(Ok(Vec::new())).expect("a request");
    assert_eq!(write.method, Method::Post);
    assert_eq!(write.path, "zones/z/dns_records");
    assert_eq!(write.body, payload());
    assert_eq!(begin().1.next(Err(broken())), Err(broken()));
}
