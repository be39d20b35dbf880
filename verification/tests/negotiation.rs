use signalr_communication::http_client::{
    Authentication, AvailableTransport, ConnectionConfiguration, ConnectionData, HttpClient,
    NegotiateReply, NegotiateResponse, PostReply,
};
use signalr_communication::protocol::HubProtocolKind;

fn offer(transport: &str, formats: &[&str]) -> AvailableTransport {
    AvailableTransport {
        transport: transport.to_string(),
        transfer_formats: formats.iter().map(|f| f.to_string()).collect(),
    }
}

fn response(query: &str, offers: Vec<AvailableTransport>) -> NegotiateResponse {
    NegotiateResponse {
        connection_id: "abc".to_string(),
        endpoint_query: query.to_string(),
        available_transports: offers,
    }
}

fn web_sockets() -> Vec<AvailableTransport> {
    vec![
        offer("ServerSentEvents", &["Text"]),
        offer("WebSockets", &["Text", "Binary"]),
    ]
}

fn bearer(token: &str) -> Authentication {
    Authentication::Bearer { token: token.to_string() }
}

fn configured(endpoint: &str, query: &str, authentication: &Authentication) -> ConnectionData {
    HttpClient::create_configuration(
        endpoint.to_string(),
        response(query, web_sockets()),
        HubProtocolKind::Json,
        authentication,
    )
    .unwrap()
}

fn options(web_url: &str, socket_url: &str, kind: HubProtocolKind) -> ConnectionConfiguration {
    ConnectionConfiguration {
        web_url: web_url.to_string(),
        socket_url: socket_url.to_string(),
        protocol_kind: kind,
        authentication: Authentication::Anonymous,
    }
}

#[test]
fn negotiate_endpoint_without_query() {
    assert_eq!(
        HttpClient::negotiate_endpoint("http://host/hub"),
        "http://host/hub/negotiate?negotiateVersion=1"
    );
}

#[test]
fn negotiate_endpoint_with_query() {
    assert_eq!(
        HttpClient::negotiate_endpoint("http://host/hub?room=5&x=y"),
        "http://host/hub/negotiate?room=5&x=y&negotiateVersion=1"
    );
}

#[test]
fn negotiate_endpoint_splits_at_the_first_mark() {
    assert_eq!(
        HttpClient::negotiate_endpoint("http://h\u{e9}/?a?b"),
        "http://h\u{e9}//negotiate?a?b&negotiateVersion=1"
    );
    assert_eq!(HttpClient::negotiate_endpoint("?"), "/negotiate?&negotiateVersion=1");
}

#[test]
fn negotiate_endpoint_has_one_query() {
    for url in ["http://host/hub", "http://host/hub?a=1"] {
        let negotiate = HttpClient::negotiate_endpoint(url);
        assert_eq!(negotiate.matches('?').count(), 1);
    }
}

#[test]
fn configuration_appends_the_query() {
    let data = configured("ws://host/hub", "?id=42", &Authentication::Anonymous);
    assert_eq!(data.get_endpoint(), "ws://host/hub?id=42");
    assert_eq!(data.get_connection_id(), "abc");
    assert_eq!(data.get_protocol_kind(), HubProtocolKind::Json);
}

#[test]
fn configuration_merges_queries() {
    let data = configured("ws://host/hub?room=5", "?id=42", &Authentication::Anonymous);
    assert_eq!(data.get_endpoint(), "ws://host/hub?room=5&id=42");
}

#[test]
fn configuration_appends_the_bearer_token() {
    let data = configured("ws://host/hub", "?id=42", &bearer("secret"));
    assert_eq!(data.get_endpoint(), "ws://host/hub?id=42&access_token=secret");
    let data = configured("ws://host/hub?room=5", "?id=42", &bearer("secret"));
    assert_eq!(data.get_endpoint(), "ws://host/hub?room=5&id=42&access_token=secret");
    let data = configured("ws://host/hub", "", &bearer("secret"));
    assert_eq!(data.get_endpoint(), "ws://host/hub?access_token=secret");
}

#[test]
fn configuration_keeps_basic_credentials_out_of_the_address() {
    let basic = Authentication::Basic { user: "u".to_string(), password: None };
    let data = configured("ws://host/hub", "?id=42", &basic);
    assert_eq!(data.get_endpoint(), "ws://host/hub?id=42");
}

#[test]
fn configuration_has_one_query() {
    for endpoint in ["ws://host/hub", "ws://host/hub?a=1"] {
        for authentication in [Authentication::Anonymous, bearer("t")] {
            let full = configured(endpoint, "?id=1", &authentication).get_endpoint();
            assert_eq!(full.matches('?').count(), 1);
            assert!(full.starts_with(endpoint));
        }
    }
}

#[test]
fn configuration_needs_web_sockets() {
    let none = HttpClient::create_configuration(
        "ws://host/hub".to_string(),
        response("?id=42", vec![offer("LongPolling", &["Text", "Binary"])]),
        HubProtocolKind::Json,
        &Authentication::Anonymous,
    );
    assert!(none.is_none());
    let none = HttpClient::create_configuration(
        "ws://host/hub".to_string(),
        response("?id=42", Vec::new()),
        HubProtocolKind::Json,
        &Authentication::Anonymous,
    );
    assert!(none.is_none());
}

#[test]
fn configuration_needs_the_transfer_format() {
    let offers = || vec![offer("WebSockets", &["Text"])];
    let negotiate = |kind: HubProtocolKind| {
        HttpClient::create_configuration(
            "ws://host/hub".to_string(),
            response("?id=42", offers()),
            kind,
            &Authentication::Anonymous,
        )
    };
    assert!(negotiate(HubProtocolKind::Json).is_some());
    assert!(negotiate(HubProtocolKind::MessagePack).is_none());
}

#[test]
fn configuration_looks_at_the_first_web_socket_offer_only() {
    let offers = vec![offer("WebSockets", &["Binary"]), offer("WebSockets", &["Text"])];
    let data = HttpClient::create_configuration(
        "ws://host/hub".to_string(),
        response("?id=42", offers),
        HubProtocolKind::Json,
        &Authentication::Anonymous,
    );
    assert!(data.is_none());
}

#[test]
fn configuration_data_clones() {
    let data = configured("ws://host/hub", "?id=42", &Authentication::Anonymous).clone();
    assert_eq!(data.get_endpoint(), "ws://host/hub?id=42");
    assert_eq!(data.get_connection_id(), "abc");
}

#[test]
fn usable_queries() {
    let usable = |endpoint: &str, query: &str, kind: HubProtocolKind| {
        let offers = vec![offer("WebSockets", &["Text"])];
        HttpClient::query_is_usable(endpoint, &response(query, offers), kind)
    };
    assert!(usable("ws://host?a", "?id=42", HubProtocolKind::Json));
    assert!(usable("ws://host?a", "?", HubProtocolKind::Json));
    assert!(!usable("ws://host?a", "", HubProtocolKind::Json));
    assert!(!usable("ws://host?a", "\u{e9}id=42", HubProtocolKind::Json));
    assert!(usable("ws://host", "", HubProtocolKind::Json));
    assert!(usable("ws://host?a", "", HubProtocolKind::MessagePack));
}

#[test]
fn negotiation_succeeds() {
    let data = HttpClient::negotiate(
        &options("http://host/hub", "ws://host/hub", HubProtocolKind::MessagePack),
        NegotiateReply::Parsed(response("?id=7", web_sockets())),
    )
    .ok()
    .unwrap();
    assert_eq!(data.get_endpoint(), "ws://host/hub?id=7");
    assert_eq!(data.get_protocol_kind(), HubProtocolKind::MessagePack);
}

#[test]
fn negotiation_reports_a_failed_request() {
    let error = HttpClient::negotiate(
        &options("http://host/hub", "ws://host/hub", HubProtocolKind::Json),
        NegotiateReply::Failed("The call failed: refused".to_string()),
    )
    .err();
    assert_eq!(
        error.unwrap(),
        "HTTP negotiation with endpoint http://host/hub/negotiate?negotiateVersion=1 failed The call failed: refused"
    );
}

#[test]
fn negotiation_reports_a_malformed_answer() {
    let error = HttpClient::negotiate(
        &options("http://host/hub", "ws://host/hub", HubProtocolKind::Json),
        NegotiateReply::Malformed("expected value".to_string()),
    )
    .err();
    assert_eq!(error.unwrap(), "Failed to parse negotiate response: expected value");
}

#[test]
fn negotiation_reports_that_nothing_fits() {
    let error = |kind: HubProtocolKind| {
        HttpClient::negotiate(
            &options("http://host/hub", "ws://host/hub", kind),
            NegotiateReply::Parsed(response("?id=7", Vec::new())),
        )
        .err()
        .unwrap()
    };
    assert_eq!(
        error(HubProtocolKind::Json),
        format!(
            "The negotiation concluded no matching communication protocols for {:?} transfer format",
            "Text"
        )
    );
    assert_eq!(
        error(HubProtocolKind::MessagePack),
        "The negotiation concluded no matching communication protocols for \"Binary\" transfer format"
    );
}

#[test]
fn basic_auth_with_password() {
    assert_eq!(
        HttpClient::basic_auth("Aladdin".to_string(), Some("open sesame".to_string())),
        "Basic QWxhZGRpbjpvcGVuIHNlc2FtZQ=="
    );
}

#[test]
fn basic_auth_without_password() {
    assert_eq!(HttpClient::basic_auth("a".to_string(), None), "Basic YTo=");
    assert_eq!(HttpClient::basic_auth("a".to_string(), Some(String::new())), "Basic YTo=");
    assert_eq!(HttpClient::basic_auth(String::new(), None), "Basic Og==");
}

#[test]
fn basic_auth_encodes_utf8() {
    assert_eq!(
        HttpClient::basic_auth("\u{fc}".to_string(), Some("\u{3e}\u{3f}\u{ff}".to_string())),
        "Basic w7w6Pj/Dvw=="
    );
}

#[test]
fn basic_auth_tells_credentials_apart() {
    let header = |user: &str, password: &str| {
        HttpClient::basic_auth(user.to_string(), Some(password.to_string()))
    };
    assert_ne!(header("a", "bc"), header("ab", "c"));
    assert_ne!(header("a", "b"), header("a", "c"));
    assert_eq!(header("a", "b:c"), header("a:b", "c"));
}

#[test]
fn base64_of_long_credentials() {
    let user = "x".repeat(2000);
    let header = HttpClient::basic_auth(user, None);
    assert_eq!(header.len(), 6 + 2001 / 3 * 4);
    assert!(header.starts_with("Basic eHh4eHh4"));
    assert!(header.ends_with("eHg6"));
}

#[test]
fn authorization_headers() {
    assert!(HttpClient::authorization(Authentication::Anonymous).is_none());
    assert_eq!(HttpClient::authorization(bearer("t")).unwrap(), "Bearer t");
    let basic = Authentication::Basic { user: "a".to_string(), password: None };
    assert_eq!(HttpClient::authorization(basic).unwrap(), "Basic YTo=");
}

#[test]
fn post_replies() {
    assert_eq!(HttpClient::post_text(PostReply::Text("{}".to_string())), Ok("{}".to_string()));
    assert_eq!(
        HttpClient::post_text(PostReply::Failed("timeout".to_string())),
        Err("The call failed: timeout".to_string())
    );
    assert_eq!(
        HttpClient::post_text(PostReply::NoText),
        Err("The returned response has no text body".to_string())
    );
    assert_eq!(
        HttpClient::post_text(PostReply::Cancelled),
        Err("The request is cancelled.".to_string())
    );
}

#[test]
fn protocol_names() {
    assert_eq!(HubProtocolKind::Json.transfer_format(), "Text");
    assert_eq!(HubProtocolKind::MessagePack.transfer_format(), "Binary");
    assert_eq!(HubProtocolKind::Json.protocol_name(), "json");
    assert_eq!(HubProtocolKind::MessagePack.protocol_name(), "messagepack");
}
