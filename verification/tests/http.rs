use gardena_exporter::config::AuthConfig;
use gardena_exporter::http::{
    grant, locations_request, settle, snapshot_request, token_request, token_url,
    websocket_request, Endpoint, Exchange, Failure, Field, HttpStatus, Method, Outcome, Payload,
};
use gardena_exporter::location::LocationListResponse;
use gardena_exporter::token::TokenResponse;

fn auth(auth_url: &str) -> AuthConfig {
    AuthConfig {
        application_key: "key".to_string(),
        application_secret: "SECRET-REDACTED".to_string(),
        auth_url: auth_url.to_string(),
    }
}

fn pairs(fields: &[Field]) -> Vec<(&str, &str)> {
    fields.iter().map(|field| (field.name, field.value.as_str())).collect()
}

fn status(code: u16) -> HttpStatus {
    HttpStatus::from_u16(code).expect("status code")
}

fn locations() -> LocationListResponse {
    LocationListResponse { data: Vec::new() }
}

fn replied(code: u16, body: &str) -> Exchange<LocationListResponse> {
    Exchange::Replied { status: status(code), body: body.to_string(), decoded: Ok(locations()) }
}

#[test]
fn tokens_are_asked_for_by_client_credentials() {
    let request = token_request(&auth("https://auth.example/v1/"));
    assert_eq!(request.method, Method::Post);
    assert_eq!(request.url, "https://auth.example/v1/oauth2/token");
    assert_eq!(
        pairs(&request.headers),
        vec![("content-type", "application/x-www-form-urlencoded")]
    );
    match &request.payload {
        Payload::Form(form) => assert_eq!(
            pairs(form),
            vec![
                ("grant_type", "client_credentials"),
                ("client_id", "key"),
                ("client_secret", "SECRET-REDACTED"),
            ]
        ),
        _ => panic!("a form was expected"),
    }
}

#[test]
fn trailing_slashes_of_addresses_are_dropped() {
    assert_eq!(token_url("https://a/v1///"), "https://a/v1/oauth2/token");
    assert_eq!(token_url("https://a/v1"), "https://a/v1/oauth2/token");
    let request = snapshot_request(&auth("x"), "https://api/v2/", "t", "l1");
    assert_eq!(request.url, "https://api/v2/locations/l1");
}

#[test]
fn requests_carry_key_and_token() {
    let headers = vec![
        ("X-Api-Key", "key"),
        ("Authorization", "Bearer t0k3n"),
        ("Accept", "application/vnd.api+json"),
    ];
    let request = locations_request(&auth("x"), "t0k3n");
    assert_eq!(request.method, Method::Get);
    assert_eq!(request.url, "https://api.smart.gardena.dev/v2/locations");
    assert_eq!(pairs(&request.headers), headers);
    assert!(matches!(request.payload, Payload::Nothing));
    let request = snapshot_request(&auth("x"), "https://api/v2", "t0k3n", "l1");
    assert_eq!(request.method, Method::Get);
    assert_eq!(pairs(&request.headers), headers);
    assert!(matches!(request.payload, Payload::Nothing));
}

#[test]
fn a_websocket_is_asked_for_with_a_document() {
    let request = websocket_request(&auth("x"), "https://api/v2/", "t0k3n", "lo\"1");
    assert_eq!(request.method, Method::Post);
    assert_eq!(request.url, "https://api/v2/websocket");
    assert_eq!(
        pairs(&request.headers),
        vec![
            ("X-Api-Key", "key"),
            ("Authorization", "Bearer t0k3n"),
            ("Accept", "application/vnd.api+json"),
            ("Content-Type", "application/vnd.api+json"),
        ]
    );
    let expected: serde_json::Value = serde_json::from_str(
        r#"{
            "data": {
                "id": "prometheus-gardena-exporter",
                "type": "WEBSOCKET",
                "attributes": { "locationId": "lo\"1" }
            }
        }"#,
    )
    .expect("JSON");
    match &request.payload {
        Payload::Document(document) => assert_eq!(document, &expected),
        _ => panic!("a document was expected"),
    }
}

#[test]
fn status_codes_have_three_digits() {
    assert!(HttpStatus::from_u16(99).is_none());
    assert!(HttpStatus::from_u16(1000).is_none());
    assert!(status(200).is_success());
    assert!(status(299).is_success());
    assert!(!status(199).is_success());
    assert!(!status(300).is_success());
    assert!(status(401).is_unauthorized());
    assert!(!status(403).is_unauthorized());
    assert_eq!(status(503).words(), "503 Service Unavailable");
    assert_eq!(status(799).words(), "799 <unknown status code>");
}

#[test]
fn a_granted_request_brings_its_answer() {
    assert!(matches!(
        settle(Endpoint::Locations, "u", replied(200, "{}")),
        Outcome::Granted(response) if response.data.is_empty()
    ));
}

#[test]
fn an_unaccepted_token_is_told_apart() {
    assert!(matches!(
        settle(Endpoint::Snapshot, "u", replied(401, "no")),
        Outcome::Unauthorized
    ));
}

#[test]
fn failures_are_told_in_words() {
    let told = |endpoint: Endpoint, exchange: Exchange<LocationListResponse>| {
        match settle(endpoint, "https://api/x", exchange) {
            Outcome::Failed(failure) => failure.message(),
            _ => panic!("a failure was expected"),
        }
    };
    let not_sent = || Exchange::NotSent { cause: "dns".to_string() };
    let not_read = || Exchange::NotRead { cause: "reset".to_string() };
    let odd = || Exchange::Replied {
        status: status(200),
        body: "[]".to_string(),
        decoded: Err("expected a map".to_string()),
    };
    assert_eq!(told(Endpoint::Locations, not_sent()), "failed to call https://api/x: dns");
    assert_eq!(
        told(Endpoint::Locations, not_read()),
        "failed to read location list response body: reset"
    );
    assert_eq!(
        told(Endpoint::Snapshot, not_read()),
        "failed to read location snapshot body: reset"
    );
    assert_eq!(
        told(Endpoint::WebSocket, not_read()),
        "failed to read websocket bootstrap body: reset"
    );
    assert_eq!(
        told(Endpoint::Locations, odd()),
        "failed to decode locations response: expected a map"
    );
    assert_eq!(
        told(Endpoint::Snapshot, odd()),
        "failed to decode location snapshot JSON: expected a map"
    );
    assert_eq!(
        told(Endpoint::WebSocket, odd()),
        "failed to decode websocket bootstrap JSON: expected a map"
    );
    assert_eq!(
        told(Endpoint::Locations, replied(500, "oops")),
        "listing locations failed with status 500 Internal Server Error: oops"
    );
    assert_eq!(
        told(Endpoint::Snapshot, replied(429, "slow")),
        "location snapshot failed with status 429 Too Many Requests: slow"
    );
    assert_eq!(
        told(Endpoint::WebSocket, replied(404, "")),
        "websocket bootstrap failed with status 404 Not Found: "
    );
}

#[test]
fn the_token_endpoint_fails_on_every_refusal() {
    let exchange = |code: u16| Exchange::Replied {
        status: status(code),
        body: "invalid_client".to_string(),
        decoded: Err::<TokenResponse, String>("missing field".to_string()),
    };
    let told = |exchange: Exchange<TokenResponse>| {
        grant(Endpoint::Token, "https://auth/oauth2/token", exchange)
            .expect_err("a failure was expected")
    };
    assert_eq!(
        told(exchange(401)).message(),
        "token request failed with status 401 Unauthorized: invalid_client"
    );
    let failure: Failure = told(exchange(200));
    assert_eq!(failure.context, "failed to decode token response JSON");
    assert_eq!(failure.cause.as_deref(), Some("missing field"));
    assert_eq!(
        told(Exchange::NotRead { cause: "reset".to_string() }).message(),
        "failed to read token response: reset"
    );
}
