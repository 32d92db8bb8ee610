use gardena_exporter::report::{token_curl, token_lines};
use gardena_exporter::token::{ActiveToken, TokenResponse};

fn response(expires_in: Option<u64>) -> TokenResponse {
    TokenResponse {
        access_token: "t0k3n".to_string(),
        token_type: None,
        expires_in,
        scope: None,
    }
}

#[test]
fn a_token_is_renewed_a_minute_before_it_expires() {
    let token = ActiveToken::from_response(response(Some(3600)));
    assert_eq!(token.access_token(), "t0k3n");
    assert!(!token.needs_refresh_at(3539));
    assert!(token.needs_refresh_at(3540));
    assert!(!token.needs_refresh());
}

#[test]
fn a_token_without_a_stated_lifetime_lasts_an_hour() {
    let token = ActiveToken::from_response(response(None));
    assert!(!token.needs_refresh_at(3539));
    assert!(token.needs_refresh_at(3540));
}

#[test]
fn a_token_for_less_than_a_minute_is_renewed_at_once() {
    for seconds in [0, 1, 59, 60] {
        let token = ActiveToken::from_response(response(Some(seconds)));
        assert!(token.needs_refresh_at(0));
        assert!(token.needs_refresh());
    }
    let token = ActiveToken::from_response(response(Some(61)));
    assert!(!token.needs_refresh_at(0));
    assert!(token.needs_refresh_at(1));
    let token = ActiveToken::from_response(response(Some(u64::MAX)));
    assert!(!token.needs_refresh());
    assert_eq!(token.age_seconds(), 0);
}

#[test]
fn a_token_counts_from_the_given_moment() {
    let since = std::time::Instant::now();
    let token = ActiveToken::from_response_at(response(Some(3600)), &since);
    let later = since + std::time::Duration::from_millis(3_540_999);
    assert_eq!(token.age_at(&since), 0);
    assert_eq!(token.age_at(&later), 3540);
    let other = ActiveToken::from_response_at(response(Some(3600)), &later);
    assert_eq!(other.age_at(&since), 0);
    let copy = token.clone();
    assert_eq!(copy.access_token(), "t0k3n");
    assert_eq!(copy.age_at(&later), 3540);
}

#[test]
fn a_stale_token_stays_stale() {
    let since = std::time::Instant::now();
    let token = ActiveToken::from_response_at(response(Some(120)), &since);
    let stale = |millis: u64| {
        let clock = since + std::time::Duration::from_millis(millis);
        token.needs_refresh_at(token.age_at(&clock))
    };
    assert!(!stale(59_999));
    for millis in [60_000, 60_001, 120_000, 90_000_000] {
        assert!(stale(millis));
    }
}

#[test]
fn a_token_ages_by_the_clock() {
    let token = ActiveToken::from_response(response(Some(61)));
    assert!(!token.needs_refresh());
    let start = std::time::Instant::now();
    while start.elapsed().as_millis() < 1_100 {}
    assert!(token.age_seconds() >= 1);
    assert!(token.needs_refresh());
}

#[test]
fn a_token_is_told_line_by_line() {
    let token = TokenResponse {
        access_token: "t0k3n".to_string(),
        token_type: Some("Bearer".to_string()),
        expires_in: Some(86_399),
        scope: Some("iam:read".to_string()),
    };
    assert_eq!(token_lines(&token, true), vec!["t0k3n"]);
    assert_eq!(
        token_lines(&token, false),
        vec!["token_type=Bearer", "expires_in=86399", "scope=iam:read", "access_token=t0k3n"]
    );
    assert_eq!(
        token_lines(&response(None), false),
        vec!["token_type=unknown", "expires_in=0", "access_token=t0k3n"]
    );
}

#[test]
fn the_curl_command_is_as_documented() {
    assert_eq!(
        token_curl("https://api.authentication.husqvarnagroup.dev/v1/"),
        "curl -fsSL -X POST -d \"grant_type=client_credentials\
         &client_id=$GARDENA_APPLICATION_KEY\
         &client_secret=$GARDENA_APPLICATION_SECRET\" \\\n  \
         https://api.authentication.husqvarnagroup.dev/v1/oauth2/token"
    );
}
