use gardena_exporter::config::{AuthConfig, RuntimeConfig};
use gardena_exporter::http::Failure;
use gardena_exporter::ordered::OrderedMap;
use gardena_exporter::pages::{health_page, index_page, unrendered_page, METRICS_CONTENT_TYPE};
use gardena_exporter::retry::Backoff;
use gardena_exporter::state::ExporterState;

fn config(reconnect_delay: u64, max_reconnect_delay: u64) -> RuntimeConfig {
    RuntimeConfig {
        auth: AuthConfig {
            application_key: "key".to_string(),
            application_secret: "SECRET-REDACTED".to_string(),
            auth_url: "https://auth/v1".to_string(),
        },
        api_url: "https://api/v2".to_string(),
        location_id: None,
        snapshot_interval: 1800,
        reconnect_delay,
        max_reconnect_delay,
        estimated_flow_liters_per_minute: None,
        valve_estimated_flow_liters_per_minute: OrderedMap::new(),
    }
}

#[test]
fn health_waits_for_the_first_sync() {
    let mut state = ExporterState::default();
    let page = health_page(&state);
    assert_eq!(page.status, 503);
    assert_eq!(page.body, "waiting for first successful Gardena sync\n");
    state.last_error = Some("no route".to_string());
    let page = health_page(&state);
    assert_eq!(page.status, 503);
    assert_eq!(page.body, "waiting for first successful Gardena sync: no route\n");
    state.last_successful_sync_timestamp = Some(0);
    let page = health_page(&state);
    assert_eq!(page.status, 200);
    assert_eq!(page.body, "ok\n");
}

#[test]
fn the_index_tells_location_and_connection() {
    let mut state = ExporterState::default();
    let page = index_page(&state);
    assert_eq!(page.status, 200);
    assert_eq!(
        page.body,
        "prometheus-gardena-exporter\nlocation: not yet selected\nconnected: false\n\
         metrics: /metrics\nhealth: /healthz\n"
    );
    state.location_name = Some("Terrace".to_string());
    state.connected = true;
    assert_eq!(
        index_page(&state).body,
        "prometheus-gardena-exporter\nlocation: Terrace\nconnected: true\n\
         metrics: /metrics\nhealth: /healthz\n"
    );
}

#[test]
fn metrics_that_cannot_be_rendered_are_an_error() {
    let page = unrendered_page("bad label");
    assert_eq!(page.status, 500);
    assert_eq!(page.body, "failed to render metrics: bad label\n");
    assert_eq!(METRICS_CONTENT_TYPE, "text/plain; version=0.0.4; charset=utf-8");
}

#[test]
fn delays_double_up_to_the_longest() {
    let config = config(5, 300);
    let mut backoff = Backoff::start(&config.clone());
    let mut state = ExporterState::default();
    let failure = Failure {
        context: "failed to call u".to_string(),
        cause: Some("dns".to_string()),
    };
    let delays: Vec<u64> = (0..8).map(|_| backoff.fail(&mut state, &failure)).collect();
    assert_eq!(delays, vec![5, 10, 20, 40, 80, 160, 300, 300]);
    assert_eq!(state.websocket_reconnects_total, 8);
    assert_eq!(state.last_error.as_deref(), Some("failed to call u: dns"));
    assert!(!state.connected);
    backoff.succeed();
    assert_eq!(backoff.fail(&mut state, &failure), 5);
    assert_eq!(backoff.fail(&mut state, &failure), 10);
}

#[test]
fn a_first_delay_above_the_longest_is_kept_once() {
    let config = config(u64::MAX, 60);
    let mut backoff = Backoff::start(&config);
    let mut state = ExporterState::default();
    let failure = Failure::plain("gone".to_string());
    assert_eq!(backoff.fail(&mut state, &failure), u64::MAX);
    assert_eq!(backoff.fail(&mut state, &failure), 60);
    assert_eq!(state.last_error.as_deref(), Some("gone"));
}
