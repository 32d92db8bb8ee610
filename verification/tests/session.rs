use gardena_exporter::config::{AuthConfig, RuntimeConfig};
use gardena_exporter::http::{Endpoint, Exchange, HttpStatus};
use gardena_exporter::json::Scalar;
use gardena_exporter::location::{LocationListResponse, LocationResource};
use gardena_exporter::ordered::OrderedMap;
use gardena_exporter::report::{location_lines, valve_lines};
use gardena_exporter::session::{Action, CloseFrame, Event, Mode, Report, Session};
use gardena_exporter::state::{
    ExporterState, JsonApiResource, SnapshotResponse, WebSocketCreatedResponse,
};
use gardena_exporter::token::TokenResponse;
use serde_json::Value;
use std::time::{Duration, Instant};

fn config(location_id: Option<&str>) -> RuntimeConfig {
    RuntimeConfig {
        auth: AuthConfig {
            application_key: "key".to_string(),
            application_secret: "SECRET-REDACTED".to_string(),
            auth_url: "https://auth/v1".to_string(),
        },
        api_url: "https://api/v2".to_string(),
        location_id: location_id.map(str::to_string),
        snapshot_interval: 1800,
        reconnect_delay: 5,
        max_reconnect_delay: 300,
        estimated_flow_liters_per_minute: Some(Scalar { bits: 3.5f64.to_bits() }),
        valve_estimated_flow_liters_per_minute: OrderedMap::new(),
    }
}

fn granted<T>(value: T) -> Exchange<T> {
    Exchange::Replied {
        status: HttpStatus::from_u16(200).expect("status"),
        body: "{}".to_string(),
        decoded: Ok(value),
    }
}

fn refused<T>(code: u16) -> Exchange<T> {
    Exchange::Replied {
        status: HttpStatus::from_u16(code).expect("status"),
        body: "no".to_string(),
        decoded: Err("no".to_string()),
    }
}

fn token(secret: &str) -> Event {
    Event::Token(granted(TokenResponse {
        access_token: secret.to_string(),
        token_type: None,
        expires_in: Some(3600),
        scope: None,
    }))
}

fn resource(text: &str) -> JsonApiResource {
    let value: Value = serde_json::from_str(text).expect("resource should be JSON");
    JsonApiResource {
        id: value["id"].as_str().expect("id").to_string(),
        kind: value["type"].as_str().expect("type").to_string(),
        attributes: value.get("attributes").cloned(),
        relationships: value.get("relationships").cloned(),
    }
}

fn locations(ids: &[&str]) -> Event {
    Event::Locations(granted(LocationListResponse {
        data: ids
            .iter()
            .map(|id| LocationResource {
                id: id.to_string(),
                kind: "LOCATION".to_string(),
                attributes: None,
            })
            .collect(),
    }))
}

fn snapshot() -> Event {
    Event::Snapshot(granted(SnapshotResponse {
        data: resource(
            r#"{ "id": "l1", "type": "LOCATION", "attributes": { "name": "Terrace" } }"#,
        ),
        included: vec![
            resource(
                r#"{
                    "id": "c1", "type": "COMMON",
                    "attributes": { "name": { "value": "Control" } },
                    "relationships": { "device": { "data": { "id": "d1" } } }
                }"#,
            ),
            resource(
                r#"{
                    "id": "v1", "type": "VALVE",
                    "attributes": { "name": { "value": "Lawn" } },
                    "relationships": { "device": { "data": { "id": "d1" } } }
                }"#,
            ),
            resource(
                r#"{
                    "id": "v0", "type": "VALVE",
                    "relationships": { "device": { "data": { "id": "d1" } } }
                }"#,
            ),
        ],
    }))
}

fn websocket(attributes: &str) -> Event {
    Event::WebSocket(granted(WebSocketCreatedResponse {
        data: resource(&format!(
            r#"{{ "id": "w", "type": "WEBSOCKET", "attributes": {attributes} }}"#
        )),
    }))
}

struct Run {
    config: RuntimeConfig,
    state: ExporterState,
    session: Option<Session>,
    clock: Instant,
}

impl Run {
    fn new(mode: Mode, location_id: Option<&str>) -> Run {
        Run {
            config: config(location_id),
            state: ExporterState::default(),
            session: Some(Session::start(mode)),
            clock: Instant::now(),
        }
    }

    fn feed(&mut self, event: Event) -> Action {
        let session = self.session.take().expect("session");
        let (session, action) =
            session.step_at(&self.config, &mut self.state, event, &self.clock, 7_000);
        self.session = Some(session);
        action
    }

    fn wait(&mut self, seconds: u64) {
        self.clock += Duration::from_secs(seconds);
    }

    fn listening() -> Run {
        let mut run = Run::new(Mode::Sync, None);
        for event in
            [token("t1"), locations(&["l1"]), snapshot(), websocket(r#"{ "url": "wss://x" }"#)]
        {
            run.feed(event);
        }
        assert!(matches!(run.feed(Event::Connected), Action::Listen));
        run
    }
}

fn asks(action: &Action, endpoint: Endpoint, secret: Option<&str>) -> bool {
    match action {
        Action::Send { endpoint: asked, request } => {
            let bearer = request
                .headers
                .iter()
                .find(|field| field.name == "Authorization")
                .map(|field| field.value.clone());
            *asked == endpoint && bearer == secret.map(|secret| format!("Bearer {secret}"))
        }
        _ => false,
    }
}

fn failure(action: Action) -> String {
    match action {
        Action::Abort(failure) => failure.message(),
        other => panic!("a failure was expected, not {other:?}"),
    }
}

#[test]
fn a_sync_session_comes_to_listen() {
    let mut run = Run::new(Mode::Sync, None);
    let first = run.session.as_ref().expect("session").pending(&run.config);
    assert!(asks(&first, Endpoint::Token, None));
    assert!(asks(&run.feed(token("t1")), Endpoint::Locations, Some("t1")));
    assert_eq!(run.state.token_refreshes_total, 1);
    assert!(asks(&run.feed(locations(&["l1"])), Endpoint::Snapshot, Some("t1")));
    assert!(asks(&run.feed(snapshot()), Endpoint::WebSocket, Some("t1")));
    assert_eq!(run.state.snapshot_refreshes_total, 1);
    assert!(!run.state.connected);
    assert_eq!(run.state.last_successful_sync_timestamp, Some(7_000));
    match run.feed(websocket(r#"{ "url": "wss://x" }"#)) {
        Action::Connect { url } => assert_eq!(url, "wss://x"),
        other => panic!("unexpected {other:?}"),
    }
    assert!(!run.state.connected);
    assert!(matches!(run.feed(Event::Connected), Action::Listen));
    assert!(run.state.connected);
    assert_eq!(run.state.location_id.as_deref(), Some("l1"));
    assert_eq!(run.state.location_name.as_deref(), Some("l1"));
    assert!(run.state.devices.get("d1").is_some());
}

#[test]
fn messages_are_taken_in_while_listening() {
    let mut run = Run::listening();
    run.state.last_error = Some("old".to_string());
    let message = resource(
        r#"{
            "id": "s1", "type": "SENSOR",
            "attributes": { "soilHumidity": { "value": 12 } },
            "relationships": { "device": { "data": { "id": "d2" } } }
        }"#,
    );
    assert!(matches!(run.feed(Event::Message(Ok(message))), Action::Listen));
    assert!(run.state.devices.get("d2").is_some());
    assert_eq!(run.state.last_event_timestamp, Some(7_000));
    assert_eq!(run.state.last_error, None);
    assert!(matches!(run.feed(Event::OtherMessage), Action::Listen));
}

#[test]
fn a_due_snapshot_is_asked_for_while_listening() {
    let mut run = Run::listening();
    assert!(asks(&run.feed(Event::Tick), Endpoint::Snapshot, Some("t1")));
    assert!(matches!(run.feed(snapshot()), Action::Listen));
    assert_eq!(run.state.snapshot_refreshes_total, 2);
    assert_eq!(run.state.token_refreshes_total, 1);
    assert!(run.state.connected);
}

#[test]
fn an_old_token_is_renewed_before_it_is_used() {
    let mut run = Run::listening();
    run.wait(3539);
    assert!(asks(&run.feed(Event::Tick), Endpoint::Snapshot, Some("t1")));
    assert!(matches!(run.feed(snapshot()), Action::Listen));
    assert!(matches!(run.feed(Event::OtherMessage), Action::Listen));
    run.wait(1);
    assert!(asks(&run.feed(Event::Tick), Endpoint::Token, None));
    assert!(asks(&run.feed(token("t2")), Endpoint::Snapshot, Some("t2")));
    assert_eq!(run.state.token_refreshes_total, 2);
    assert!(matches!(run.feed(snapshot()), Action::Listen));
}

#[test]
fn an_unaccepted_token_is_renewed_once() {
    let mut run = Run::new(Mode::Sync, None);
    run.feed(token("t1"));
    assert!(asks(&run.feed(Event::Locations(refused(401))), Endpoint::Token, None));
    assert!(asks(&run.feed(token("t2")), Endpoint::Locations, Some("t2")));
    assert_eq!(
        failure(run.feed(Event::Locations(refused(401)))),
        "listing locations still returned unauthorized after refreshing token"
    );
    assert!(matches!(run.feed(token("t3")), Action::Rest));

    let mut run = Run::listening();
    run.feed(Event::Tick);
    run.feed(Event::Snapshot(refused(401)));
    run.feed(token("t2"));
    assert_eq!(
        failure(run.feed(Event::Snapshot(refused(401)))),
        "snapshot still returned unauthorized after refreshing token"
    );
}

#[test]
fn an_answer_without_an_address_counts_as_unauthorized() {
    let mut run = Run::new(Mode::Sync, None);
    for event in [token("t1"), locations(&["l1"]), snapshot()] {
        run.feed(event);
    }
    assert!(asks(&run.feed(websocket("{}")), Endpoint::Token, None));
    assert!(asks(&run.feed(token("t2")), Endpoint::WebSocket, Some("t2")));
    assert_eq!(
        failure(run.feed(websocket("{}"))),
        "websocket bootstrap still returned unauthorized after refreshing token"
    );
}

#[test]
fn failures_end_a_session() {
    let told = |mut run: Run, event: Event| failure(run.feed(event));
    let cause = || "reset".to_string();
    assert_eq!(
        told(Run::new(Mode::Sync, None), Event::Token(refused(401))),
        "token request failed with status 401 Unauthorized: no"
    );
    let mut run = Run::new(Mode::Sync, None);
    run.feed(token("t1"));
    assert_eq!(
        told(run, Event::Locations(Exchange::NotSent { cause: cause() })),
        "failed to call https://api.smart.gardena.dev/v2/locations: reset"
    );
    let mut run = Run::new(Mode::Sync, None);
    run.feed(token("t1"));
    assert_eq!(
        told(run, locations(&[])),
        "no Gardena locations are available for this application"
    );
    let mut run = Run::new(Mode::Sync, Some("l9"));
    run.feed(token("t1"));
    assert_eq!(told(run, locations(&["l1"])), "configured location id l9 was not found");
    let mut run = Run::new(Mode::Sync, None);
    for event in
        [token("t1"), locations(&["l1"]), snapshot(), websocket(r#"{ "url": "wss://x" }"#)]
    {
        run.feed(event);
    }
    assert_eq!(
        told(run, Event::NotConnected { cause: cause() }),
        "failed to connect to Gardena websocket: reset"
    );
    assert_eq!(
        told(Run::listening(), Event::Message(Err(cause()))),
        "failed to parse websocket JSON resource: reset"
    );
    assert_eq!(
        told(Run::listening(), Event::Closed(None)),
        "Gardena websocket closed: no close frame"
    );
    let frame = CloseFrame { code: 1001, reason: "going away".to_string() };
    assert_eq!(
        told(Run::listening(), Event::Closed(Some(frame))),
        "Gardena websocket closed: code=1001 reason=going away"
    );
    assert_eq!(
        told(Run::listening(), Event::StreamError { cause: cause() }),
        "Gardena websocket error: reset"
    );
    assert_eq!(
        told(Run::listening(), Event::StreamEnded),
        "Gardena websocket ended unexpectedly"
    );
}

#[test]
fn validation_takes_in_a_snapshot_and_does_not_connect() {
    let mut run = Run::new(Mode::Validate, None);
    assert!(asks(&run.feed(token("t1")), Endpoint::Locations, Some("t1")));
    run.wait(4000);
    assert!(asks(&run.feed(locations(&["l1"])), Endpoint::Snapshot, Some("t1")));
    assert!(asks(&run.feed(snapshot()), Endpoint::Token, None));
    assert!(!run.state.connected);
    assert_eq!(run.state.snapshot_refreshes_total, 0);
    assert!(asks(&run.feed(token("t2")), Endpoint::WebSocket, Some("t2")));
    assert_eq!(run.state.token_refreshes_total, 2);
    assert!(matches!(
        run.feed(websocket(r#"{ "url": "wss://x" }"#)),
        Action::Finish(Report::Validated(location)) if location.id == "l1"
    ));
}

#[test]
fn validation_does_not_try_twice() {
    let mut run = Run::new(Mode::Validate, None);
    run.feed(token("t1"));
    assert_eq!(
        failure(run.feed(Event::Locations(refused(401)))),
        "listing locations unexpectedly returned unauthorized during startup validation"
    );
    let mut run = Run::new(Mode::Validate, None);
    run.feed(token("t1"));
    run.feed(locations(&["l1"]));
    assert_eq!(
        failure(run.feed(Event::Snapshot(refused(401)))),
        "snapshot unexpectedly returned unauthorized during startup validation"
    );
    let mut run = Run::new(Mode::Validate, None);
    for event in [token("t1"), locations(&["l1"]), snapshot()] {
        run.feed(event);
    }
    assert_eq!(
        failure(run.feed(Event::WebSocket(refused(401)))),
        "websocket bootstrap unexpectedly returned unauthorized during startup validation"
    );
}

#[test]
fn locations_are_listed() {
    let mut run = Run::new(Mode::Locations, None);
    assert!(asks(&run.feed(token("t1")), Endpoint::Locations, Some("t1")));
    assert_eq!(run.state.token_refreshes_total, 0);
    match run.feed(locations(&["l1", "l2"])) {
        Action::Finish(Report::Locations(found)) => {
            assert_eq!(location_lines(&found), vec!["l1\tl1", "l2\tl2"]);
        }
        other => panic!("unexpected {other:?}"),
    }
    let mut run = Run::new(Mode::Locations, None);
    run.feed(token("t1"));
    assert_eq!(
        failure(run.feed(Event::Locations(refused(401)))),
        "listing locations unexpectedly returned unauthorized"
    );
}

#[test]
fn valves_are_listed() {
    let mut run = Run::new(Mode::Valves, Some("l1"));
    run.feed(token("t1"));
    assert!(asks(&run.feed(locations(&["l0", "l1"])), Endpoint::Snapshot, Some("t1")));
    match run.feed(snapshot()) {
        Action::Finish(Report::Valves(valves)) => assert_eq!(
            valve_lines(&valves),
            vec![
                "location_id\tlocation\tdevice_id\tcontroller_name\tservice_id\tvalve_name",
                "l1\tl1\td1\tControl\tv0\tv0",
                "l1\tl1\td1\tControl\tv1\tLawn",
            ]
        ),
        other => panic!("unexpected {other:?}"),
    }
}

#[test]
fn stray_events_are_answered_with_what_is_pending() {
    let mut run = Run::new(Mode::Sync, None);
    assert!(asks(&run.feed(Event::Tick), Endpoint::Token, None));
    run.feed(token("t1"));
    assert!(asks(&run.feed(token("t9")), Endpoint::Locations, Some("t1")));
    assert_eq!(run.state.token_refreshes_total, 1);
    assert!(asks(&run.feed(snapshot()), Endpoint::Locations, Some("t1")));
    assert_eq!(run.state.devices.len(), 0);
}

#[test]
fn a_step_by_the_clock_uses_a_fresh_token() {
    let config = config(None);
    let mut state = ExporterState::default();
    let session = Session::start(Mode::Sync);
    let (session, action) = session.step(&config, &mut state, token("t1"));
    assert!(asks(&action, Endpoint::Locations, Some("t1")));
    let (_, action) = session.step(&config, &mut state, locations(&["l1"]));
    assert!(asks(&action, Endpoint::Snapshot, Some("t1")));

    let mut state = ExporterState::default();
    let short = Event::Token(granted(TokenResponse {
        access_token: "brief".to_string(),
        token_type: None,
        expires_in: Some(30),
        scope: None,
    }));
    let (_, action) = Session::start(Mode::Sync).step(&config, &mut state, short);
    assert!(asks(&action, Endpoint::Token, None));
}
