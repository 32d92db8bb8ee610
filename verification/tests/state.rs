use gardena_exporter::device::{
    CommonServiceState, DeviceState, SensorServiceState, ValveServiceState, ValveSetServiceState,
};
use gardena_exporter::json::Scalar;
use gardena_exporter::location::LocationSummary;
use gardena_exporter::ordered::OrderedMap;
use gardena_exporter::state::{
    resolve_valve_estimated_flow_liters_per_minute, ExporterState, JsonApiResource,
    SnapshotResponse,
};
use gardena_exporter::usage::MeteredTime;
use serde_json::Value;

fn scalar(number: f64) -> Scalar {
    Scalar { bits: number.to_bits() }
}

fn number(value: Option<Scalar>) -> Option<f64> {
    value.map(|scalar| f64::from_bits(scalar.bits))
}

fn liters(metered: &[MeteredTime]) -> f64 {
    metered
        .iter()
        .map(|time| time.open_millis as f64 / 60_000.0 * f64::from_bits(time.flow.bits))
        .sum()
}

fn resource_of(value: &Value) -> JsonApiResource {
    JsonApiResource {
        id: value["id"].as_str().expect("id").to_string(),
        kind: value["type"].as_str().expect("type").to_string(),
        attributes: value.get("attributes").cloned(),
        relationships: value.get("relationships").cloned(),
    }
}

fn resource(text: &str) -> JsonApiResource {
    let value: Value = serde_json::from_str(text).expect("resource should be JSON");
    resource_of(&value)
}

fn snapshot(text: &str) -> SnapshotResponse {
    let value: Value = serde_json::from_str(text).expect("snapshot should be JSON");
    SnapshotResponse {
        data: resource_of(&value["data"]),
        included: value["included"]
            .as_array()
            .map(|resources| resources.iter().map(resource_of).collect())
            .unwrap_or_default(),
    }
}

fn terrace() -> LocationSummary {
    LocationSummary { id: "location-1".to_string(), name: "Terrace".to_string() }
}

fn valve(id: &str, activity: &str, timestamp: &str) -> JsonApiResource {
    resource(&format!(
        r#"{{
            "id": "{id}",
            "type": "VALVE",
            "attributes": {{
                "name": {{ "value": "Drip Zone" }},
                "activity": {{ "value": "{activity}", "timestamp": "{timestamp}" }},
                "state": {{ "value": "OK", "timestamp": "{timestamp}" }}
            }},
            "relationships": {{
                "device": {{ "data": {{ "id": "device-1", "type": "DEVICE" }} }}
            }}
        }}"#
    ))
}

#[test]
fn applies_common_and_sensor_services_from_snapshot() {
    let selected = terrace();
    let snapshot = snapshot(
        r#"{
            "data": {
                "id": "location-1",
                "type": "LOCATION",
                "attributes": { "name": "Terrace" }
            },
            "included": [
                {
                    "id": "device-1",
                    "type": "DEVICE",
                    "relationships": {
                        "location": { "data": { "id": "location-1", "type": "LOCATION" } }
                    }
                },
                {
                    "id": "common-1",
                    "type": "COMMON",
                    "attributes": {
                        "name": { "value": "Bed Sensor" },
                        "batteryLevel": { "value": 87.0, "timestamp": "2026-04-06T10:00:00Z" },
                        "modelType": { "value": "smart Sensor" },
                        "serial": { "value": "SER123" }
                    },
                    "relationships": {
                        "device": { "data": { "id": "device-1", "type": "DEVICE" } }
                    }
                },
                {
                    "id": "sensor-1",
                    "type": "SENSOR",
                    "attributes": {
                        "soilHumidity": { "value": 44.0, "timestamp": "2026-04-06T10:01:00Z" },
                        "soilTemperature": { "value": 17.5, "timestamp": "2026-04-06T10:01:00Z" }
                    },
                    "relationships": {
                        "device": { "data": { "id": "device-1", "type": "DEVICE" } }
                    }
                }
            ]
        }"#,
    );

    let mut state = ExporterState::default();
    state.apply_snapshot(&selected, &snapshot, Some(scalar(3.5)), &OrderedMap::new());

    let device = state.devices.get("device-1").expect("device should exist");
    let common = device.common.as_ref().expect("common service should exist");
    let sensor = device.sensor.as_ref().expect("sensor service should exist");

    assert_eq!(state.location_name.as_deref(), Some("Terrace"));
    assert_eq!(common.name.as_deref(), Some("Bed Sensor"));
    assert_eq!(common.model_type.as_deref(), Some("smart Sensor"));
    assert_eq!(number(sensor.soil_humidity), Some(44.0));
    assert_eq!(number(sensor.soil_temperature), Some(17.5));

    assert_eq!(device.location_id.as_deref(), Some("location-1"));
    assert_eq!(number(common.battery_level), Some(87.0));
    assert_eq!(common.battery_level_timestamp, Some(1_775_469_600_000));
    assert_eq!(common.serial.as_deref(), Some("SER123"));
    assert_eq!(common.battery_state, None);
    assert_eq!(sensor.soil_humidity_timestamp, Some(1_775_469_660_000));
    assert_eq!(number(sensor.ambient_temperature), None);
    assert_eq!(sensor.light_intensity_timestamp, None);
    assert!(state.last_snapshot_timestamp.is_some());
    assert_eq!(state.last_snapshot_timestamp, state.last_successful_sync_timestamp);
    assert_eq!(state.last_event_timestamp, None);
}

#[test]
fn tracks_valve_usage_with_per_valve_flow_override() {
    let mut state = ExporterState::default();
    let mut overrides = OrderedMap::new();
    overrides.insert("valve-1".to_string(), scalar(1.2));

    let open = valve("valve-1", "MANUAL_WATERING", "2026-04-06T10:00:00Z");
    let close = valve("valve-1", "CLOSED", "2026-04-06T10:15:00Z");

    state.apply_resource(&open, Some(scalar(3.5)), &overrides);
    state.apply_resource(&close, Some(scalar(3.5)), &overrides);

    let usage = state.valve_usage.get("valve-1").expect("valve usage should exist");

    assert!(!usage.currently_open);
    assert_eq!(number(usage.estimated_flow_liters_per_minute), Some(1.2));
    assert!((usage.total_open_millis as f64 / 1000.0 - 900.0).abs() < 0.001);
    assert!((liters(&usage.metered) - 18.0).abs() < 0.001);
}

#[test]
fn valves_without_override_use_the_default_rate() {
    let mut overrides = OrderedMap::new();
    overrides.insert("valve-1".to_string(), scalar(1.2));
    let rate = |id: &str, default_flow: Option<Scalar>| {
        number(resolve_valve_estimated_flow_liters_per_minute(id, default_flow, &overrides))
    };
    assert_eq!(rate("valve-1", Some(scalar(3.5))), Some(1.2));
    assert_eq!(rate("valve-1", None), Some(1.2));
    assert_eq!(rate("valve-2", Some(scalar(3.5))), Some(3.5));
    assert_eq!(rate("valve-2", None), None);
}

#[test]
fn a_location_resource_renames_the_location() {
    let mut state = ExporterState::default();
    let named = resource(
        r#"{ "id": "location-2", "type": "LOCATION", "attributes": { "name": "Garden" } }"#,
    );
    state.apply_resource(&named, None, &OrderedMap::new());
    assert_eq!(state.location_id.as_deref(), Some("location-2"));
    assert_eq!(state.location_name.as_deref(), Some("Garden"));

    let unnamed = resource(r#"{ "id": "location-3", "type": "LOCATION" }"#);
    state.apply_resource(&unnamed, None, &OrderedMap::new());
    assert_eq!(state.location_id.as_deref(), Some("location-3"));
    assert_eq!(state.location_name, None);
}

#[test]
fn unknown_kinds_and_services_without_device_are_ignored() {
    let mut state = ExporterState::default();
    let texts = [
        r#"{
            "id": "x", "type": "MOWER",
            "relationships": { "device": { "data": { "id": "d" } } }
        }"#,
        r#"{ "id": "x", "type": "COMMON" }"#,
        r#"{ "id": "x", "type": "SENSOR", "relationships": { "device": {} } }"#,
        r#"{ "id": "x", "type": "VALVE", "relationships": { "device": { "data": { "id": 7 } } } }"#,
        r#"{ "id": "x", "type": "VALVE_SET", "relationships": [] }"#,
    ];
    for text in texts {
        state.apply_resource(&resource(text), Some(scalar(3.5)), &OrderedMap::new());
    }
    assert_eq!(state.devices.len(), 0);
    assert_eq!(state.valve_usage.len(), 0);
    assert_eq!(state.location_id, None);
}

#[test]
fn a_valve_set_is_kept_with_its_device() {
    let mut state = ExporterState::default();
    let set = resource(
        r#"{
            "id": "set-1",
            "type": "VALVE_SET",
            "attributes": {
                "state": { "value": "WARNING", "timestamp": "2026-04-06T12:00:00.250+02:00" },
                "lastErrorCode": { "value": "NO_MESSAGE" }
            },
            "relationships": { "device": { "data": { "id": "device-1" } } }
        }"#,
    );
    state.apply_resource(&set, None, &OrderedMap::new());
    let device = state.devices.get("device-1").expect("device should exist");
    let set = device.valve_sets.get("set-1").expect("valve set should exist");
    assert_eq!(device.id, "device-1");
    assert_eq!(set.id, "set-1");
    assert_eq!(set.state.as_deref(), Some("WARNING"));
    assert_eq!(set.state_timestamp, Some(1_775_469_600_250));
    assert_eq!(set.last_error.as_deref(), Some("NO_MESSAGE"));
    assert_eq!(device.valves.len(), 0);
}

#[test]
fn values_of_another_type_are_not_read() {
    let mut state = ExporterState::default();
    let common = resource(
        r#"{
            "id": "common-1",
            "type": "COMMON",
            "attributes": {
                "name": { "value": 12 },
                "batteryLevel": { "value": "87", "timestamp": "yesterday" },
                "rfLinkLevel": { "value": 100, "timestamp": 5 },
                "serial": "SER123"
            },
            "relationships": { "device": { "data": { "id": "device-1" } } }
        }"#,
    );
    state.apply_resource(&common, None, &OrderedMap::new());
    let device = state.devices.get("device-1").expect("device should exist");
    let common = device.common.as_ref().expect("common service should exist");
    assert_eq!(common.name, None);
    assert_eq!(number(common.battery_level), None);
    assert_eq!(common.battery_level_timestamp, None);
    assert_eq!(number(common.rf_link_level), Some(100.0));
    assert_eq!(common.rf_link_level_timestamp, None);
    assert_eq!(common.serial, None);
}

#[test]
fn a_snapshot_replaces_devices_and_keeps_usage() {
    let mut state = ExporterState::default();
    let none = OrderedMap::new();
    state.apply_resource(
        &valve("valve-1", "MANUAL_WATERING", "2026-04-06T10:00:00Z"),
        Some(scalar(3.5)),
        &none,
    );
    state.apply_resource(
        &valve("valve-1", "CLOSED", "2026-04-06T10:10:00Z"),
        Some(scalar(3.5)),
        &none,
    );
    assert!(state.devices.get("device-1").is_some());
    let other = snapshot(
        r#"{
            "data": { "id": "location-1", "type": "LOCATION", "attributes": { "name": "Patio" } },
            "included": [ { "id": "device-2", "type": "DEVICE" } ]
        }"#,
    );
    state.apply_snapshot_at(&terrace(), &other, Some(scalar(3.5)), &none, 1_775_470_000_000);
    assert!(state.devices.get("device-1").is_none());
    assert!(state.devices.get("device-2").is_some());
    assert_eq!(state.devices.len(), 1);
    assert_eq!(state.location_name.as_deref(), Some("Patio"));
    assert_eq!(state.last_snapshot_timestamp, Some(1_775_470_000_000));
    let usage = state.valve_usage.get("valve-1").expect("usage should be kept");
    assert_eq!(usage.total_open_millis, 600_000);
}

#[test]
fn a_snapshot_says_nothing_of_the_connection() {
    let text = r#"{ "data": { "id": "location-1", "type": "LOCATION" } }"#;
    for connected in [false, true] {
        let mut state = ExporterState::default();
        state.connected = connected;
        state.apply_snapshot(&terrace(), &snapshot(text), None, &OrderedMap::new());
        assert_eq!(state.connected, connected);
        assert!(state.last_successful_sync_timestamp.is_some());
    }
}

#[test]
fn the_same_resource_twice_changes_nothing_more() {
    let none = OrderedMap::new();
    let mut state = ExporterState::default();
    let open = valve("valve-1", "SCHEDULED_WATERING", "2026-04-06T10:00:00Z");
    let closed = valve("valve-1", "CLOSED", "2026-04-06T10:01:00Z");
    for (moment, report) in [&open, &open, &closed, &closed].iter().enumerate() {
        state.apply_resource_at(
            report,
            Some(scalar(2.0)),
            &none,
            1_775_470_000_000 + 1_000 * moment as i64,
        );
    }
    let usage = state.valve_usage.get("valve-1").expect("usage should exist");
    assert_eq!(usage.total_open_millis, 60_000);
    assert_eq!(usage.metered.len(), 1);
    assert!((liters(&usage.metered) - 2.0).abs() < 1e-9);
}

#[test]
fn a_report_without_timestamps_counts_from_now() {
    let none = OrderedMap::new();
    let mut state = ExporterState::default();
    let report = |activity: &str| {
        resource(&format!(
            r#"{{
                "id": "valve-1",
                "type": "VALVE",
                "attributes": {{ "activity": {{ "value": "{activity}" }} }},
                "relationships": {{ "device": {{ "data": {{ "id": "device-1" }} }} }}
            }}"#
        ))
    };
    state.apply_resource_at(&report("MANUAL_WATERING"), None, &none, 1_000);
    assert_eq!(state.valve_usage_totals_at("valve-1", 4_500).open_millis, 3_500);
    state.apply_resource_at(&report("CLOSED"), None, &none, 6_000);
    let totals = state.valve_usage_totals_at("valve-1", 90_000);
    assert_eq!(totals.open_millis, 5_000);
    assert!(totals.metered.is_empty());
    assert_eq!(totals.flow_liters_per_minute, None);
}

#[test]
fn the_state_timestamp_stands_in_for_the_activity_timestamp() {
    let none = OrderedMap::new();
    let mut state = ExporterState::default();
    let open = resource(
        r#"{
            "id": "valve-1",
            "type": "VALVE",
            "attributes": {
                "activity": { "value": "MANUAL_WATERING" },
                "state": { "value": "OK", "timestamp": "1970-01-01T00:00:02Z" }
            },
            "relationships": { "device": { "data": { "id": "device-1" } } }
        }"#,
    );
    state.apply_resource_at(&open, None, &none, 9_000);
    let usage = state.valve_usage.get("valve-1").expect("usage should exist");
    assert_eq!(usage.open_since_timestamp, Some(2_000));
}

#[test]
fn a_valve_without_activity_is_not_counted_as_open() {
    let none = OrderedMap::new();
    let mut state = ExporterState::default();
    let silent = resource(
        r#"{
            "id": "valve-1",
            "type": "VALVE",
            "relationships": { "device": { "data": { "id": "device-1" } } }
        }"#,
    );
    state.apply_resource_at(&silent, Some(scalar(3.5)), &none, 9_000);
    let usage = state.valve_usage.get("valve-1").expect("usage should exist");
    assert!(!usage.currently_open);
    assert_eq!(usage.open_since_timestamp, None);
    assert_eq!(state.valve_usage_totals("valve-1").open_millis, 0);
}

#[test]
fn counters_saturate() {
    let mut state = ExporterState::default();
    state.token_refreshes_total = u64::MAX;
    state.last_error = Some("before".to_string());
    state.note_token();
    assert_eq!(state.token_refreshes_total, u64::MAX);
    assert_eq!(state.last_error, None);
    state.websocket_reconnects_total = 4;
    state.connected = true;
    state.note_failure("gone".to_string());
    assert_eq!(state.websocket_reconnects_total, 5);
    assert_eq!(state.last_error.as_deref(), Some("gone"));
    assert!(!state.connected);
    state.note_refresh();
    assert_eq!(state.snapshot_refreshes_total, 1);
    assert_eq!(state.last_error, None);
    assert!(!state.connected);
    state.note_connection(&terrace());
    assert!(state.connected);
    assert_eq!(state.location_id.as_deref(), Some("location-1"));
}

#[test]
fn resources_of_different_kinds_can_come_in_any_order() {
    let texts = [
        r#"{
            "id": "c1", "type": "COMMON",
            "attributes": { "name": { "value": "Bed" } },
            "relationships": { "device": { "data": { "id": "d1" } } }
        }"#,
        r#"{
            "id": "s1", "type": "SENSOR",
            "attributes": { "soilHumidity": { "value": 12 } },
            "relationships": { "device": { "data": { "id": "d1" } } }
        }"#,
        r#"{ "id": "d1", "type": "DEVICE" }"#,
    ];
    let none = OrderedMap::new();
    let mut forth = ExporterState::default();
    let mut back = ExporterState::default();
    for text in texts {
        forth.apply_resource_at(&resource(text), None, &none, 0);
    }
    for text in texts.iter().rev() {
        back.apply_resource_at(&resource(text), None, &none, 0);
    }
    assert_eq!(format!("{forth:?}"), format!("{back:?}"));
}

#[test]
fn resources_and_snapshots_can_be_cloned() {
    let first = valve("valve-1", "CLOSED", "2026-04-06T10:00:00Z");
    let copy = first.clone();
    assert_eq!(copy.id, "valve-1");
    assert_eq!(copy.kind, "VALVE");
    assert_eq!(copy.attributes, first.attributes);
    assert_eq!(copy.relationships, first.relationships);
    let whole = SnapshotResponse { data: copy, included: vec![first] };
    let again = whole.clone();
    assert_eq!(format!("{again:?}"), format!("{whole:?}"));
}

#[test]
fn defaults_know_nothing() {
    assert_eq!(CommonServiceState::default().name, None);
    assert_eq!(CommonServiceState::default().battery_level, None);
    assert_eq!(SensorServiceState::default().soil_humidity, None);
    assert_eq!(ValveServiceState::default().id, "");
    assert_eq!(ValveServiceState::default().activity, None);
    assert_eq!(ValveSetServiceState::default().id, "");
    let device = DeviceState::default();
    assert_eq!(device.id, "");
    assert!(device.common.is_none());
    assert_eq!(device.valves.len(), 0);
    let state = ExporterState::default();
    assert_eq!(state.devices.len(), 0);
    assert!(!state.connected);
    assert_eq!(state.last_error, None);
    let map: OrderedMap<Scalar> = OrderedMap::default();
    assert_eq!(map.len(), 0);
}
