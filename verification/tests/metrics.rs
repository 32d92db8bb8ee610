use gardena_exporter::family::{Family, MetricKind};
use gardena_exporter::json::Scalar;
use gardena_exporter::metrics::{
    location_name_or_id, render_metrics, render_metrics_at, Sample, SampleValue,
};
use gardena_exporter::ordered::OrderedMap;
use gardena_exporter::state::{ExporterState, JsonApiResource};
use gardena_exporter::usage::ValveUsageState;
use serde_json::Value;

fn scalar(number: f64) -> Scalar {
    Scalar { bits: number.to_bits() }
}

fn resource(text: &str) -> JsonApiResource {
    let value: Value = serde_json::from_str(text).expect("resource should be JSON");
    JsonApiResource {
        id: value["id"].as_str().expect("id").to_string(),
        kind: value["type"].as_str().expect("type").to_string(),
        attributes: value.get("attributes").cloned(),
        relationships: value.get("relationships").cloned(),
    }
}

fn garden() -> ExporterState {
    let mut state = ExporterState::default();
    let mut rates = OrderedMap::new();
    rates.insert("valve-2".to_string(), scalar(1.5));
    let texts = [
        r#"{ "id": "location-1", "type": "LOCATION", "attributes": { "name": "Terrace" } }"#,
        r#"{
            "id": "common-1", "type": "COMMON",
            "attributes": {
                "name": { "value": "Water Control" },
                "batteryLevel": { "value": 55, "timestamp": "1970-01-01T00:00:10Z" },
                "batteryState": { "value": "OK" },
                "rfLinkLevel": { "value": 70 },
                "rfLinkState": { "value": "ONLINE" },
                "modelType": { "value": "smart Irrigation" },
                "serial": { "value": "S1" }
            },
            "relationships": { "device": { "data": { "id": "device-1" } } }
        }"#,
        r#"{
            "id": "valve-1", "type": "VALVE",
            "attributes": {
                "name": { "value": "Lawn" },
                "activity": { "value": "MANUAL_WATERING", "timestamp": "1970-01-01T00:01:00Z" },
                "state": { "value": "OK", "timestamp": "1970-01-01T00:00:30Z" },
                "duration": { "value": 600 }
            },
            "relationships": { "device": { "data": { "id": "device-1" } } }
        }"#,
        r#"{
            "id": "valve-2", "type": "VALVE",
            "attributes": {
                "activity": { "value": "CLOSED" },
                "lastErrorCode": { "value": "NO_MESSAGE" }
            },
            "relationships": { "device": { "data": { "id": "device-1" } } }
        }"#,
        r#"{
            "id": "set-1", "type": "VALVE_SET",
            "attributes": { "state": { "value": "OK", "timestamp": "1970-01-01T00:00:20Z" } },
            "relationships": { "device": { "data": { "id": "device-1" } } }
        }"#,
        r#"{
            "id": "sensor-1", "type": "SENSOR",
            "attributes": { "soilHumidity": { "value": 44, "timestamp": "1970-01-01T00:00:40Z" } },
            "relationships": { "device": { "data": { "id": "device-2" } } }
        }"#,
    ];
    for text in texts {
        state.apply_resource_at(&resource(text), Some(scalar(3.5)), &rates, 0);
    }
    state
}

fn labels<'a>(sample: &'a Sample) -> Vec<&'a str> {
    sample.labels.iter().map(String::as_str).collect()
}

fn of_family(samples: &[Sample], family: Family) -> Vec<&Sample> {
    samples.iter().filter(|sample| sample.family == family).collect()
}

#[test]
fn a_fresh_exporter_shows_itself_only() {
    let samples = render_metrics(&ExporterState::default(), "0.1.0");
    let families: Vec<Family> = samples.iter().map(|sample| sample.family).collect();
    assert_eq!(
        families,
        vec![
            Family::ExporterConnected,
            Family::LastEventTimestamp,
            Family::LastSnapshotTimestamp,
            Family::LastSuccessfulSyncTimestamp,
            Family::WebsocketReconnects,
            Family::TokenRefreshes,
            Family::SnapshotRefreshes,
            Family::ExporterInfo,
            Family::Water,
            Family::CurrentFlow,
        ]
    );
    assert_eq!(labels(&samples[7]), vec!["0.1.0", "", ""]);
    assert!(matches!(samples[0].value, SampleValue::Flag(false)));
    for sample in &samples[1..4] {
        assert!(matches!(sample.value, SampleValue::Timestamp(0)));
    }
    for family in Family::all() {
        if family.labels().is_empty() {
            assert_eq!(of_family(&samples, family).len(), 1);
        }
    }
}

#[test]
fn the_exporter_shows_how_it_fares() {
    let mut state = garden();
    state.connected = true;
    state.last_event_timestamp = Some(5_000);
    state.last_snapshot_timestamp = Some(4_000);
    state.last_successful_sync_timestamp = Some(5_000);
    state.token_refreshes_total = 3;
    state.websocket_reconnects_total = 2;
    state.snapshot_refreshes_total = 1;
    let samples = render_metrics_at(&state, "0.1.0", 120_000);
    let one = |family: Family| of_family(&samples, family)[0];
    assert!(matches!(one(Family::ExporterConnected).value, SampleValue::Flag(true)));
    assert!(matches!(one(Family::LastEventTimestamp).value, SampleValue::Timestamp(5_000)));
    assert!(matches!(one(Family::LastSnapshotTimestamp).value, SampleValue::Timestamp(4_000)));
    assert!(matches!(
        one(Family::LastSuccessfulSyncTimestamp).value,
        SampleValue::Timestamp(5_000)
    ));
    assert!(matches!(one(Family::TokenRefreshes).value, SampleValue::Count(3)));
    assert!(matches!(one(Family::WebsocketReconnects).value, SampleValue::Count(2)));
    assert!(matches!(one(Family::SnapshotRefreshes).value, SampleValue::Count(1)));
    assert_eq!(labels(one(Family::ExporterInfo)), vec!["0.1.0", "location-1", "Terrace"]);
}

#[test]
fn devices_and_sensors_are_labelled() {
    let samples = render_metrics_at(&garden(), "0.1.0", 120_000);
    let info = of_family(&samples, Family::DeviceInfo);
    assert_eq!(info.len(), 1);
    assert_eq!(
        labels(info[0]),
        vec!["Terrace", "device-1", "Water Control", "smart Irrigation", "S1", "OK", "ONLINE"]
    );
    assert!(of_family(&samples, Family::SensorInfo).is_empty());
    let battery = of_family(&samples, Family::BatteryLevel);
    assert_eq!(
        labels(battery[0]),
        vec!["Terrace", "device-1", "Water Control", "smart Irrigation"]
    );
    assert!(matches!(
        battery[0].value,
        SampleValue::Reading(level) if f64::from_bits(level.bits) == 55.0
    ));
    assert!(of_family(&samples, Family::RfLinkLevelTimestamp).is_empty());
    let humidity = of_family(&samples, Family::SoilHumidity);
    assert_eq!(labels(humidity[0]), vec!["Terrace", "device-2", "device-2", ""]);
    let moment = of_family(&samples, Family::SoilHumidityTimestamp);
    assert!(matches!(moment[0].value, SampleValue::Timestamp(40_000)));
    assert!(of_family(&samples, Family::LightIntensity).is_empty());
}

#[test]
fn a_sensor_with_a_name_is_described() {
    let mut state = garden();
    let common = resource(
        r#"{
            "id": "common-2", "type": "COMMON",
            "attributes": { "name": { "value": "Bed" } },
            "relationships": { "device": { "data": { "id": "device-2" } } }
        }"#,
    );
    state.apply_resource(&common, None, &OrderedMap::new());
    let samples = render_metrics_at(&state, "0.1.0", 120_000);
    let info = of_family(&samples, Family::SensorInfo);
    assert_eq!(labels(info[0]), vec!["Terrace", "device-2", "Bed", "", "", "", ""]);
}

#[test]
fn valves_show_their_use() {
    let samples = render_metrics_at(&garden(), "0.1.0", 120_000);
    let info = of_family(&samples, Family::ValveInfo);
    assert_eq!(
        labels(info[0]),
        vec![
            "Terrace",
            "device-1",
            "Water Control",
            "valve-1",
            "Lawn",
            "OK",
            "MANUAL_WATERING",
            "",
        ]
    );
    assert_eq!(
        labels(info[1]),
        vec![
            "Terrace",
            "device-1",
            "Water Control",
            "valve-2",
            "valve-2",
            "",
            "CLOSED",
            "NO_MESSAGE",
        ]
    );
    let open = of_family(&samples, Family::ValveOpen);
    assert!(matches!(open[0].value, SampleValue::Flag(true)));
    assert!(matches!(open[1].value, SampleValue::Flag(false)));
    let spans = of_family(&samples, Family::ValveOpenTime);
    assert!(matches!(spans[0].value, SampleValue::Span(60_000)));
    assert!(matches!(spans[1].value, SampleValue::Span(0)));
    let flows = of_family(&samples, Family::ValveFlow);
    assert!(matches!(flows[0].value, SampleValue::Flow(Some(rate)) if rate == scalar(3.5)));
    assert!(matches!(flows[1].value, SampleValue::Flow(Some(rate)) if rate == scalar(1.5)));
    let current = of_family(&samples, Family::ValveCurrentFlow);
    assert!(matches!(current[0].value, SampleValue::Flow(Some(rate)) if rate == scalar(3.5)));
    assert!(matches!(current[1].value, SampleValue::Flow(None)));
    let duration = of_family(&samples, Family::ValveDuration);
    assert_eq!(duration.len(), 1);
    let set = of_family(&samples, Family::ValveSetInfo);
    assert_eq!(
        labels(set[0]),
        vec!["Terrace", "device-1", "Water Control", "set-1", "OK", ""]
    );
}

#[test]
fn the_totals_are_sums_over_the_valves() {
    let samples = render_metrics_at(&garden(), "0.1.0", 120_000);
    let water = of_family(&samples, Family::Water);
    match &water[0].value {
        SampleValue::Volume(metered) => {
            let liters: f64 = metered
                .iter()
                .map(|time| time.open_millis as f64 / 60_000.0 * f64::from_bits(time.flow.bits))
                .sum();
            assert!((liters - 3.5).abs() < 1e-9);
        }
        _ => panic!("a volume was expected"),
    }
    let flow = of_family(&samples, Family::CurrentFlow);
    assert!(matches!(&flow[0].value, SampleValue::FlowSum(rates) if rates == &vec![scalar(3.5)]));
}

fn garden_liters(state: &ExporterState, now: i64) -> f64 {
    let samples = render_metrics_at(state, "0.1.0", now);
    match &of_family(&samples, Family::Water)[0].value {
        SampleValue::Volume(metered) => metered
            .iter()
            .map(|time| time.open_millis as f64 / 60_000.0 * f64::from_bits(time.flow.bits))
            .sum(),
        _ => panic!("a volume was expected"),
    }
}

#[test]
fn the_total_volume_outlives_the_valve() {
    let mut state = ExporterState::default();
    let mut usage = ValveUsageState::default();
    usage.report(true, 0, Some(scalar(1.2)));
    usage.report(false, 900_000, Some(scalar(1.2)));
    state.valve_usage.insert("valve-1".to_string(), usage);
    assert!((garden_liters(&state, 2_000_000) - 18.0).abs() < 1e-9);

    let mut state = garden();
    assert!((garden_liters(&state, 120_000) - 3.5).abs() < 1e-9);
    state.devices.clear();
    assert!((garden_liters(&state, 120_000) - 3.5).abs() < 1e-9);
    let samples = render_metrics_at(&state, "0.1.0", 120_000);
    assert!(of_family(&samples, Family::ValveWater).is_empty());
}

#[test]
fn the_total_volume_grows_with_time() {
    let state = garden();
    assert!(garden_liters(&state, 90_000) < garden_liters(&state, 120_000));
    assert_eq!(garden_liters(&state, 0), 0.0);
}

#[test]
fn a_clone_shows_the_same() {
    let state = garden();
    let copy = state.clone();
    let shown = format!("{:?}", render_metrics_at(&state, "0.1.0", 120_000));
    assert_eq!(format!("{:?}", render_metrics_at(&copy, "0.1.0", 120_000)), shown);
    assert_eq!(format!("{copy:?}"), format!("{state:?}"));
}

#[test]
fn a_valve_in_two_devices_counts_once_for_the_garden() {
    let mut state = garden();
    let moved = resource(
        r#"{
            "id": "valve-1", "type": "VALVE",
            "attributes": { "activity": { "value": "MANUAL_WATERING" } },
            "relationships": { "device": { "data": { "id": "device-2" } } }
        }"#,
    );
    state.apply_resource_at(&moved, Some(scalar(3.5)), &OrderedMap::new(), 60_000);
    let samples = render_metrics_at(&state, "0.1.0", 120_000);
    assert_eq!(of_family(&samples, Family::ValveWater).len(), 3);
    assert!((garden_liters(&state, 120_000) - 3.5).abs() < 1e-9);
}

#[test]
fn a_valve_without_activity_is_not_open() {
    let mut state = ExporterState::default();
    let valve = resource(
        r#"{
            "id": "valve-1", "type": "VALVE",
            "relationships": { "device": { "data": { "id": "device-1" } } }
        }"#,
    );
    state.apply_resource(&valve, Some(scalar(3.5)), &OrderedMap::new());
    let samples = render_metrics(&state, "0.1.0");
    let open = of_family(&samples, Family::ValveOpen);
    assert_eq!(labels(open[0]), vec!["unknown", "device-1", "device-1", "valve-1", "valve-1"]);
    assert!(matches!(open[0].value, SampleValue::Flag(false)));
}

#[test]
fn the_location_is_called_by_name_or_identifier() {
    let mut state = ExporterState::default();
    assert_eq!(location_name_or_id(&state), "unknown");
    state.location_id = Some("location-1".to_string());
    assert_eq!(location_name_or_id(&state), "location-1");
    state.location_name = Some("Terrace".to_string());
    assert_eq!(location_name_or_id(&state), "Terrace");
}

#[test]
fn every_sample_fits_its_family_and_is_unique() {
    let samples = render_metrics_at(&garden(), "0.1.0", 120_000);
    for (i, sample) in samples.iter().enumerate() {
        assert_eq!(sample.labels.len(), sample.family.labels().len());
        for other in &samples[i + 1..] {
            assert!(sample.family != other.family || sample.labels != other.labels);
        }
    }
}

#[test]
fn families_are_registered_under_different_names() {
    let families = Family::all();
    assert_eq!(families.len(), 35);
    for (i, family) in families.iter().enumerate() {
        assert!(!family.help().is_empty());
        for other in &families[i + 1..] {
            assert_ne!(family.name(), other.name());
        }
    }
    assert_eq!(Family::ValveOpenTime.name(), "gardena_valve_estimated_open_seconds_total");
    assert_eq!(Family::ValveOpenTime.kind(), MetricKind::Counter);
    assert_eq!(Family::ExporterConnected.kind(), MetricKind::IntGauge);
    assert_eq!(Family::TokenRefreshes.kind(), MetricKind::IntCounter);
    assert_eq!(Family::SoilHumidity.kind(), MetricKind::Gauge);
    assert_eq!(
        Family::ValveSetStateTimestamp.labels(),
        vec!["location", "device_id", "controller_name", "service_id"]
    );
}
