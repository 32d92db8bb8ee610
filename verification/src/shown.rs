//! What each family shows, by its exported name: which samples it has, under which labels and
//! with which values, and that it has no others.
use crate::family::{Family, MetricKind};
use crate::json::Scalar;
use vstd::prelude::*;

verus! {

use crate::device::{CommonView, DeviceView, SensorView, ValveSetView, ValveView};
use crate::exposition::{known_devices_are_shown, services_are_shown};
use crate::family::family_names_differ;
use crate::intake::{services_go_to_their_device, valve_properties_are_read};
use crate::json::{nested_text_at, related_id};
use crate::metrics::{
    all_samples, common_samples, device_info_labels, device_labels, device_samples, devices_flow,
    devices_samples, exporter_samples, moment, moment_or_zero, one, or_empty, reading,
    sensor_samples, usage_water,
    valve_info_labels, valve_labels, valve_samples, valve_set_info_labels, valve_set_labels,
    valve_set_samples, valve_sets_samples, valves_samples, SampleView, ValueView,
};
use crate::ordered::{key_order, key_order_of_finite};
use crate::state::{resource_keeps_consistency, FlowView, ResourceView, StateView};

/// A text where it is known, and otherwise another.
pub open spec fn known_or(text: Option<Seq<char>>, other: Seq<char>) -> Seq<char> {
    match text {
        Some(known) => known,
        None => other,
    }
}

/// A reading as it is shown, if there is one.
pub open spec fn shown_reading(reading: Option<Scalar>) -> Option<ValueView> {
    match reading {
        Some(number) => Some(ValueView::Reading(number)),
        None => None,
    }
}

/// A moment as it is shown, if it is known.
pub open spec fn shown_moment(moment: Option<i64>) -> Option<ValueView> {
    match moment {
        Some(millis) => Some(ValueView::Timestamp(millis)),
        None => None,
    }
}

/// Whether the family of this name shows one value under these labels, and nothing else.
pub open spec fn shows_once(
    samples: Seq<SampleView>,
    name: Seq<char>,
    labels: Seq<Seq<char>>,
    value: ValueView,
) -> bool {
    forall|s: SampleView|
        s.family.spec_name() == name ==> (#[trigger] samples.contains(s) <==> s.labels == labels
            && s.value == value)
}

/// Whether the family of this name shows of every known device the value that there is to show,
/// under the labels that go with the identifier and the device, and nothing else.
pub open spec fn shows_of_devices(
    state: StateView,
    samples: Seq<SampleView>,
    name: Seq<char>,
    labels: spec_fn(Seq<char>, DeviceView) -> Seq<Seq<char>>,
    value: spec_fn(DeviceView) -> Option<ValueView>,
) -> bool {
    forall|s: SampleView|
        s.family.spec_name() == name ==> (#[trigger] samples.contains(s) <==> exists|id: Seq<char>|
            #[trigger] state.devices.contains_key(id) && s.labels == labels(id, state.devices[id])
                && value(state.devices[id]) == Some(s.value))
}

/// Whether the family of this name shows of every valve of every known device the value that
/// there is to show, under the labels that go with both, and nothing else.
pub open spec fn shows_of_valves(
    state: StateView,
    samples: Seq<SampleView>,
    name: Seq<char>,
    labels: spec_fn(Seq<char>, DeviceView, Seq<char>, ValveView) -> Seq<Seq<char>>,
    value: spec_fn(Seq<char>, ValveView) -> Option<ValueView>,
) -> bool {
    forall|s: SampleView|
        s.family.spec_name() == name ==> (#[trigger] samples.contains(s) <==> exists|
            id: Seq<char>,
            valve_id: Seq<char>,
        |
            state.devices.contains_key(id) && #[trigger] state.devices[id].valves.contains_key(
                valve_id,
            ) && s.labels == labels(
                id,
                state.devices[id],
                valve_id,
                state.devices[id].valves[valve_id],
            ) && value(valve_id, state.devices[id].valves[valve_id]) == Some(s.value))
}

/// Whether the family of this name shows of every valve set of every known device the value that
/// there is to show, under the labels that go with both, and nothing else.
pub open spec fn shows_of_valve_sets(
    state: StateView,
    samples: Seq<SampleView>,
    name: Seq<char>,
    labels: spec_fn(Seq<char>, DeviceView, Seq<char>, ValveSetView) -> Seq<Seq<char>>,
    value: spec_fn(ValveSetView) -> Option<ValueView>,
) -> bool {
    forall|s: SampleView|
        s.family.spec_name() == name ==> (#[trigger] samples.contains(s) <==> exists|
            id: Seq<char>,
            set_id: Seq<char>,
        |
            state.devices.contains_key(id) && #[trigger] state.devices[id].valve_sets.contains_key(
                set_id,
            ) && s.labels == labels(
                id,
                state.devices[id],
                set_id,
                state.devices[id].valve_sets[set_id],
            ) && value(state.devices[id].valve_sets[set_id]) == Some(s.value))
}

proof fn lemma_in_joined(s: SampleView, a: Seq<SampleView>, b: Seq<SampleView>)
    ensures
        (a + b).contains(s) <==> a.contains(s) || b.contains(s),
{
    let whole = a + b;
    if a.contains(s) {
        let i = choose|i: int| 0 <= i < a.len() && a[i] == s;
        assert(whole[i] == s);
    }
    if b.contains(s) {
        let i = choose|i: int| 0 <= i < b.len() && b[i] == s;
        assert(whole[a.len() + i] == s);
    }
    if whole.contains(s) {
        let i = choose|i: int| 0 <= i < whole.len() && whole[i] == s;
        if i < a.len() {
            assert(a[i] == s);
        } else {
            assert(b[i - a.len()] == s);
        }
    }
}

proof fn lemma_in_one(s: SampleView, family: Family, labels: Seq<Seq<char>>, value: ValueView)
    ensures
        one(family, labels, value).contains(s) <==> s == (SampleView { family, labels, value }),
{
    assert(one(family, labels, value)[0] == (SampleView { family, labels, value }));
}

proof fn lemma_in_reading(
    s: SampleView,
    family: Family,
    labels: Seq<Seq<char>>,
    value: Option<Scalar>,
)
    ensures
        reading(family, labels, value).contains(s) <==> s.family == family && s.labels == labels
            && shown_reading(value) == Some(s.value),
{
    if let Some(number) = value {
        lemma_in_one(s, family, labels, ValueView::Reading(number));
    }
}

proof fn lemma_in_moment(
    s: SampleView,
    family: Family,
    labels: Seq<Seq<char>>,
    value: Option<i64>,
)
    ensures
        moment(family, labels, value).contains(s) <==> s.family == family && s.labels == labels
            && shown_moment(value) == Some(s.value),
{
    if let Some(millis) = value {
        lemma_in_one(s, family, labels, ValueView::Timestamp(millis));
    }
}

/// The labels of a sample about the exporter.
spec fn exporter_labels(family: Family, state: StateView, version: Seq<char>) -> Seq<Seq<char>> {
    if family == Family::ExporterInfo {
        seq![version, or_empty(state.location_id), or_empty(state.location_name)]
    } else {
        Seq::empty()
    }
}

/// The labels of a sample of the common service.
spec fn common_labels(family: Family, state: StateView, device: DeviceView) -> Seq<Seq<char>> {
    if family == Family::DeviceInfo || family == Family::SensorInfo {
        device_info_labels(state, device)
    } else {
        device_labels(state, device)
    }
}

/// The labels of a sample of a valve.
spec fn labels_of_valve(
    family: Family,
    state: StateView,
    device: DeviceView,
    valve: ValveView,
) -> Seq<Seq<char>> {
    if family == Family::ValveInfo {
        valve_info_labels(state, device, valve)
    } else {
        valve_labels(state, device, valve)
    }
}

/// The labels of a sample of a valve set.
spec fn labels_of_valve_set(
    family: Family,
    state: StateView,
    device: DeviceView,
    set: ValveSetView,
) -> Seq<Seq<char>> {
    if family == Family::ValveSetInfo {
        valve_set_info_labels(state, device, set)
    } else {
        valve_set_labels(state, device, set)
    }
}

/// The value that a family shows of the exporter.
spec fn exporter_value(family: Family, state: StateView) -> Option<ValueView> {
    match family {
        Family::ExporterConnected => Some(ValueView::Flag(state.connected)),
        Family::LastEventTimestamp => Some(
            ValueView::Timestamp(
                match state.last_event_timestamp {
                    Some(millis) => millis,
                    None => 0,
                },
            ),
        ),
        Family::LastSnapshotTimestamp => Some(
            ValueView::Timestamp(
                match state.last_snapshot_timestamp {
                    Some(millis) => millis,
                    None => 0,
                },
            ),
        ),
        Family::LastSuccessfulSyncTimestamp => Some(
            ValueView::Timestamp(
                match state.last_successful_sync_timestamp {
                    Some(millis) => millis,
                    None => 0,
                },
            ),
        ),
        Family::WebsocketReconnects => Some(ValueView::Count(state.websocket_reconnects_total)),
        Family::TokenRefreshes => Some(ValueView::Count(state.token_refreshes_total)),
        Family::SnapshotRefreshes => Some(ValueView::Count(state.snapshot_refreshes_total)),
        Family::ExporterInfo => Some(ValueView::Flag(true)),
        _ => None,
    }
}

proof fn lemma_in_exporter(state: StateView, version: Seq<char>, s: SampleView)
    ensures
        exporter_samples(state, version).contains(s) <==> {
            &&& s.labels == exporter_labels(s.family, state, version)
            &&& exporter_value(s.family, state) == Some(s.value)
        },
{
    let labels = Seq::<Seq<char>>::empty();
    let info = seq![version, or_empty(state.location_id), or_empty(state.location_name)];
    let a = one(Family::ExporterConnected, labels, ValueView::Flag(state.connected));
    lemma_in_one(s, Family::ExporterConnected, labels, ValueView::Flag(state.connected));
    let b = moment_or_zero(Family::LastEventTimestamp, labels, state.last_event_timestamp);
    let b_value = ValueView::Timestamp(
        match state.last_event_timestamp {
            Some(millis) => millis,
            None => 0,
        },
    );
    lemma_in_one(s, Family::LastEventTimestamp, labels, b_value);
    lemma_in_joined(s, a, b);
    let c = moment_or_zero(
        Family::LastSnapshotTimestamp,
        labels,
        state.last_snapshot_timestamp,
    );
    let c_value = ValueView::Timestamp(
        match state.last_snapshot_timestamp {
            Some(millis) => millis,
            None => 0,
        },
    );
    lemma_in_one(s, Family::LastSnapshotTimestamp, labels, c_value);
    lemma_in_joined(s, a + b, c);
    let d = moment_or_zero(
        Family::LastSuccessfulSyncTimestamp,
        labels,
        state.last_successful_sync_timestamp,
    );
    let d_value = ValueView::Timestamp(
        match state.last_successful_sync_timestamp {
            Some(millis) => millis,
            None => 0,
        },
    );
    lemma_in_one(s, Family::LastSuccessfulSyncTimestamp, labels, d_value);
    lemma_in_joined(s, a + b + c, d);
    let e = one(
        Family::WebsocketReconnects,
        labels,
        ValueView::Count(state.websocket_reconnects_total),
    );
    lemma_in_one(
        s,
        Family::WebsocketReconnects,
        labels,
        ValueView::Count(state.websocket_reconnects_total),
    );
    lemma_in_joined(s, a + b + c + d, e);
    let f = one(Family::TokenRefreshes, labels, ValueView::Count(state.token_refreshes_total));
    lemma_in_one(s, Family::TokenRefreshes, labels, ValueView::Count(state.token_refreshes_total));
    lemma_in_joined(s, a + b + c + d + e, f);
    let g = one(
        Family::SnapshotRefreshes,
        labels,
        ValueView::Count(state.snapshot_refreshes_total),
    );
    lemma_in_one(
        s,
        Family::SnapshotRefreshes,
        labels,
        ValueView::Count(state.snapshot_refreshes_total),
    );
    lemma_in_joined(s, a + b + c + d + e + f, g);
    let h = one(Family::ExporterInfo, info, ValueView::Flag(true));
    lemma_in_one(s, Family::ExporterInfo, info, ValueView::Flag(true));
    lemma_in_joined(s, a + b + c + d + e + f + g, h);
}

/// The value that a family shows of a device with a common service.
spec fn common_value(family: Family, device: DeviceView, service: CommonView) -> Option<ValueView> {
    match family {
        Family::DeviceInfo => Some(ValueView::Flag(true)),
        Family::SensorInfo => if device.sensor is Some {
            Some(ValueView::Flag(true))
        } else {
            None
        },
        Family::BatteryLevel => shown_reading(service.battery_level),
        Family::BatteryLevelTimestamp => shown_moment(service.battery_level_timestamp),
        Family::RfLinkLevel => shown_reading(service.rf_link_level),
        Family::RfLinkLevelTimestamp => shown_moment(service.rf_link_level_timestamp),
        _ => None,
    }
}

proof fn lemma_in_common(
    state: StateView,
    device: DeviceView,
    service: CommonView,
    s: SampleView,
)
    ensures
        common_samples(state, device, service).contains(s) <==> {
            &&& s.labels == common_labels(s.family, state, device)
            &&& common_value(s.family, device, service) == Some(s.value)
        },
{
    let info = device_info_labels(state, device);
    let labels = device_labels(state, device);
    let a = one(Family::DeviceInfo, info, ValueView::Flag(true));
    lemma_in_one(s, Family::DeviceInfo, info, ValueView::Flag(true));
    let b = if device.sensor is Some {
        one(Family::SensorInfo, info, ValueView::Flag(true))
    } else {
        Seq::empty()
    };
    lemma_in_one(s, Family::SensorInfo, info, ValueView::Flag(true));
    lemma_in_joined(s, a, b);
    let c = reading(Family::BatteryLevel, labels, service.battery_level);
    lemma_in_reading(s, Family::BatteryLevel, labels, service.battery_level);
    lemma_in_joined(s, a + b, c);
    let d = moment(Family::BatteryLevelTimestamp, labels, service.battery_level_timestamp);
    lemma_in_moment(s, Family::BatteryLevelTimestamp, labels, service.battery_level_timestamp);
    lemma_in_joined(s, a + b + c, d);
    let e = reading(Family::RfLinkLevel, labels, service.rf_link_level);
    lemma_in_reading(s, Family::RfLinkLevel, labels, service.rf_link_level);
    lemma_in_joined(s, a + b + c + d, e);
    let f = moment(Family::RfLinkLevelTimestamp, labels, service.rf_link_level_timestamp);
    lemma_in_moment(s, Family::RfLinkLevelTimestamp, labels, service.rf_link_level_timestamp);
    lemma_in_joined(s, a + b + c + d + e, f);
}

/// The value that a family shows of a sensor.
spec fn sensor_value(family: Family, service: SensorView) -> Option<ValueView> {
    match family {
        Family::SoilHumidity => shown_reading(service.soil_humidity),
        Family::SoilHumidityTimestamp => shown_moment(service.soil_humidity_timestamp),
        Family::SoilTemperature => shown_reading(service.soil_temperature),
        Family::SoilTemperatureTimestamp => shown_moment(service.soil_temperature_timestamp),
        Family::AmbientTemperature => shown_reading(service.ambient_temperature),
        Family::AmbientTemperatureTimestamp => shown_moment(service.ambient_temperature_timestamp),
        Family::LightIntensity => shown_reading(service.light_intensity),
        Family::LightIntensityTimestamp => shown_moment(service.light_intensity_timestamp),
        _ => None,
    }
}

proof fn lemma_in_sensor(
    state: StateView,
    device: DeviceView,
    service: SensorView,
    s: SampleView,
)
    ensures
        sensor_samples(state, device, service).contains(s) <==> {
            &&& s.labels == device_labels(state, device)
            &&& sensor_value(s.family, service) == Some(s.value)
        },
{
    let labels = device_labels(state, device);
    let a = reading(Family::SoilHumidity, labels, service.soil_humidity);
    lemma_in_reading(s, Family::SoilHumidity, labels, service.soil_humidity);
    let b = moment(Family::SoilHumidityTimestamp, labels, service.soil_humidity_timestamp);
    lemma_in_moment(s, Family::SoilHumidityTimestamp, labels, service.soil_humidity_timestamp);
    lemma_in_joined(s, a, b);
    let c = reading(Family::SoilTemperature, labels, service.soil_temperature);
    lemma_in_reading(s, Family::SoilTemperature, labels, service.soil_temperature);
    lemma_in_joined(s, a + b, c);
    let d = moment(Family::SoilTemperatureTimestamp, labels, service.soil_temperature_timestamp);
    lemma_in_moment(
        s,
        Family::SoilTemperatureTimestamp,
        labels,
        service.soil_temperature_timestamp,
    );
    lemma_in_joined(s, a + b + c, d);
    let e = reading(Family::AmbientTemperature, labels, service.ambient_temperature);
    lemma_in_reading(s, Family::AmbientTemperature, labels, service.ambient_temperature);
    lemma_in_joined(s, a + b + c + d, e);
    let f = moment(
        Family::AmbientTemperatureTimestamp,
        labels,
        service.ambient_temperature_timestamp,
    );
    lemma_in_moment(
        s,
        Family::AmbientTemperatureTimestamp,
        labels,
        service.ambient_temperature_timestamp,
    );
    lemma_in_joined(s, a + b + c + d + e, f);
    let g = reading(Family::LightIntensity, labels, service.light_intensity);
    lemma_in_reading(s, Family::LightIntensity, labels, service.light_intensity);
    lemma_in_joined(s, a + b + c + d + e + f, g);
    let h = moment(Family::LightIntensityTimestamp, labels, service.light_intensity_timestamp);
    lemma_in_moment(s, Family::LightIntensityTimestamp, labels, service.light_intensity_timestamp);
    lemma_in_joined(s, a + b + c + d + e + f + g, h);
}

/// The value that a family shows of a valve.
spec fn valve_value(
    family: Family,
    state: StateView,
    valve: ValveView,
    now: i64,
) -> Option<ValueView> {
    match family {
        Family::ValveInfo => Some(ValueView::Flag(true)),
        Family::ValveOpen => Some(
            ValueView::Flag(valve.activity is Some && valve.activity != Some("CLOSED"@)),
        ),
        Family::ValveOpenTime => Some(ValueView::Span(state.totals(valve.id, now).open_millis)),
        Family::ValveFlow => Some(
            ValueView::Flow(state.totals(valve.id, now).flow_liters_per_minute),
        ),
        Family::ValveCurrentFlow => Some(
            ValueView::Flow(state.totals(valve.id, now).current_flow_liters_per_minute),
        ),
        Family::ValveWater => Some(ValueView::Volume(state.totals(valve.id, now).metered)),
        Family::ValveDuration => shown_reading(valve.duration_seconds),
        Family::ValveActivityTimestamp => shown_moment(valve.activity_timestamp),
        Family::ValveStateTimestamp => shown_moment(valve.state_timestamp),
        _ => None,
    }
}

proof fn lemma_in_valve(
    state: StateView,
    device: DeviceView,
    valve: ValveView,
    now: i64,
    s: SampleView,
)
    ensures
        valve_samples(state, device, valve, now).contains(s) <==> {
            &&& s.labels == labels_of_valve(s.family, state, device, valve)
            &&& valve_value(s.family, state, valve, now) == Some(s.value)
        },
{
    let info = valve_info_labels(state, device, valve);
    let labels = valve_labels(state, device, valve);
    let a = one(Family::ValveInfo, info, ValueView::Flag(true));
    lemma_in_one(s, Family::ValveInfo, info, ValueView::Flag(true));
    let b = one(
        Family::ValveOpen,
        labels,
        ValueView::Flag(valve.activity is Some && valve.activity != Some("CLOSED"@)),
    );
    lemma_in_one(
        s,
        Family::ValveOpen,
        labels,
        ValueView::Flag(valve.activity is Some && valve.activity != Some("CLOSED"@)),
    );
    lemma_in_joined(s, a, b);
    let c = one(
        Family::ValveOpenTime,
        labels,
        ValueView::Span(state.totals(valve.id, now).open_millis),
    );
    lemma_in_one(
        s,
        Family::ValveOpenTime,
        labels,
        ValueView::Span(state.totals(valve.id, now).open_millis),
    );
    lemma_in_joined(s, a + b, c);
    let d = one(
        Family::ValveFlow,
        labels,
        ValueView::Flow(state.totals(valve.id, now).flow_liters_per_minute),
    );
    lemma_in_one(
        s,
        Family::ValveFlow,
        labels,
        ValueView::Flow(state.totals(valve.id, now).flow_liters_per_minute),
    );
    lemma_in_joined(s, a + b + c, d);
    let e = one(
        Family::ValveCurrentFlow,
        labels,
        ValueView::Flow(state.totals(valve.id, now).current_flow_liters_per_minute),
    );
    lemma_in_one(
        s,
        Family::ValveCurrentFlow,
        labels,
        ValueView::Flow(state.totals(valve.id, now).current_flow_liters_per_minute),
    );
    lemma_in_joined(s, a + b + c + d, e);
    let f = one(
        Family::ValveWater,
        labels,
        ValueView::Volume(state.totals(valve.id, now).metered),
    );
    lemma_in_one(
        s,
        Family::ValveWater,
        labels,
        ValueView::Volume(state.totals(valve.id, now).metered),
    );
    lemma_in_joined(s, a + b + c + d + e, f);
    let g = reading(Family::ValveDuration, labels, valve.duration_seconds);
    lemma_in_reading(s, Family::ValveDuration, labels, valve.duration_seconds);
    lemma_in_joined(s, a + b + c + d + e + f, g);
    let h = moment(Family::ValveActivityTimestamp, labels, valve.activity_timestamp);
    lemma_in_moment(s, Family::ValveActivityTimestamp, labels, valve.activity_timestamp);
    lemma_in_joined(s, a + b + c + d + e + f + g, h);
    let i = moment(Family::ValveStateTimestamp, labels, valve.state_timestamp);
    lemma_in_moment(s, Family::ValveStateTimestamp, labels, valve.state_timestamp);
    lemma_in_joined(s, a + b + c + d + e + f + g + h, i);
}

/// The value that a family shows of a valve set.
spec fn valve_set_value(family: Family, set: ValveSetView) -> Option<ValueView> {
    match family {
        Family::ValveSetInfo => Some(ValueView::Flag(true)),
        Family::ValveSetStateTimestamp => shown_moment(set.state_timestamp),
        _ => None,
    }
}

proof fn lemma_in_valve_set(
    state: StateView,
    device: DeviceView,
    set: ValveSetView,
    s: SampleView,
)
    ensures
        valve_set_samples(state, device, set).contains(s) <==> {
            &&& s.labels == labels_of_valve_set(s.family, state, device, set)
            &&& valve_set_value(s.family, set) == Some(s.value)
        },
{
    let info = valve_set_info_labels(state, device, set);
    let labels = valve_set_labels(state, device, set);
    let a = one(Family::ValveSetInfo, info, ValueView::Flag(true));
    lemma_in_one(s, Family::ValveSetInfo, info, ValueView::Flag(true));
    let b = moment(Family::ValveSetStateTimestamp, labels, set.state_timestamp);
    lemma_in_moment(s, Family::ValveSetStateTimestamp, labels, set.state_timestamp);
    lemma_in_joined(s, a, b);
}

proof fn lemma_in_valves(
    state: StateView,
    device: DeviceView,
    ids: Seq<Seq<char>>,
    now: i64,
    s: SampleView,
) -> (id: Seq<char>)
    requires
        valves_samples(state, device, ids, now).contains(s),
    ensures
        ids.contains(id),
        valve_samples(state, device, device.valves[id], now).contains(s),
    decreases ids.len(),
{
    if ids.len() == 0 {
        assert(false);
        Seq::empty()
    } else {
        let rest = ids.drop_last();
        lemma_in_joined(
            s,
            valves_samples(state, device, rest, now),
            valve_samples(state, device, device.valves[ids.last()], now),
        );
        if valves_samples(state, device, rest, now).contains(s) {
            let id = lemma_in_valves(state, device, rest, now, s);
            let i = choose|i: int| 0 <= i < rest.len() && rest[i] == id;
            assert(ids[i] == id);
            id
        } else {
            assert(ids[ids.len() - 1] == ids.last());
            ids.last()
        }
    }
}

proof fn lemma_in_valve_sets(
    state: StateView,
    device: DeviceView,
    ids: Seq<Seq<char>>,
    s: SampleView,
) -> (id: Seq<char>)
    requires
        valve_sets_samples(state, device, ids).contains(s),
    ensures
        ids.contains(id),
        valve_set_samples(state, device, device.valve_sets[id]).contains(s),
    decreases ids.len(),
{
    if ids.len() == 0 {
        assert(false);
        Seq::empty()
    } else {
        let rest = ids.drop_last();
        lemma_in_joined(
            s,
            valve_sets_samples(state, device, rest),
            valve_set_samples(state, device, device.valve_sets[ids.last()]),
        );
        if valve_sets_samples(state, device, rest).contains(s) {
            let id = lemma_in_valve_sets(state, device, rest, s);
            let i = choose|i: int| 0 <= i < rest.len() && rest[i] == id;
            assert(ids[i] == id);
            id
        } else {
            assert(ids[ids.len() - 1] == ids.last());
            ids.last()
        }
    }
}

proof fn lemma_in_devices(state: StateView, ids: Seq<Seq<char>>, now: i64, s: SampleView) -> (id:
    Seq<char>)
    requires
        devices_samples(state, ids, now).contains(s),
    ensures
        ids.contains(id),
        device_samples(state, state.devices[id], now).contains(s),
    decreases ids.len(),
{
    if ids.len() == 0 {
        assert(false);
        Seq::empty()
    } else {
        let rest = ids.drop_last();
        lemma_in_joined(
            s,
            devices_samples(state, rest, now),
            device_samples(state, state.devices[ids.last()], now),
        );
        if devices_samples(state, rest, now).contains(s) {
            let id = lemma_in_devices(state, rest, now, s);
            let i = choose|i: int| 0 <= i < rest.len() && rest[i] == id;
            assert(ids[i] == id);
            id
        } else {
            assert(ids[ids.len() - 1] == ids.last());
            ids.last()
        }
    }
}

/// Where a sample of a device can stand.
spec fn in_services(state: StateView, device: DeviceView, now: i64, s: SampleView) -> bool {
    ||| device.common is Some && common_samples(state, device, device.common->0).contains(s)
    ||| device.sensor is Some && sensor_samples(state, device, device.sensor->0).contains(s)
    ||| exists|id: Seq<char>| #[trigger]
        device.valves.contains_key(id) && valve_samples(
            state,
            device,
            device.valves[id],
            now,
        ).contains(s)
    ||| exists|id: Seq<char>| #[trigger]
        device.valve_sets.contains_key(id) && valve_set_samples(
            state,
            device,
            device.valve_sets[id],
        ).contains(s)
}

proof fn lemma_in_device(state: StateView, device: DeviceView, now: i64, s: SampleView)
    requires
        device.consistent(),
    ensures
        device_samples(state, device, now).contains(s) <==> in_services(state, device, now, s),
{
    let common = match device.common {
        Some(service) => common_samples(state, device, service),
        None => Seq::empty(),
    };
    let sensor = match device.sensor {
        Some(service) => sensor_samples(state, device, service),
        None => Seq::empty(),
    };
    let valve_ids = key_order(device.valves.dom());
    let set_ids = key_order(device.valve_sets.dom());
    let valves = valves_samples(state, device, valve_ids, now);
    let sets = valve_sets_samples(state, device, set_ids);
    let samples = device_samples(state, device, now);
    lemma_in_joined(s, common, sensor);
    lemma_in_joined(s, common + sensor, valves);
    lemma_in_joined(s, common + sensor + valves, sets);
    key_order_of_finite(device.valves.dom());
    key_order_of_finite(device.valve_sets.dom());
    assert(!Seq::<SampleView>::empty().contains(s));
    if valves.contains(s) {
        let id = lemma_in_valves(state, device, valve_ids, now, s);
        assert(valve_ids.to_set().contains(id));
        assert(device.valves.contains_key(id));
    }
    if sets.contains(s) {
        let id = lemma_in_valve_sets(state, device, set_ids, s);
        assert(set_ids.to_set().contains(id));
        assert(device.valve_sets.contains_key(id));
    }
    services_are_shown(state, device, now);
    if in_services(state, device, now, s) && !common.contains(s) && !sensor.contains(s) {
        if exists|id: Seq<char>| #[trigger]
            device.valves.contains_key(id) && valve_samples(
                state,
                device,
                device.valves[id],
                now,
            ).contains(s) {
            let id = choose|id: Seq<char>| #[trigger]
                device.valves.contains_key(id) && valve_samples(
                    state,
                    device,
                    device.valves[id],
                    now,
                ).contains(s);
            let part = valve_samples(state, device, device.valves[id], now);
            let k = choose|k: int| 0 <= k < part.len() && part[k] == s;
            assert(samples.contains(part[k]));
        } else {
            let id = choose|id: Seq<char>| #[trigger]
                device.valve_sets.contains_key(id) && valve_set_samples(
                    state,
                    device,
                    device.valve_sets[id],
                ).contains(s);
            let part = valve_set_samples(state, device, device.valve_sets[id]);
            let k = choose|k: int| 0 <= k < part.len() && part[k] == s;
            assert(samples.contains(part[k]));
        }
    }
}

proof fn lemma_in_all(state: StateView, version: Seq<char>, now: i64, s: SampleView)
    requires
        state.consistent(),
    ensures
        all_samples(state, version, now).contains(s) <==> {
            ||| exporter_samples(state, version).contains(s)
            ||| s.family == Family::Water && s.labels == Seq::<Seq<char>>::empty() && s.value
                == ValueView::Volume(usage_water(state, key_order(state.valve_usage.dom()), now))
            ||| s.family == Family::CurrentFlow && s.labels == Seq::<Seq<char>>::empty() && s.value
                == ValueView::FlowSum(devices_flow(state, key_order(state.devices.dom()), now))
            ||| exists|id: Seq<char>| #[trigger]
                state.devices.contains_key(id) && in_services(state, state.devices[id], now, s)
        },
{
    let ids = key_order(state.devices.dom());
    let none = Seq::<Seq<char>>::empty();
    let volume = ValueView::Volume(usage_water(state, key_order(state.valve_usage.dom()), now));
    let sum = ValueView::FlowSum(devices_flow(state, ids, now));
    let exporter = exporter_samples(state, version);
    let devices = devices_samples(state, ids, now);
    let water = one(Family::Water, none, volume);
    let flow = one(Family::CurrentFlow, none, sum);
    lemma_in_joined(s, exporter, devices);
    lemma_in_joined(s, exporter + devices, water);
    lemma_in_joined(s, exporter + devices + water, flow);
    lemma_in_one(s, Family::Water, none, volume);
    lemma_in_one(s, Family::CurrentFlow, none, sum);
    key_order_of_finite(state.devices.dom());
    if devices.contains(s) {
        let id = lemma_in_devices(state, ids, now, s);
        assert(ids.to_set().contains(id));
        assert(state.devices.contains_key(id));
        lemma_in_device(state, state.devices[id], now, s);
    }
    if exists|id: Seq<char>| #[trigger]
        state.devices.contains_key(id) && in_services(state, state.devices[id], now, s) {
        let id = choose|id: Seq<char>| #[trigger]
            state.devices.contains_key(id) && in_services(state, state.devices[id], now, s);
        lemma_in_device(state, state.devices[id], now, s);
        known_devices_are_shown(state, version, now, id);
        let part = device_samples(state, state.devices[id], now);
        let k = choose|k: int| 0 <= k < part.len() && part[k] == s;
        assert(all_samples(state, version, now).contains(part[k]));
    }
}

/// Which samples there are: of the exporter, of the whole garden, and of every service of every
/// known device.
proof fn lemma_shown(state: StateView, version: Seq<char>, now: i64, s: SampleView)
    requires
        state.consistent(),
    ensures
        all_samples(state, version, now).contains(s) <==> {
            ||| s.labels == exporter_labels(s.family, state, version) && exporter_value(
                s.family,
                state,
            ) == Some(s.value)
            ||| s.family == Family::Water && s.labels == Seq::<Seq<char>>::empty() && s.value
                == ValueView::Volume(usage_water(state, key_order(state.valve_usage.dom()), now))
            ||| s.family == Family::CurrentFlow && s.labels == Seq::<Seq<char>>::empty() && s.value
                == ValueView::FlowSum(devices_flow(state, key_order(state.devices.dom()), now))
            ||| exists|id: Seq<char>|
                #[trigger] state.devices.contains_key(id) && common_said(state, id, s)
            ||| exists|id: Seq<char>|
                #[trigger] state.devices.contains_key(id) && sensor_said(state, id, s)
            ||| exists|id: Seq<char>, valve_id: Seq<char>|
                state.devices.contains_key(id)
                    && #[trigger] state.devices[id].valves.contains_key(valve_id) && valve_said(
                    state,
                    id,
                    valve_id,
                    now,
                    s,
                )
            ||| exists|id: Seq<char>, set_id: Seq<char>|
                state.devices.contains_key(id)
                    && #[trigger] state.devices[id].valve_sets.contains_key(set_id)
                    && valve_set_said(state, id, set_id, s)
        },
{
    lemma_in_all(state, version, now, s);
    lemma_in_exporter(state, version, s);
    assert forall|id: Seq<char>| #[trigger] state.devices.contains_key(id) implies (in_services(
        state,
        state.devices[id],
        now,
        s,
    ) <==> {
        ||| common_said(state, id, s)
        ||| sensor_said(state, id, s)
        ||| exists|valve_id: Seq<char>|
            #[trigger] state.devices[id].valves.contains_key(valve_id) && valve_said(
                state,
                id,
                valve_id,
                now,
                s,
            )
        ||| exists|set_id: Seq<char>|
            #[trigger] state.devices[id].valve_sets.contains_key(set_id) && valve_set_said(
                state,
                id,
                set_id,
                s,
            )
    }) by {
        lemma_services_said(state, id, now, s);
    }
}

/// Whether a sample is what the common service of a device has to say.
spec fn common_said(state: StateView, id: Seq<char>, s: SampleView) -> bool {
    let device = state.devices[id];
    device.common is Some && s.labels == common_labels(s.family, state, device) && common_value(
        s.family,
        device,
        device.common->0,
    ) == Some(s.value)
}

/// Whether a sample is what the sensor of a device has to say.
spec fn sensor_said(state: StateView, id: Seq<char>, s: SampleView) -> bool {
    let device = state.devices[id];
    device.sensor is Some && s.labels == device_labels(state, device) && sensor_value(
        s.family,
        device.sensor->0,
    ) == Some(s.value)
}

/// Whether a sample is what a valve of a device has to say.
spec fn valve_said(
    state: StateView,
    id: Seq<char>,
    valve_id: Seq<char>,
    now: i64,
    s: SampleView,
) -> bool {
    let device = state.devices[id];
    let valve = device.valves[valve_id];
    s.labels == labels_of_valve(s.family, state, device, valve) && valve_value(
        s.family,
        state,
        valve,
        now,
    ) == Some(s.value)
}

/// Whether a sample is what a valve set of a device has to say.
spec fn valve_set_said(state: StateView, id: Seq<char>, set_id: Seq<char>, s: SampleView) -> bool {
    let device = state.devices[id];
    let set = device.valve_sets[set_id];
    s.labels == labels_of_valve_set(s.family, state, device, set) && valve_set_value(s.family, set)
        == Some(s.value)
}

proof fn lemma_services_said(state: StateView, id: Seq<char>, now: i64, s: SampleView)
    ensures
        in_services(state, state.devices[id], now, s) <==> {
            ||| common_said(state, id, s)
            ||| sensor_said(state, id, s)
            ||| exists|valve_id: Seq<char>|
                #[trigger] state.devices[id].valves.contains_key(valve_id) && valve_said(
                    state,
                    id,
                    valve_id,
                    now,
                    s,
                )
            ||| exists|set_id: Seq<char>|
                #[trigger] state.devices[id].valve_sets.contains_key(set_id) && valve_set_said(
                    state,
                    id,
                    set_id,
                    s,
                )
        },
{
    let device = state.devices[id];
    if let Some(service) = device.common {
        lemma_in_common(state, device, service, s);
    }
    if let Some(service) = device.sensor {
        lemma_in_sensor(state, device, service, s);
    }
    assert forall|valve_id: Seq<char>| #[trigger] device.valves.contains_key(valve_id) implies (
    valve_samples(state, device, device.valves[valve_id], now).contains(s) <==> valve_said(
        state,
        id,
        valve_id,
        now,
        s,
    )) by {
        lemma_in_valve(state, device, device.valves[valve_id], now, s);
    }
    assert forall|set_id: Seq<char>| #[trigger] device.valve_sets.contains_key(set_id) implies (
    valve_set_samples(state, device, device.valve_sets[set_id]).contains(s) <==> valve_set_said(
        state,
        id,
        set_id,
        s,
    )) by {
        lemma_in_valve_set(state, device, device.valve_sets[set_id], s);
    }
}

/// The families about devices.
spec fn common_family(family: Family) -> bool {
    ||| family == Family::DeviceInfo
    ||| family == Family::SensorInfo
    ||| family == Family::BatteryLevel
    ||| family == Family::BatteryLevelTimestamp
    ||| family == Family::RfLinkLevel
    ||| family == Family::RfLinkLevelTimestamp
}

/// The families about sensors.
spec fn sensor_family(family: Family) -> bool {
    ||| family == Family::SoilHumidity
    ||| family == Family::SoilHumidityTimestamp
    ||| family == Family::SoilTemperature
    ||| family == Family::SoilTemperatureTimestamp
    ||| family == Family::AmbientTemperature
    ||| family == Family::AmbientTemperatureTimestamp
    ||| family == Family::LightIntensity
    ||| family == Family::LightIntensityTimestamp
}

/// The families about valves.
spec fn valve_family(family: Family) -> bool {
    ||| family == Family::ValveInfo
    ||| family == Family::ValveOpen
    ||| family == Family::ValveOpenTime
    ||| family == Family::ValveFlow
    ||| family == Family::ValveCurrentFlow
    ||| family == Family::ValveWater
    ||| family == Family::ValveDuration
    ||| family == Family::ValveActivityTimestamp
    ||| family == Family::ValveStateTimestamp
}

/// The families about valve sets.
spec fn valve_set_family(family: Family) -> bool {
    ||| family == Family::ValveSetInfo
    ||| family == Family::ValveSetStateTimestamp
}

/// A family is known by its name.
proof fn lemma_names_tell()
    ensures
        forall|a: Family, b: Family|
            #[trigger] a.spec_name() == #[trigger] b.spec_name() ==> a == b,
{
    assert forall|a: Family, b: Family| #[trigger] a.spec_name()
        == #[trigger] b.spec_name() implies a == b by {
        family_names_differ(a, b);
    }
}

/// The families about the exporter show the connection, the moments and the counts of the cache,
/// each once; a moment that is not known is shown as zero. The version stands with the location,
/// which is empty where it is not known.
pub proof fn exporter_families_show_the_exporter(state: StateView, version: Seq<char>, now: i64)
    requires
        state.consistent(),
    ensures
        ({
            let samples = all_samples(state, version, now);
            let none = Seq::<Seq<char>>::empty();
            &&& shows_once(
                samples,
                "gardena_exporter_connected"@,
                none,
                ValueView::Flag(state.connected),
            )
            &&& shows_once(
                samples,
                "gardena_exporter_last_event_timestamp_seconds"@,
                none,
                ValueView::Timestamp(
                    match state.last_event_timestamp {
                        Some(millis) => millis,
                        None => 0,
                    },
                ),
            )
            &&& shows_once(
                samples,
                "gardena_exporter_last_snapshot_timestamp_seconds"@,
                none,
                ValueView::Timestamp(
                    match state.last_snapshot_timestamp {
                        Some(millis) => millis,
                        None => 0,
                    },
                ),
            )
            &&& shows_once(
                samples,
                "gardena_exporter_last_successful_sync_timestamp_seconds"@,
                none,
                ValueView::Timestamp(
                    match state.last_successful_sync_timestamp {
                        Some(millis) => millis,
                        None => 0,
                    },
                ),
            )
            &&& shows_once(
                samples,
                "gardena_exporter_websocket_reconnects_total"@,
                none,
                ValueView::Count(state.websocket_reconnects_total),
            )
            &&& shows_once(
                samples,
                "gardena_exporter_token_refreshes_total"@,
                none,
                ValueView::Count(state.token_refreshes_total),
            )
            &&& shows_once(
                samples,
                "gardena_exporter_snapshot_refreshes_total"@,
                none,
                ValueView::Count(state.snapshot_refreshes_total),
            )
            &&& shows_once(
                samples,
                "gardena_exporter_info"@,
                seq![version, known_or(state.location_id, ""@), known_or(state.location_name, ""@)],
                ValueView::Flag(true),
            )
        }),
{
    let samples = all_samples(state, version, now);
    assert(seq![version, or_empty(state.location_id), or_empty(state.location_name)] =~= seq![
        version,
        known_or(state.location_id, ""@),
        known_or(state.location_name, ""@),
    ]);
    assert forall|s: SampleView| exporter_value(s.family, state) is Some implies (
    #[trigger] samples.contains(s) <==> s.labels == exporter_labels(s.family, state, version)
        && exporter_value(s.family, state) == Some(s.value)) by {
        lemma_shown(state, version, now, s);
    }
    lemma_names_tell();
    assert(Family::ExporterConnected.spec_name() == "gardena_exporter_connected"@);
    assert(Family::LastEventTimestamp.spec_name()
        == "gardena_exporter_last_event_timestamp_seconds"@);
    assert(Family::LastSnapshotTimestamp.spec_name()
        == "gardena_exporter_last_snapshot_timestamp_seconds"@);
    assert(Family::LastSuccessfulSyncTimestamp.spec_name()
        == "gardena_exporter_last_successful_sync_timestamp_seconds"@);
    assert(Family::WebsocketReconnects.spec_name()
        == "gardena_exporter_websocket_reconnects_total"@);
    assert(Family::TokenRefreshes.spec_name() == "gardena_exporter_token_refreshes_total"@);
    assert(Family::SnapshotRefreshes.spec_name() == "gardena_exporter_snapshot_refreshes_total"@);
    assert(Family::ExporterInfo.spec_name() == "gardena_exporter_info"@);
}

/// The families about devices show, of each known device with a common service, what describes it
/// and each reading and moment that is known, under the location, the identifier, the name and the
/// model of the device; and nothing else. A device without a name goes by its identifier.
pub proof fn device_families_show_the_devices(state: StateView, version: Seq<char>, now: i64)
    requires
        state.consistent(),
    ensures
        ({
            let samples = all_samples(state, version, now);
            let location = match state.location_name {
                Some(name) => name,
                None => known_or(state.location_id, "unknown"@),
            };
            let labels = |id: Seq<char>, device: DeviceView|
                seq![
                    location,
                    id,
                    match device.common {
                        Some(service) => known_or(service.name, id),
                        None => id,
                    },
                    match device.common {
                        Some(service) => known_or(service.model_type, ""@),
                        None => ""@,
                    },
                ];
            let info = |id: Seq<char>, device: DeviceView|
                seq![
                    location,
                    id,
                    match device.common {
                        Some(service) => known_or(service.name, id),
                        None => id,
                    },
                    match device.common {
                        Some(service) => known_or(service.model_type, ""@),
                        None => ""@,
                    },
                    match device.common {
                        Some(service) => known_or(service.serial, ""@),
                        None => ""@,
                    },
                    match device.common {
                        Some(service) => known_or(service.battery_state, ""@),
                        None => ""@,
                    },
                    match device.common {
                        Some(service) => known_or(service.rf_link_state, ""@),
                        None => ""@,
                    },
                ];
            &&& shows_of_devices(
                state,
                samples,
                "gardena_device_info"@,
                info,
                |device: DeviceView|
                    if device.common is Some {
                        Some(ValueView::Flag(true))
                    } else {
                        None
                    },
            )
            &&& shows_of_devices(
                state,
                samples,
                "gardena_sensor_info"@,
                info,
                |device: DeviceView|
                    if device.common is Some && device.sensor is Some {
                        Some(ValueView::Flag(true))
                    } else {
                        None
                    },
            )
            &&& shows_of_devices(
                state,
                samples,
                "gardena_device_battery_level_percent"@,
                labels,
                |device: DeviceView|
                    match device.common {
                        Some(service) => shown_reading(service.battery_level),
                        None => None,
                    },
            )
            &&& shows_of_devices(
                state,
                samples,
                "gardena_device_battery_level_timestamp_seconds"@,
                labels,
                |device: DeviceView|
                    match device.common {
                        Some(service) => shown_moment(service.battery_level_timestamp),
                        None => None,
                    },
            )
            &&& shows_of_devices(
                state,
                samples,
                "gardena_device_rf_link_level_percent"@,
                labels,
                |device: DeviceView|
                    match device.common {
                        Some(service) => shown_reading(service.rf_link_level),
                        None => None,
                    },
            )
            &&& shows_of_devices(
                state,
                samples,
                "gardena_device_rf_link_level_timestamp_seconds"@,
                labels,
                |device: DeviceView|
                    match device.common {
                        Some(service) => shown_moment(service.rf_link_level_timestamp),
                        None => None,
                    },
            )
        }),
{
    let samples = all_samples(state, version, now);
    let location = match state.location_name {
        Some(name) => name,
        None => known_or(state.location_id, "unknown"@),
    };
    let labels = |id: Seq<char>, device: DeviceView|
        seq![
            location,
            id,
            match device.common {
                Some(service) => known_or(service.name, id),
                None => id,
            },
            match device.common {
                Some(service) => known_or(service.model_type, ""@),
                None => ""@,
            },
        ];
    let info = |id: Seq<char>, device: DeviceView|
        seq![
            location,
            id,
            match device.common {
                Some(service) => known_or(service.name, id),
                None => id,
            },
            match device.common {
                Some(service) => known_or(service.model_type, ""@),
                None => ""@,
            },
            match device.common {
                Some(service) => known_or(service.serial, ""@),
                None => ""@,
            },
            match device.common {
                Some(service) => known_or(service.battery_state, ""@),
                None => ""@,
            },
            match device.common {
                Some(service) => known_or(service.rf_link_state, ""@),
                None => ""@,
            },
        ];
    assert forall|id: Seq<char>| #[trigger] state.devices.contains_key(id) implies {
        &&& device_labels(state, state.devices[id]) == labels(id, state.devices[id])
        &&& device_info_labels(state, state.devices[id]) == info(id, state.devices[id])
    } by {
        let device = state.devices[id];
        assert(device_labels(state, device) =~= labels(id, device));
        assert(device_info_labels(state, device) =~= info(id, device));
    }
    assert forall|s: SampleView| common_family(s.family) implies (
    #[trigger] samples.contains(s) <==> exists|id: Seq<char>|
        #[trigger] state.devices.contains_key(id) && common_said(state, id, s)) by {
        lemma_shown(state, version, now, s);
    }
    lemma_names_tell();
    assert(Family::DeviceInfo.spec_name() == "gardena_device_info"@);
    assert(Family::SensorInfo.spec_name() == "gardena_sensor_info"@);
    assert(Family::BatteryLevel.spec_name() == "gardena_device_battery_level_percent"@);
    assert(Family::BatteryLevelTimestamp.spec_name()
        == "gardena_device_battery_level_timestamp_seconds"@);
    assert(Family::RfLinkLevel.spec_name() == "gardena_device_rf_link_level_percent"@);
    assert(Family::RfLinkLevelTimestamp.spec_name()
        == "gardena_device_rf_link_level_timestamp_seconds"@);
}

/// The families about sensors show, of each known device with a sensor, each reading and moment
/// that is known, under the location, the identifier, the name and the model of the device; and
/// nothing else.
pub proof fn sensor_families_show_the_sensors(state: StateView, version: Seq<char>, now: i64)
    requires
        state.consistent(),
    ensures
        ({
            let samples = all_samples(state, version, now);
            let location = match state.location_name {
                Some(name) => name,
                None => known_or(state.location_id, "unknown"@),
            };
            let labels = |id: Seq<char>, device: DeviceView|
                seq![
                    location,
                    id,
                    match device.common {
                        Some(service) => known_or(service.name, id),
                        None => id,
                    },
                    match device.common {
                        Some(service) => known_or(service.model_type, ""@),
                        None => ""@,
                    },
                ];
            &&& shows_of_devices(
                state,
                samples,
                "gardena_sensor_soil_humidity_percent"@,
                labels,
                |device: DeviceView|
                    match device.sensor {
                        Some(service) => shown_reading(service.soil_humidity),
                        None => None,
                    },
            )
            &&& shows_of_devices(
                state,
                samples,
                "gardena_sensor_soil_humidity_timestamp_seconds"@,
                labels,
                |device: DeviceView|
                    match device.sensor {
                        Some(service) => shown_moment(service.soil_humidity_timestamp),
                        None => None,
                    },
            )
            &&& shows_of_devices(
                state,
                samples,
                "gardena_sensor_soil_temperature_celsius"@,
                labels,
                |device: DeviceView|
                    match device.sensor {
                        Some(service) => shown_reading(service.soil_temperature),
                        None => None,
                    },
            )
            &&& shows_of_devices(
                state,
                samples,
                "gardena_sensor_soil_temperature_timestamp_seconds"@,
                labels,
                |device: DeviceView|
                    match device.sensor {
                        Some(service) => shown_moment(service.soil_temperature_timestamp),
                        None => None,
                    },
            )
            &&& shows_of_devices(
                state,
                samples,
                "gardena_sensor_ambient_temperature_celsius"@,
                labels,
                |device: DeviceView|
                    match device.sensor {
                        Some(service) => shown_reading(service.ambient_temperature),
                        None => None,
                    },
            )
            &&& shows_of_devices(
                state,
                samples,
                "gardena_sensor_ambient_temperature_timestamp_seconds"@,
                labels,
                |device: DeviceView|
                    match device.sensor {
                        Some(service) => shown_moment(service.ambient_temperature_timestamp),
                        None => None,
                    },
            )
            &&& shows_of_devices(
                state,
                samples,
                "gardena_sensor_light_intensity_lux"@,
                labels,
                |device: DeviceView|
                    match device.sensor {
                        Some(service) => shown_reading(service.light_intensity),
                        None => None,
                    },
            )
            &&& shows_of_devices(
                state,
                samples,
                "gardena_sensor_light_intensity_timestamp_seconds"@,
                labels,
                |device: DeviceView|
                    match device.sensor {
                        Some(service) => shown_moment(service.light_intensity_timestamp),
                        None => None,
                    },
            )
        }),
{
    let samples = all_samples(state, version, now);
    let location = match state.location_name {
        Some(name) => name,
        None => known_or(state.location_id, "unknown"@),
    };
    let labels = |id: Seq<char>, device: DeviceView|
        seq![
            location,
            id,
            match device.common {
                Some(service) => known_or(service.name, id),
                None => id,
            },
            match device.common {
                Some(service) => known_or(service.model_type, ""@),
                None => ""@,
            },
        ];
    assert forall|id: Seq<char>| #[trigger] state.devices.contains_key(id) implies device_labels(
        state,
        state.devices[id],
    ) == labels(id, state.devices[id]) by {
        let device = state.devices[id];
        assert(device_labels(state, device) =~= labels(id, device));
    }
    assert forall|s: SampleView| sensor_family(s.family) implies (
    #[trigger] samples.contains(s) <==> exists|id: Seq<char>|
        #[trigger] state.devices.contains_key(id) && sensor_said(state, id, s)) by {
        lemma_shown(state, version, now, s);
    }
    lemma_names_tell();
    assert(Family::SoilHumidity.spec_name() == "gardena_sensor_soil_humidity_percent"@);
    assert(Family::SoilHumidityTimestamp.spec_name()
        == "gardena_sensor_soil_humidity_timestamp_seconds"@);
    assert(Family::SoilTemperature.spec_name() == "gardena_sensor_soil_temperature_celsius"@);
    assert(Family::SoilTemperatureTimestamp.spec_name()
        == "gardena_sensor_soil_temperature_timestamp_seconds"@);
    assert(Family::AmbientTemperature.spec_name() == "gardena_sensor_ambient_temperature_celsius"@);
    assert(Family::AmbientTemperatureTimestamp.spec_name()
        == "gardena_sensor_ambient_temperature_timestamp_seconds"@);
    assert(Family::LightIntensity.spec_name() == "gardena_sensor_light_intensity_lux"@);
    assert(Family::LightIntensityTimestamp.spec_name()
        == "gardena_sensor_light_intensity_timestamp_seconds"@);
}

/// The families about valves show, of each valve of each known device, what describes it, whether
/// it is open, its totals and each reading and moment that is known, under the location, the
/// identifier and name of the device and those of the valve; and nothing else. A valve is shown as
/// open exactly if it has an activity other than `CLOSED`.
pub proof fn valve_families_show_the_valves(state: StateView, version: Seq<char>, now: i64)
    requires
        state.consistent(),
    ensures
        ({
            let samples = all_samples(state, version, now);
            let location = match state.location_name {
                Some(name) => name,
                None => known_or(state.location_id, "unknown"@),
            };
            let labels = |id: Seq<char>, device: DeviceView, valve_id: Seq<char>, valve: ValveView|
                seq![
                    location,
                    id,
                    match device.common {
                        Some(service) => known_or(service.name, id),
                        None => id,
                    },
                    valve_id,
                    known_or(valve.name, valve_id),
                ];
            let info = |id: Seq<char>, device: DeviceView, valve_id: Seq<char>, valve: ValveView|
                seq![
                    location,
                    id,
                    match device.common {
                        Some(service) => known_or(service.name, id),
                        None => id,
                    },
                    valve_id,
                    known_or(valve.name, valve_id),
                    known_or(valve.state, ""@),
                    known_or(valve.activity, ""@),
                    known_or(valve.last_error, ""@),
                ];
            &&& shows_of_valves(
                state,
                samples,
                "gardena_valve_info"@,
                info,
                |valve_id: Seq<char>, valve: ValveView| Some(ValueView::Flag(true)),
            )
            &&& shows_of_valves(
                state,
                samples,
                "gardena_valve_open"@,
                labels,
                |valve_id: Seq<char>, valve: ValveView|
                    Some(ValueView::Flag(valve.activity is Some && valve.activity->0 != "CLOSED"@)),
            )
            &&& shows_of_valves(
                state,
                samples,
                "gardena_valve_estimated_open_seconds_total"@,
                labels,
                |valve_id: Seq<char>, valve: ValveView|
                    Some(ValueView::Span(state.totals(valve_id, now).open_millis)),
            )
            &&& shows_of_valves(
                state,
                samples,
                "gardena_valve_estimated_flow_liters_per_minute"@,
                labels,
                |valve_id: Seq<char>, valve: ValveView|
                    Some(ValueView::Flow(state.totals(valve_id, now).flow_liters_per_minute)),
            )
            &&& shows_of_valves(
                state,
                samples,
                "gardena_valve_estimated_current_water_flow_liters_per_minute"@,
                labels,
                |valve_id: Seq<char>, valve: ValveView|
                    Some(
                        ValueView::Flow(state.totals(valve_id, now).current_flow_liters_per_minute),
                    ),
            )
            &&& shows_of_valves(
                state,
                samples,
                "gardena_valve_estimated_water_liters_total"@,
                labels,
                |valve_id: Seq<char>, valve: ValveView|
                    Some(ValueView::Volume(state.totals(valve_id, now).metered)),
            )
            &&& shows_of_valves(
                state,
                samples,
                "gardena_valve_duration_seconds"@,
                labels,
                |valve_id: Seq<char>, valve: ValveView| shown_reading(valve.duration_seconds),
            )
            &&& shows_of_valves(
                state,
                samples,
                "gardena_valve_activity_timestamp_seconds"@,
                labels,
                |valve_id: Seq<char>, valve: ValveView| shown_moment(valve.activity_timestamp),
            )
            &&& shows_of_valves(
                state,
                samples,
                "gardena_valve_state_timestamp_seconds"@,
                labels,
                |valve_id: Seq<char>, valve: ValveView| shown_moment(valve.state_timestamp),
            )
        }),
{
    let samples = all_samples(state, version, now);
    let location = match state.location_name {
        Some(name) => name,
        None => known_or(state.location_id, "unknown"@),
    };
    let labels = |id: Seq<char>, device: DeviceView, valve_id: Seq<char>, valve: ValveView|
        seq![
            location,
            id,
            match device.common {
                Some(service) => known_or(service.name, id),
                None => id,
            },
            valve_id,
            known_or(valve.name, valve_id),
        ];
    let info = |id: Seq<char>, device: DeviceView, valve_id: Seq<char>, valve: ValveView|
        seq![
            location,
            id,
            match device.common {
                Some(service) => known_or(service.name, id),
                None => id,
            },
            valve_id,
            known_or(valve.name, valve_id),
            known_or(valve.state, ""@),
            known_or(valve.activity, ""@),
            known_or(valve.last_error, ""@),
        ];
    assert forall|id: Seq<char>, valve_id: Seq<char>|
        state.devices.contains_key(id) && #[trigger] state.devices[id].valves.contains_key(
            valve_id,
        ) implies {
        let device = state.devices[id];
        let valve = device.valves[valve_id];
        &&& valve.id == valve_id
        &&& valve_labels(state, device, valve) == labels(id, device, valve_id, valve)
        &&& valve_info_labels(state, device, valve) == info(id, device, valve_id, valve)
    } by {
        let device = state.devices[id];
        let valve = device.valves[valve_id];
        assert(valve_labels(state, device, valve) =~= labels(id, device, valve_id, valve));
        assert(valve_info_labels(state, device, valve) =~= info(id, device, valve_id, valve));
    }
    assert forall|s: SampleView| valve_family(s.family) implies (
    #[trigger] samples.contains(s) <==> exists|id: Seq<char>, valve_id: Seq<char>|
        state.devices.contains_key(id) && #[trigger] state.devices[id].valves.contains_key(valve_id)
            && valve_said(state, id, valve_id, now, s)) by {
        lemma_shown(state, version, now, s);
    }
    lemma_names_tell();
    assert(Family::ValveInfo.spec_name() == "gardena_valve_info"@);
    assert(Family::ValveOpen.spec_name() == "gardena_valve_open"@);
    assert(Family::ValveOpenTime.spec_name() == "gardena_valve_estimated_open_seconds_total"@);
    assert(Family::ValveFlow.spec_name() == "gardena_valve_estimated_flow_liters_per_minute"@);
    assert(Family::ValveCurrentFlow.spec_name()
        == "gardena_valve_estimated_current_water_flow_liters_per_minute"@);
    assert(Family::ValveWater.spec_name() == "gardena_valve_estimated_water_liters_total"@);
    assert(Family::ValveDuration.spec_name() == "gardena_valve_duration_seconds"@);
    assert(Family::ValveActivityTimestamp.spec_name()
        == "gardena_valve_activity_timestamp_seconds"@);
    assert(Family::ValveStateTimestamp.spec_name() == "gardena_valve_state_timestamp_seconds"@);
}

/// The families about valve sets show, of each valve set of each known device, what describes it
/// and the moment of its state where that is known, under the location, the identifier and name
/// of the device and the identifier of the set; and nothing else.
pub proof fn valve_set_families_show_the_valve_sets(state: StateView, version: Seq<char>, now: i64)
    requires
        state.consistent(),
    ensures
        ({
            let samples = all_samples(state, version, now);
            let location = match state.location_name {
                Some(name) => name,
                None => known_or(state.location_id, "unknown"@),
            };
            let labels = |id: Seq<char>, device: DeviceView, set_id: Seq<char>, set: ValveSetView|
                seq![
                    location,
                    id,
                    match device.common {
                        Some(service) => known_or(service.name, id),
                        None => id,
                    },
                    set_id,
                ];
            let info = |id: Seq<char>, device: DeviceView, set_id: Seq<char>, set: ValveSetView|
                seq![
                    location,
                    id,
                    match device.common {
                        Some(service) => known_or(service.name, id),
                        None => id,
                    },
                    set_id,
                    known_or(set.state, ""@),
                    known_or(set.last_error, ""@),
                ];
            &&& shows_of_valve_sets(
                state,
                samples,
                "gardena_valve_set_info"@,
                info,
                |set: ValveSetView| Some(ValueView::Flag(true)),
            )
            &&& shows_of_valve_sets(
                state,
                samples,
                "gardena_valve_set_state_timestamp_seconds"@,
                labels,
                |set: ValveSetView| shown_moment(set.state_timestamp),
            )
        }),
{
    let samples = all_samples(state, version, now);
    let location = match state.location_name {
        Some(name) => name,
        None => known_or(state.location_id, "unknown"@),
    };
    let labels = |id: Seq<char>, device: DeviceView, set_id: Seq<char>, set: ValveSetView|
        seq![
            location,
            id,
            match device.common {
                Some(service) => known_or(service.name, id),
                None => id,
            },
            set_id,
        ];
    let info = |id: Seq<char>, device: DeviceView, set_id: Seq<char>, set: ValveSetView|
        seq![
            location,
            id,
            match device.common {
                Some(service) => known_or(service.name, id),
                None => id,
            },
            set_id,
            known_or(set.state, ""@),
            known_or(set.last_error, ""@),
        ];
    assert forall|id: Seq<char>, set_id: Seq<char>|
        state.devices.contains_key(id) && #[trigger] state.devices[id].valve_sets.contains_key(
            set_id,
        ) implies {
        let device = state.devices[id];
        let set = device.valve_sets[set_id];
        &&& set.id == set_id
        &&& valve_set_labels(state, device, set) == labels(id, device, set_id, set)
        &&& valve_set_info_labels(state, device, set) == info(id, device, set_id, set)
    } by {
        let device = state.devices[id];
        let set = device.valve_sets[set_id];
        assert(valve_set_labels(state, device, set) =~= labels(id, device, set_id, set));
        assert(valve_set_info_labels(state, device, set) =~= info(id, device, set_id, set));
    }
    assert forall|s: SampleView| valve_set_family(s.family) implies (
    #[trigger] samples.contains(s) <==> exists|id: Seq<char>, set_id: Seq<char>|
        state.devices.contains_key(id) && #[trigger] state.devices[id].valve_sets.contains_key(
            set_id,
        ) && valve_set_said(state, id, set_id, s)) by {
        lemma_shown(state, version, now, s);
    }
    lemma_names_tell();
    assert(Family::ValveSetInfo.spec_name() == "gardena_valve_set_info"@);
    assert(Family::ValveSetStateTimestamp.spec_name()
        == "gardena_valve_set_state_timestamp_seconds"@);
}

/// After a `VALVE` resource its valve is shown under its own identifier and that of its device: as
/// open where the resource has an activity other than `CLOSED`, and otherwise as not open. It is
/// shown so once.
pub proof fn reported_activity_is_shown(
    state: StateView,
    resource: ResourceView,
    flows: FlowView,
    now: i64,
    id: Seq<char>,
    version: Seq<char>,
    later: i64,
)
    requires
        state.consistent(),
        resource.kind == "VALVE"@,
        related_id(resource.relationships, "device"@) == Some(id),
    ensures
        ({
            let samples = all_samples(state.after_resource(resource, flows, now), version, later);
            let activity = nested_text_at(resource.attributes, "activity"@, "value"@);
            &&& exists|s: SampleView| #[trigger]
                samples.contains(s) && s.family.spec_name() == "gardena_valve_open"@ && s.labels[1]
                    == id && s.labels[3] == resource.id
            &&& forall|s: SampleView| #[trigger]
                samples.contains(s) && s.family.spec_name() == "gardena_valve_open"@ && s.labels[1]
                    == id && s.labels[3] == resource.id ==> s.value == ValueView::Flag(
                    activity is Some && activity != Some("CLOSED"@),
                )
        }),
{
    let after = state.after_resource(resource, flows, now);
    let samples = all_samples(after, version, later);
    let activity = nested_text_at(resource.attributes, "activity"@, "value"@);
    resource_keeps_consistency(state, resource, flows, now);
    services_go_to_their_device(state, resource, flows, now, id);
    valve_properties_are_read(state, resource, flows, now, id);
    let valve = after.devices[id].valves[resource.id];
    let mine = SampleView {
        family: Family::ValveOpen,
        labels: valve_labels(after, after.devices[id], valve),
        value: ValueView::Flag(activity is Some && activity->0 != "CLOSED"@),
    };
    valve_families_show_the_valves(after, version, later);
    assert(after.devices[id].valves.contains_key(resource.id));
    assert(valve.id == resource.id);
    lemma_shown(after, version, later, mine);
    assert(samples.contains(mine));
    assert forall|s: SampleView| #[trigger]
        samples.contains(s) && s.family.spec_name() == "gardena_valve_open"@ && s.labels[1] == id
            && s.labels[3] == resource.id implies s.value == ValueView::Flag(
        activity is Some && activity != Some("CLOSED"@),
    ) by {
        family_names_differ(s.family, Family::ValveOpen);
        lemma_shown(after, version, later, s);
    }
}

/// The values of a sample stand under these labels, by the name of its family.
pub proof fn labels_are_named(family: Family)
    ensures
        ({
            let name = family.spec_name();
            &&& {
                ||| name == "gardena_exporter_connected"@
                ||| name == "gardena_exporter_last_event_timestamp_seconds"@
                ||| name == "gardena_exporter_last_snapshot_timestamp_seconds"@
                ||| name == "gardena_exporter_last_successful_sync_timestamp_seconds"@
                ||| name == "gardena_exporter_websocket_reconnects_total"@
                ||| name == "gardena_exporter_token_refreshes_total"@
                ||| name == "gardena_exporter_snapshot_refreshes_total"@
                ||| name == "gardena_estimated_water_liters_total"@
                ||| name == "gardena_estimated_current_water_flow_liters_per_minute"@
            } ==> family.spec_labels() == Seq::<Seq<char>>::empty()
            &&& {
                ||| name == "gardena_exporter_info"@
            } ==> family.spec_labels() == seq![
                "version"@,
                "location_id"@,
                "location"@,
            ]
            &&& {
                ||| name == "gardena_device_info"@
                ||| name == "gardena_sensor_info"@
            } ==> family.spec_labels() == seq![
                "location"@,
                "device_id"@,
                "device_name"@,
                "model_type"@,
                "serial"@,
                "battery_state"@,
                "rf_link_state"@,
            ]
            &&& {
                ||| name == "gardena_valve_info"@
            } ==> family.spec_labels() == seq![
                "location"@,
                "device_id"@,
                "controller_name"@,
                "service_id"@,
                "valve_name"@,
                "state"@,
                "activity"@,
                "last_error"@,
            ]
            &&& {
                ||| name == "gardena_valve_set_info"@
            } ==> family.spec_labels() == seq![
                "location"@,
                "device_id"@,
                "controller_name"@,
                "service_id"@,
                "state"@,
                "last_error"@,
            ]
            &&& {
                ||| name == "gardena_device_battery_level_percent"@
                ||| name == "gardena_device_battery_level_timestamp_seconds"@
                ||| name == "gardena_device_rf_link_level_percent"@
                ||| name == "gardena_device_rf_link_level_timestamp_seconds"@
                ||| name == "gardena_sensor_soil_humidity_percent"@
                ||| name == "gardena_sensor_soil_humidity_timestamp_seconds"@
                ||| name == "gardena_sensor_soil_temperature_celsius"@
                ||| name == "gardena_sensor_soil_temperature_timestamp_seconds"@
                ||| name == "gardena_sensor_ambient_temperature_celsius"@
                ||| name == "gardena_sensor_ambient_temperature_timestamp_seconds"@
                ||| name == "gardena_sensor_light_intensity_lux"@
                ||| name == "gardena_sensor_light_intensity_timestamp_seconds"@
            } ==> family.spec_labels() == seq![
                "location"@,
                "device_id"@,
                "device_name"@,
                "model_type"@,
            ]
            &&& {
                ||| name == "gardena_valve_open"@
                ||| name == "gardena_valve_duration_seconds"@
                ||| name == "gardena_valve_activity_timestamp_seconds"@
                ||| name == "gardena_valve_state_timestamp_seconds"@
                ||| name == "gardena_valve_estimated_open_seconds_total"@
                ||| name == "gardena_valve_estimated_water_liters_total"@
                ||| name == "gardena_valve_estimated_flow_liters_per_minute"@
                ||| name == "gardena_valve_estimated_current_water_flow_liters_per_minute"@
            } ==> family.spec_labels() == seq![
                "location"@,
                "device_id"@,
                "controller_name"@,
                "service_id"@,
                "valve_name"@,
            ]
            &&& {
                ||| name == "gardena_valve_set_state_timestamp_seconds"@
            } ==> family.spec_labels() == seq![
                "location"@,
                "device_id"@,
                "controller_name"@,
                "service_id"@,
            ]
        }),
{
    lemma_names_tell();
    assert(Family::ExporterConnected.spec_name() == "gardena_exporter_connected"@);
    assert(Family::LastEventTimestamp.spec_name()
        == "gardena_exporter_last_event_timestamp_seconds"@);
    assert(Family::LastSnapshotTimestamp.spec_name()
        == "gardena_exporter_last_snapshot_timestamp_seconds"@);
    assert(Family::LastSuccessfulSyncTimestamp.spec_name()
        == "gardena_exporter_last_successful_sync_timestamp_seconds"@);
    assert(Family::WebsocketReconnects.spec_name()
        == "gardena_exporter_websocket_reconnects_total"@);
    assert(Family::TokenRefreshes.spec_name() == "gardena_exporter_token_refreshes_total"@);
    assert(Family::SnapshotRefreshes.spec_name() == "gardena_exporter_snapshot_refreshes_total"@);
    assert(Family::ExporterInfo.spec_name() == "gardena_exporter_info"@);
    assert(Family::DeviceInfo.spec_name() == "gardena_device_info"@);
    assert(Family::SensorInfo.spec_name() == "gardena_sensor_info"@);
    assert(Family::ValveInfo.spec_name() == "gardena_valve_info"@);
    assert(Family::ValveSetInfo.spec_name() == "gardena_valve_set_info"@);
    assert(Family::BatteryLevel.spec_name() == "gardena_device_battery_level_percent"@);
    assert(Family::BatteryLevelTimestamp.spec_name()
        == "gardena_device_battery_level_timestamp_seconds"@);
    assert(Family::RfLinkLevel.spec_name() == "gardena_device_rf_link_level_percent"@);
    assert(Family::RfLinkLevelTimestamp.spec_name()
        == "gardena_device_rf_link_level_timestamp_seconds"@);
    assert(Family::SoilHumidity.spec_name() == "gardena_sensor_soil_humidity_percent"@);
    assert(Family::SoilHumidityTimestamp.spec_name()
        == "gardena_sensor_soil_humidity_timestamp_seconds"@);
    assert(Family::SoilTemperature.spec_name() == "gardena_sensor_soil_temperature_celsius"@);
    assert(Family::SoilTemperatureTimestamp.spec_name()
        == "gardena_sensor_soil_temperature_timestamp_seconds"@);
    assert(Family::AmbientTemperature.spec_name() == "gardena_sensor_ambient_temperature_celsius"@);
    assert(Family::AmbientTemperatureTimestamp.spec_name()
        == "gardena_sensor_ambient_temperature_timestamp_seconds"@);
    assert(Family::LightIntensity.spec_name() == "gardena_sensor_light_intensity_lux"@);
    assert(Family::LightIntensityTimestamp.spec_name()
        == "gardena_sensor_light_intensity_timestamp_seconds"@);
    assert(Family::ValveOpen.spec_name() == "gardena_valve_open"@);
    assert(Family::ValveDuration.spec_name() == "gardena_valve_duration_seconds"@);
    assert(Family::ValveActivityTimestamp.spec_name()
        == "gardena_valve_activity_timestamp_seconds"@);
    assert(Family::ValveStateTimestamp.spec_name() == "gardena_valve_state_timestamp_seconds"@);
    assert(Family::ValveSetStateTimestamp.spec_name()
        == "gardena_valve_set_state_timestamp_seconds"@);
    assert(Family::ValveOpenTime.spec_name() == "gardena_valve_estimated_open_seconds_total"@);
    assert(Family::ValveWater.spec_name() == "gardena_valve_estimated_water_liters_total"@);
    assert(Family::ValveFlow.spec_name() == "gardena_valve_estimated_flow_liters_per_minute"@);
    assert(Family::ValveCurrentFlow.spec_name()
        == "gardena_valve_estimated_current_water_flow_liters_per_minute"@);
    assert(Family::Water.spec_name() == "gardena_estimated_water_liters_total"@);
    assert(Family::CurrentFlow.spec_name()
        == "gardena_estimated_current_water_flow_liters_per_minute"@);
}

/// The families are exported under these names, with these explanations, and there is no other.
pub proof fn families_are_explained(family: Family)
    ensures
        ({
            let name = family.spec_name();
            let help = family.spec_help();
            ||| name == "gardena_exporter_connected"@ && help
                == "Whether the exporter currently has an active Gardena websocket connection"@
            ||| name == "gardena_exporter_last_event_timestamp_seconds"@ && help
                == "Unix timestamp of the last Gardena websocket event processed by the exporter"@
            ||| name == "gardena_exporter_last_snapshot_timestamp_seconds"@ && help
                == "Unix timestamp of the last full Gardena snapshot applied by the exporter"@
            ||| name == "gardena_exporter_last_successful_sync_timestamp_seconds"@ && help
                == "Unix timestamp of the last successful Gardena sync activity"@
            ||| name == "gardena_exporter_websocket_reconnects_total"@ && help
                == "Number of Gardena websocket reconnect attempts triggered by the exporter"@
            ||| name == "gardena_exporter_token_refreshes_total"@ && help
                == "Number of OAuth access tokens minted by the exporter"@
            ||| name == "gardena_exporter_snapshot_refreshes_total"@ && help
                == "Number of full Gardena snapshot refreshes applied by the exporter"@
            ||| name == "gardena_exporter_info"@ && help
                == "Static information about the Gardena exporter"@
            ||| name == "gardena_device_info"@ && help
                == "Static information about Gardena devices"@
            ||| name == "gardena_sensor_info"@ && help
                == "Static information about Gardena sensor devices"@
            ||| name == "gardena_valve_info"@ && help == "Static information about Gardena valves"@
            ||| name == "gardena_valve_set_info"@ && help
                == "Static information about Gardena valve sets"@
            ||| name == "gardena_device_battery_level_percent"@ && help
                == "Device battery level percentage"@
            ||| name == "gardena_device_battery_level_timestamp_seconds"@ && help
                == "Unix timestamp of the latest device battery level reading"@
            ||| name == "gardena_device_rf_link_level_percent"@ && help
                == "Device RF link level percentage"@
            ||| name == "gardena_device_rf_link_level_timestamp_seconds"@ && help
                == "Unix timestamp of the latest device RF link level reading"@
            ||| name == "gardena_sensor_soil_humidity_percent"@ && help
                == "Soil humidity percentage"@
            ||| name == "gardena_sensor_soil_humidity_timestamp_seconds"@ && help
                == "Unix timestamp of the latest soil humidity reading"@
            ||| name == "gardena_sensor_soil_temperature_celsius"@ && help
                == "Soil temperature in Celsius"@
            ||| name == "gardena_sensor_soil_temperature_timestamp_seconds"@ && help
                == "Unix timestamp of the latest soil temperature reading"@
            ||| name == "gardena_sensor_ambient_temperature_celsius"@ && help
                == "Ambient temperature in Celsius"@
            ||| name == "gardena_sensor_ambient_temperature_timestamp_seconds"@ && help
                == "Unix timestamp of the latest ambient temperature reading"@
            ||| name == "gardena_sensor_light_intensity_lux"@ && help == "Light intensity in lux"@
            ||| name == "gardena_sensor_light_intensity_timestamp_seconds"@ && help
                == "Unix timestamp of the latest light intensity reading"@
            ||| name == "gardena_valve_open"@ && help
                == "Whether a Gardena valve is currently active and not closed"@
            ||| name == "gardena_valve_duration_seconds"@ && help
                == "Configured or active valve duration in seconds"@
            ||| name == "gardena_valve_activity_timestamp_seconds"@ && help
                == "Unix timestamp of the latest valve activity update"@
            ||| name == "gardena_valve_state_timestamp_seconds"@ && help
                == "Unix timestamp of the latest valve state update"@
            ||| name == "gardena_valve_set_state_timestamp_seconds"@ && help
                == "Unix timestamp of the latest valve set state update"@
            ||| name == "gardena_valve_estimated_open_seconds_total"@ && help
                == "Modeled valve open time in seconds accumulated since exporter start"@
            ||| name == "gardena_valve_estimated_water_liters_total"@ && help
                == "Modeled water volume in liters accumulated since exporter start"@
            ||| name == "gardena_valve_estimated_flow_liters_per_minute"@ && help
                == "Configured modeled flow rate used for valve water estimation"@
            ||| name == "gardena_valve_estimated_current_water_flow_liters_per_minute"@ && help
                == "Modeled current water flow rate in liters per minute for each valve"@
            ||| name == "gardena_estimated_water_liters_total"@ && help
                == "Modeled total water volume in liters accumulated since exporter start"@
            ||| name == "gardena_estimated_current_water_flow_liters_per_minute"@ && help
                == "Modeled current total water flow rate in liters per minute across all active valves"@
        }),
{
}

/// A family counts up exactly if its name ends in `_total`. What counts events counts in whole
/// numbers, and so does the connection, which is there or not.
pub proof fn totals_count_up(family: Family)
    ensures
        ({
            let name = family.spec_name();
            let kind = family.spec_kind();
            let ends_in_total = name.len() >= 6 && name.skip(name.len() - 6) == "_total"@;
            &&& kind == MetricKind::Counter || kind == MetricKind::IntCounter <==> ends_in_total
            &&& kind == MetricKind::IntCounter <==> name
                == "gardena_exporter_websocket_reconnects_total"@ || name
                == "gardena_exporter_token_refreshes_total"@ || name
                == "gardena_exporter_snapshot_refreshes_total"@
            &&& kind == MetricKind::IntGauge <==> name == "gardena_exporter_connected"@
        }),
{
    reveal_strlit("_total");
    reveal_strlit("gardena_exporter_connected");
    reveal_strlit("gardena_exporter_last_event_timestamp_seconds");
    reveal_strlit("gardena_exporter_last_snapshot_timestamp_seconds");
    reveal_strlit("gardena_exporter_last_successful_sync_timestamp_seconds");
    reveal_strlit("gardena_exporter_websocket_reconnects_total");
    reveal_strlit("gardena_exporter_token_refreshes_total");
    reveal_strlit("gardena_exporter_snapshot_refreshes_total");
    reveal_strlit("gardena_exporter_info");
    reveal_strlit("gardena_device_info");
    reveal_strlit("gardena_sensor_info");
    reveal_strlit("gardena_valve_info");
    reveal_strlit("gardena_valve_set_info");
    reveal_strlit("gardena_device_battery_level_percent");
    reveal_strlit("gardena_device_battery_level_timestamp_seconds");
    reveal_strlit("gardena_device_rf_link_level_percent");
    reveal_strlit("gardena_device_rf_link_level_timestamp_seconds");
    reveal_strlit("gardena_sensor_soil_humidity_percent");
    reveal_strlit("gardena_sensor_soil_humidity_timestamp_seconds");
    reveal_strlit("gardena_sensor_soil_temperature_celsius");
    reveal_strlit("gardena_sensor_soil_temperature_timestamp_seconds");
    reveal_strlit("gardena_sensor_ambient_temperature_celsius");
    reveal_strlit("gardena_sensor_ambient_temperature_timestamp_seconds");
    reveal_strlit("gardena_sensor_light_intensity_lux");
    reveal_strlit("gardena_sensor_light_intensity_timestamp_seconds");
    reveal_strlit("gardena_valve_open");
    reveal_strlit("gardena_valve_duration_seconds");
    reveal_strlit("gardena_valve_activity_timestamp_seconds");
    reveal_strlit("gardena_valve_state_timestamp_seconds");
    reveal_strlit("gardena_valve_set_state_timestamp_seconds");
    reveal_strlit("gardena_valve_estimated_open_seconds_total");
    reveal_strlit("gardena_valve_estimated_water_liters_total");
    reveal_strlit("gardena_valve_estimated_flow_liters_per_minute");
    reveal_strlit("gardena_valve_estimated_current_water_flow_liters_per_minute");
    reveal_strlit("gardena_estimated_water_liters_total");
    reveal_strlit("gardena_estimated_current_water_flow_liters_per_minute");
    if family.spec_name() == "gardena_exporter_connected"@ {
        family_names_differ(family, Family::ExporterConnected);
    }
    if family.spec_name() == "gardena_exporter_websocket_reconnects_total"@ {
        family_names_differ(family, Family::WebsocketReconnects);
    }
    if family.spec_name() == "gardena_exporter_token_refreshes_total"@ {
        family_names_differ(family, Family::TokenRefreshes);
    }
    if family.spec_name() == "gardena_exporter_snapshot_refreshes_total"@ {
        family_names_differ(family, Family::SnapshotRefreshes);
    }
    let name = family.spec_name();
    match family {
        Family::ExporterConnected => assert(name.skip(name.len() - 6)[5] == 'd'),
        Family::LastEventTimestamp => assert(name.skip(name.len() - 6)[5] == 's'),
        Family::LastSnapshotTimestamp => assert(name.skip(name.len() - 6)[5] == 's'),
        Family::LastSuccessfulSyncTimestamp => assert(name.skip(name.len() - 6)[5] == 's'),
        Family::WebsocketReconnects => assert(name.skip(name.len() - 6) =~= "_total"@),
        Family::TokenRefreshes => assert(name.skip(name.len() - 6) =~= "_total"@),
        Family::SnapshotRefreshes => assert(name.skip(name.len() - 6) =~= "_total"@),
        Family::ExporterInfo => assert(name.skip(name.len() - 6)[5] == 'o'),
        Family::DeviceInfo => assert(name.skip(name.len() - 6)[5] == 'o'),
        Family::SensorInfo => assert(name.skip(name.len() - 6)[5] == 'o'),
        Family::ValveInfo => assert(name.skip(name.len() - 6)[5] == 'o'),
        Family::ValveSetInfo => assert(name.skip(name.len() - 6)[5] == 'o'),
        Family::BatteryLevel => assert(name.skip(name.len() - 6)[5] == 't'),
        Family::BatteryLevelTimestamp => assert(name.skip(name.len() - 6)[5] == 's'),
        Family::RfLinkLevel => assert(name.skip(name.len() - 6)[5] == 't'),
        Family::RfLinkLevelTimestamp => assert(name.skip(name.len() - 6)[5] == 's'),
        Family::SoilHumidity => assert(name.skip(name.len() - 6)[5] == 't'),
        Family::SoilHumidityTimestamp => assert(name.skip(name.len() - 6)[5] == 's'),
        Family::SoilTemperature => assert(name.skip(name.len() - 6)[5] == 's'),
        Family::SoilTemperatureTimestamp => assert(name.skip(name.len() - 6)[5] == 's'),
        Family::AmbientTemperature => assert(name.skip(name.len() - 6)[5] == 's'),
        Family::AmbientTemperatureTimestamp => assert(name.skip(name.len() - 6)[5] == 's'),
        Family::LightIntensity => assert(name.skip(name.len() - 6)[5] == 'x'),
        Family::LightIntensityTimestamp => assert(name.skip(name.len() - 6)[5] == 's'),
        Family::ValveOpen => assert(name.skip(name.len() - 6)[5] == 'n'),
        Family::ValveDuration => assert(name.skip(name.len() - 6)[5] == 's'),
        Family::ValveActivityTimestamp => assert(name.skip(name.len() - 6)[5] == 's'),
        Family::ValveStateTimestamp => assert(name.skip(name.len() - 6)[5] == 's'),
        Family::ValveSetStateTimestamp => assert(name.skip(name.len() - 6)[5] == 's'),
        Family::ValveOpenTime => assert(name.skip(name.len() - 6) =~= "_total"@),
        Family::ValveWater => assert(name.skip(name.len() - 6) =~= "_total"@),
        Family::ValveFlow => assert(name.skip(name.len() - 6)[5] == 'e'),
        Family::ValveCurrentFlow => assert(name.skip(name.len() - 6)[5] == 'e'),
        Family::Water => assert(name.skip(name.len() - 6) =~= "_total"@),
        Family::CurrentFlow => assert(name.skip(name.len() - 6)[5] == 'e'),
    }
}

/// Every family is registered once.
pub proof fn families_are_registered_once(family: Family, i: int, j: int)
    requires
        0 <= i < Family::spec_all().len(),
        0 <= j < Family::spec_all().len(),
        Family::spec_all()[i] == family,
        Family::spec_all()[j] == family,
    ensures
        i == j,
{
}

}
