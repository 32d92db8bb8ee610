//! What holds of the samples as a whole: each fits its family, no two of a family share their
//! labels, what is reported is shown, and the totals are made up of what the valves show.
use crate::family::{Family, MetricKind};
use crate::json::Scalar;
use vstd::prelude::*;

verus! {

use crate::device::{
    common_service, sensor_service, valve_service, valve_set_service, CommonView, DeviceView,
    SensorView, ValveSetView, ValveView,
};
use crate::metrics::{
    all_samples, common_samples, device_info_labels, device_labels, device_samples, devices_flow,
    devices_samples, exporter_samples, known_flow, moment, moment_or_zero, one, or_empty, reading,
    sensor_samples, usage_water, valve_info_labels, valve_labels, valve_samples,
    valve_set_info_labels, valve_set_labels, valve_set_samples, valve_sets_samples, valves_flow,
    valves_samples, SampleView, ValueView,
};
use crate::ordered::{ascending, key_order, key_order_of_finite};
use crate::state::{
    latest_report_is_kept, resource_keeps_consistency, resource_touches_one_device, subject,
    FlowView, ResourceView, StateView,
};
use crate::text::{before, before_is_irreflexive};
use crate::usage::{totals_grow_with_time, weighed, weighed_adds_up, UsageView};

/// Whether a value can be shown by a family that counts in this way.
pub open spec fn countable(kind: MetricKind, value: ValueView) -> bool {
    match kind {
        MetricKind::IntGauge => value is Flag,
        MetricKind::IntCounter => value is Count,
        MetricKind::Counter => value is Span || value is Volume,
        MetricKind::Gauge => {
            ||| value is Flag
            ||| value is Timestamp
            ||| value is Reading
            ||| value is Flow
            ||| value is FlowSum
        },
    }
}

/// Whether a sample fits its family: a value for each label, and one of the right kind.
pub open spec fn fitting(sample: SampleView) -> bool {
    &&& sample.labels.len() == sample.family.spec_labels().len()
    &&& countable(sample.family.spec_kind(), sample.value)
}

/// No two samples of a family have the same labels.
pub open spec fn told_apart(samples: Seq<SampleView>) -> bool {
    forall|i: int, j: int|
        0 <= i < j < samples.len() ==> !((#[trigger] samples[i]).family == (
        #[trigger] samples[j]).family && samples[i].labels == samples[j].labels)
}

/// The place of a family in the order in which samples are collected.
spec fn place(family: Family) -> int {
    match family {
        Family::ExporterConnected => 0,
        Family::LastEventTimestamp => 1,
        Family::LastSnapshotTimestamp => 2,
        Family::LastSuccessfulSyncTimestamp => 3,
        Family::WebsocketReconnects => 4,
        Family::TokenRefreshes => 5,
        Family::SnapshotRefreshes => 6,
        Family::ExporterInfo => 7,
        Family::DeviceInfo => 8,
        Family::SensorInfo => 9,
        Family::BatteryLevel => 10,
        Family::BatteryLevelTimestamp => 11,
        Family::RfLinkLevel => 12,
        Family::RfLinkLevelTimestamp => 13,
        Family::SoilHumidity => 14,
        Family::SoilHumidityTimestamp => 15,
        Family::SoilTemperature => 16,
        Family::SoilTemperatureTimestamp => 17,
        Family::AmbientTemperature => 18,
        Family::AmbientTemperatureTimestamp => 19,
        Family::LightIntensity => 20,
        Family::LightIntensityTimestamp => 21,
        Family::ValveInfo => 22,
        Family::ValveOpen => 23,
        Family::ValveOpenTime => 24,
        Family::ValveFlow => 25,
        Family::ValveCurrentFlow => 26,
        Family::ValveWater => 27,
        Family::ValveDuration => 28,
        Family::ValveActivityTimestamp => 29,
        Family::ValveStateTimestamp => 30,
        Family::ValveSetInfo => 31,
        Family::ValveSetStateTimestamp => 32,
        Family::Water => 33,
        Family::CurrentFlow => 34,
    }
}

/// Samples whose families stand between two places and of which `ok` holds.
spec fn within(
    samples: Seq<SampleView>,
    low: int,
    high: int,
    ok: spec_fn(SampleView) -> bool,
) -> bool {
    forall|i: int|
        0 <= i < samples.len() ==> low <= place((#[trigger] samples[i]).family) < high && ok(
            samples[i],
        )
}

/// Samples of families in ascending order of place.
spec fn rising(samples: Seq<SampleView>) -> bool {
    forall|i: int, j: int|
        0 <= i < j < samples.len() ==> place((#[trigger] samples[i]).family) < place(
            (#[trigger] samples[j]).family,
        )
}

/// A piece of at most one sample, of the family at this place.
spec fn piece_at(piece: Seq<SampleView>, at: int, ok: spec_fn(SampleView) -> bool) -> bool {
    piece.len() <= 1 && (piece.len() == 1 ==> place(piece[0].family) == at && ok(piece[0]))
}

proof fn lemma_extended(
    samples: Seq<SampleView>,
    piece: Seq<SampleView>,
    low: int,
    at: int,
    ok: spec_fn(SampleView) -> bool,
)
    requires
        within(samples, low, at, ok),
        rising(samples),
        piece_at(piece, at, ok),
        low <= at,
    ensures
        within(samples + piece, low, at + 1, ok),
        rising(samples + piece),
{
    let whole = samples + piece;
    assert forall|i: int| 0 <= i < whole.len() implies low <= place((#[trigger] whole[i]).family)
        < at + 1 && ok(whole[i]) by {
        if i < samples.len() {
            assert(whole[i] == samples[i]);
        } else {
            assert(whole[i] == piece[0]);
        }
    }
    assert forall|i: int, j: int| 0 <= i < j < whole.len() implies place(
        (#[trigger] whole[i]).family,
    ) < place((#[trigger] whole[j]).family) by {
        assert(whole[i] == samples[i]);
        if j < samples.len() {
            assert(whole[j] == samples[j]);
        } else {
            assert(whole[j] == piece[0]);
        }
    }
}

proof fn lemma_rising_is_told_apart(samples: Seq<SampleView>)
    requires
        rising(samples),
    ensures
        told_apart(samples),
{
}

proof fn lemma_joined_told_apart(a: Seq<SampleView>, b: Seq<SampleView>)
    requires
        told_apart(a),
        told_apart(b),
        forall|i: int, j: int|
            0 <= i < a.len() && 0 <= j < b.len() ==> !((#[trigger] a[i]).family == (
            #[trigger] b[j]).family && a[i].labels == b[j].labels),
    ensures
        told_apart(a + b),
{
    let whole = a + b;
    assert forall|i: int, j: int| 0 <= i < j < whole.len() implies !((#[trigger] whole[i]).family
        == (#[trigger] whole[j]).family && whole[i].labels == whole[j].labels) by {
        if j < a.len() {
            assert(whole[i] == a[i] && whole[j] == a[j]);
        } else if i >= a.len() {
            assert(whole[i] == b[i - a.len()] && whole[j] == b[j - a.len()]);
        } else {
            assert(whole[i] == a[i] && whole[j] == b[j - a.len()]);
        }
    }
}

proof fn lemma_joined_within(
    a: Seq<SampleView>,
    b: Seq<SampleView>,
    low: int,
    high: int,
    ok: spec_fn(SampleView) -> bool,
)
    requires
        within(a, low, high, ok),
        within(b, low, high, ok),
    ensures
        within(a + b, low, high, ok),
{
    let whole = a + b;
    assert forall|i: int| 0 <= i < whole.len() implies low <= place((#[trigger] whole[i]).family)
        < high && ok(whole[i]) by {
        if i < a.len() {
            assert(whole[i] == a[i]);
        } else {
            assert(whole[i] == b[i - a.len()]);
        }
    }
}

/// Blocks of families at different places have no sample in common.
proof fn lemma_places_apart(
    a: Seq<SampleView>,
    b: Seq<SampleView>,
    low: int,
    middle: int,
    high: int,
    of_a: spec_fn(SampleView) -> bool,
    of_b: spec_fn(SampleView) -> bool,
)
    requires
        within(a, low, middle, of_a),
        within(b, middle, high, of_b),
        told_apart(a),
        told_apart(b),
    ensures
        told_apart(a + b),
{
    assert forall|i: int, j: int| 0 <= i < a.len() && 0 <= j < b.len() implies !((
    #[trigger] a[i]).family == (#[trigger] b[j]).family && a[i].labels == b[j].labels) by {
        assert(place(a[i].family) < middle);
        assert(place(b[j].family) >= middle);
    }
    lemma_joined_told_apart(a, b);
}

proof fn lemma_exporter_samples(state: StateView, version: Seq<char>)
    ensures
        within(exporter_samples(state, version), 0, 8, |s: SampleView| fitting(s)),
        rising(exporter_samples(state, version)),
{
    let ok = |s: SampleView| fitting(s);
    let none = Seq::<Seq<char>>::empty();
    let a = one(Family::ExporterConnected, none, ValueView::Flag(state.connected));
    let b = moment_or_zero(Family::LastEventTimestamp, none, state.last_event_timestamp);
    let c = moment_or_zero(Family::LastSnapshotTimestamp, none, state.last_snapshot_timestamp);
    let d = moment_or_zero(
        Family::LastSuccessfulSyncTimestamp,
        none,
        state.last_successful_sync_timestamp,
    );
    let e = one(
        Family::WebsocketReconnects,
        none,
        ValueView::Count(state.websocket_reconnects_total),
    );
    let f = one(Family::TokenRefreshes, none, ValueView::Count(state.token_refreshes_total));
    let g = one(
        Family::SnapshotRefreshes,
        none,
        ValueView::Count(state.snapshot_refreshes_total),
    );
    let h = one(
        Family::ExporterInfo,
        seq![version, or_empty(state.location_id), or_empty(state.location_name)],
        ValueView::Flag(true),
    );
    assert(within(a, 0, 1, ok) && rising(a));
    lemma_extended(a, b, 0, 1, ok);
    lemma_extended(a + b, c, 0, 2, ok);
    lemma_extended(a + b + c, d, 0, 3, ok);
    lemma_extended(a + b + c + d, e, 0, 4, ok);
    lemma_extended(a + b + c + d + e, f, 0, 5, ok);
    lemma_extended(a + b + c + d + e + f, g, 0, 6, ok);
    lemma_extended(a + b + c + d + e + f + g, h, 0, 7, ok);
}

/// Whether a sample fits and is labelled with the device.
spec fn of_device(id: Seq<char>) -> spec_fn(SampleView) -> bool {
    |s: SampleView| fitting(s) && s.labels.len() >= 4 && s.labels[1] == id
}

/// Whether a sample fits and is labelled with the device and the service.
spec fn of_service(id: Seq<char>, service: Seq<char>) -> spec_fn(SampleView) -> bool {
    |s: SampleView|
        fitting(s) && s.labels.len() >= 4 && s.labels[1] == id && s.labels[3] == service
}

/// Whether a sample fits and is labelled with the device and one of the services.
spec fn of_services(id: Seq<char>, services: Seq<Seq<char>>) -> spec_fn(SampleView) -> bool {
    |s: SampleView|
        fitting(s) && s.labels.len() >= 4 && s.labels[1] == id && services.contains(s.labels[3])
}

/// Whether a sample fits and is labelled with one of the devices.
spec fn of_devices(ids: Seq<Seq<char>>) -> spec_fn(SampleView) -> bool {
    |s: SampleView| fitting(s) && s.labels.len() >= 4 && ids.contains(s.labels[1])
}

proof fn lemma_common_samples(state: StateView, device: DeviceView, service: CommonView)
    ensures
        within(common_samples(state, device, service), 8, 14, of_device(device.id)),
        rising(common_samples(state, device, service)),
{
    let ok = of_device(device.id);
    let labels = device_labels(state, device);
    let info = device_info_labels(state, device);
    let a = one(Family::DeviceInfo, info, ValueView::Flag(true));
    let b = if device.sensor is Some {
        one(Family::SensorInfo, info, ValueView::Flag(true))
    } else {
        Seq::empty()
    };
    let c = reading(Family::BatteryLevel, labels, service.battery_level);
    let d = moment(Family::BatteryLevelTimestamp, labels, service.battery_level_timestamp);
    let e = reading(Family::RfLinkLevel, labels, service.rf_link_level);
    let f = moment(Family::RfLinkLevelTimestamp, labels, service.rf_link_level_timestamp);
    assert(within(a, 8, 9, ok) && rising(a));
    lemma_extended(a, b, 8, 9, ok);
    lemma_extended(a + b, c, 8, 10, ok);
    lemma_extended(a + b + c, d, 8, 11, ok);
    lemma_extended(a + b + c + d, e, 8, 12, ok);
    lemma_extended(a + b + c + d + e, f, 8, 13, ok);
}

proof fn lemma_sensor_samples(state: StateView, device: DeviceView, service: SensorView)
    ensures
        within(sensor_samples(state, device, service), 14, 22, of_device(device.id)),
        rising(sensor_samples(state, device, service)),
{
    let ok = of_device(device.id);
    let labels = device_labels(state, device);
    let a = reading(Family::SoilHumidity, labels, service.soil_humidity);
    let b = moment(Family::SoilHumidityTimestamp, labels, service.soil_humidity_timestamp);
    let c = reading(Family::SoilTemperature, labels, service.soil_temperature);
    let d = moment(Family::SoilTemperatureTimestamp, labels, service.soil_temperature_timestamp);
    let e = reading(Family::AmbientTemperature, labels, service.ambient_temperature);
    let f = moment(
        Family::AmbientTemperatureTimestamp,
        labels,
        service.ambient_temperature_timestamp,
    );
    let g = reading(Family::LightIntensity, labels, service.light_intensity);
    let h = moment(Family::LightIntensityTimestamp, labels, service.light_intensity_timestamp);
    assert(within(a, 14, 15, ok) && rising(a));
    lemma_extended(a, b, 14, 15, ok);
    lemma_extended(a + b, c, 14, 16, ok);
    lemma_extended(a + b + c, d, 14, 17, ok);
    lemma_extended(a + b + c + d, e, 14, 18, ok);
    lemma_extended(a + b + c + d + e, f, 14, 19, ok);
    lemma_extended(a + b + c + d + e + f, g, 14, 20, ok);
    lemma_extended(a + b + c + d + e + f + g, h, 14, 21, ok);
}

proof fn lemma_valve_samples(state: StateView, device: DeviceView, valve: ValveView, now: i64)
    ensures
        within(valve_samples(state, device, valve, now), 22, 31, of_service(device.id, valve.id)),
        rising(valve_samples(state, device, valve, now)),
{
    let ok = of_service(device.id, valve.id);
    let labels = valve_labels(state, device, valve);
    let totals = state.totals(valve.id, now);
    let a = one(
        Family::ValveInfo,
        valve_info_labels(state, device, valve),
        ValueView::Flag(true),
    );
    let b = one(
        Family::ValveOpen,
        labels,
        ValueView::Flag(valve.activity is Some && valve.activity != Some("CLOSED"@)),
    );
    let c = one(Family::ValveOpenTime, labels, ValueView::Span(totals.open_millis));
    let d = one(Family::ValveFlow, labels, ValueView::Flow(totals.flow_liters_per_minute));
    let e = one(
        Family::ValveCurrentFlow,
        labels,
        ValueView::Flow(totals.current_flow_liters_per_minute),
    );
    let f = one(Family::ValveWater, labels, ValueView::Volume(totals.metered));
    let g = reading(Family::ValveDuration, labels, valve.duration_seconds);
    let h = moment(Family::ValveActivityTimestamp, labels, valve.activity_timestamp);
    let k = moment(Family::ValveStateTimestamp, labels, valve.state_timestamp);
    assert(within(a, 22, 23, ok) && rising(a));
    lemma_extended(a, b, 22, 23, ok);
    lemma_extended(a + b, c, 22, 24, ok);
    lemma_extended(a + b + c, d, 22, 25, ok);
    lemma_extended(a + b + c + d, e, 22, 26, ok);
    lemma_extended(a + b + c + d + e, f, 22, 27, ok);
    lemma_extended(a + b + c + d + e + f, g, 22, 28, ok);
    lemma_extended(a + b + c + d + e + f + g, h, 22, 29, ok);
    lemma_extended(a + b + c + d + e + f + g + h, k, 22, 30, ok);
}

proof fn lemma_valve_set_samples(state: StateView, device: DeviceView, set: ValveSetView)
    ensures
        within(valve_set_samples(state, device, set), 31, 33, of_service(device.id, set.id)),
        rising(valve_set_samples(state, device, set)),
{
    let ok = of_service(device.id, set.id);
    let a = one(
        Family::ValveSetInfo,
        valve_set_info_labels(state, device, set),
        ValueView::Flag(true),
    );
    let b = moment(
        Family::ValveSetStateTimestamp,
        valve_set_labels(state, device, set),
        set.state_timestamp,
    );
    assert(within(a, 31, 32, ok) && rising(a));
    lemma_extended(a, b, 31, 32, ok);
}

/// The samples of one more service keep apart from those of the earlier ones.
proof fn lemma_services_apart(
    earlier: Seq<SampleView>,
    more: Seq<SampleView>,
    low: int,
    high: int,
    id: Seq<char>,
    services: Seq<Seq<char>>,
)
    requires
        services.len() > 0,
        ascending(services),
        told_apart(earlier),
        rising(more),
        within(earlier, low, high, of_services(id, services.drop_last())),
        within(more, low, high, of_service(id, services.last())),
    ensures
        told_apart(earlier + more),
        within(earlier + more, low, high, of_services(id, services)),
{
    let rest = services.drop_last();
    let last = services.last();
    lemma_rising_is_told_apart(more);
    assert(!rest.contains(last)) by {
        if rest.contains(last) {
            let p = choose|p: int| 0 <= p < rest.len() && rest[p] == last;
            assert(services[p] == last);
            before_is_irreflexive(last);
        }
    }
    assert forall|i: int, j: int| 0 <= i < earlier.len() && 0 <= j < more.len() implies !((
    #[trigger] earlier[i]).family == (#[trigger] more[j]).family && earlier[i].labels
        == more[j].labels) by {
        assert(rest.contains(earlier[i].labels[3]));
        assert(more[j].labels[3] == last);
    }
    lemma_joined_told_apart(earlier, more);
    let ok = of_services(id, services);
    assert forall|i: int| 0 <= i < earlier.len() implies low <= place(
        (#[trigger] earlier[i]).family,
    ) < high && ok(earlier[i]) by {
        let p = choose|p: int| 0 <= p < rest.len() && rest[p] == earlier[i].labels[3];
        assert(services[p] == earlier[i].labels[3]);
    }
    assert forall|i: int| 0 <= i < more.len() implies low <= place((#[trigger] more[i]).family)
        < high && ok(more[i]) by {
        assert(services[services.len() - 1] == more[i].labels[3]);
    }
    lemma_joined_within(earlier, more, low, high, ok);
}

proof fn lemma_valves_samples(
    state: StateView,
    device: DeviceView,
    ids: Seq<Seq<char>>,
    now: i64,
)
    requires
        ascending(ids),
        forall|i: int| 0 <= i < ids.len() ==> device.valves[#[trigger] ids[i]].id == ids[i],
    ensures
        told_apart(valves_samples(state, device, ids, now)),
        within(valves_samples(state, device, ids, now), 22, 31, of_services(device.id, ids)),
    decreases ids.len(),
{
    if ids.len() > 0 {
        let rest = ids.drop_last();
        assert forall|i: int| 0 <= i < rest.len() implies device.valves[#[trigger] rest[i]].id
            == rest[i] by {
            assert(rest[i] == ids[i]);
        }
        lemma_valves_samples(state, device, rest, now);
        let valve = device.valves[ids.last()];
        assert(valve.id == ids[ids.len() - 1]);
        lemma_valve_samples(state, device, valve, now);
        lemma_services_apart(
            valves_samples(state, device, rest, now),
            valve_samples(state, device, valve, now),
            22,
            31,
            device.id,
            ids,
        );
    }
}

proof fn lemma_valve_sets_samples(state: StateView, device: DeviceView, ids: Seq<Seq<char>>)
    requires
        ascending(ids),
        forall|i: int| 0 <= i < ids.len() ==> device.valve_sets[#[trigger] ids[i]].id == ids[i],
    ensures
        told_apart(valve_sets_samples(state, device, ids)),
        within(valve_sets_samples(state, device, ids), 31, 33, of_services(device.id, ids)),
    decreases ids.len(),
{
    if ids.len() > 0 {
        let rest = ids.drop_last();
        assert forall|i: int| 0 <= i < rest.len() implies device.valve_sets[#[trigger] rest[i]].id
            == rest[i] by {
            assert(rest[i] == ids[i]);
        }
        lemma_valve_sets_samples(state, device, rest);
        let set = device.valve_sets[ids.last()];
        assert(set.id == ids[ids.len() - 1]);
        lemma_valve_set_samples(state, device, set);
        lemma_services_apart(
            valve_sets_samples(state, device, rest),
            valve_set_samples(state, device, set),
            31,
            33,
            device.id,
            ids,
        );
    }
}

proof fn lemma_device_samples(state: StateView, device: DeviceView, now: i64)
    requires
        device.consistent(),
    ensures
        told_apart(device_samples(state, device, now)),
        within(device_samples(state, device, now), 8, 33, of_device(device.id)),
{
    let ok = of_device(device.id);
    let common = match device.common {
        Some(service) => common_samples(state, device, service),
        None => Seq::empty(),
    };
    let sensor = match device.sensor {
        Some(service) => sensor_samples(state, device, service),
        None => Seq::empty(),
    };
    if let Some(service) = device.common {
        lemma_common_samples(state, device, service);
    }
    if let Some(service) = device.sensor {
        lemma_sensor_samples(state, device, service);
    }
    lemma_rising_is_told_apart(common);
    lemma_rising_is_told_apart(sensor);
    let valve_ids = key_order(device.valves.dom());
    let set_ids = key_order(device.valve_sets.dom());
    key_order_of_finite(device.valves.dom());
    key_order_of_finite(device.valve_sets.dom());
    assert forall|i: int| 0 <= i < valve_ids.len() implies device.valves[
        #[trigger] valve_ids[i]].id == valve_ids[i] by {
        assert(valve_ids.to_set().contains(valve_ids[i]));
        assert(device.valves.contains_key(valve_ids[i]));
    }
    assert forall|i: int| 0 <= i < set_ids.len() implies device.valve_sets[
        #[trigger] set_ids[i]].id == set_ids[i] by {
        assert(set_ids.to_set().contains(set_ids[i]));
        assert(device.valve_sets.contains_key(set_ids[i]));
    }
    lemma_valves_samples(state, device, valve_ids, now);
    lemma_valve_sets_samples(state, device, set_ids);
    let valves = valves_samples(state, device, valve_ids, now);
    let sets = valve_sets_samples(state, device, set_ids);
    assert(within(common, 8, 22, ok));
    assert(within(sensor, 8, 22, ok));
    assert(within(valves, 8, 31, ok));
    assert(within(sets, 8, 33, ok));
    lemma_places_apart(common, sensor, 8, 14, 22, ok, ok);
    lemma_joined_within(common, sensor, 8, 22, ok);
    lemma_places_apart(
        common + sensor,
        valves,
        8,
        22,
        31,
        ok,
        of_services(device.id, valve_ids),
    );
    assert(within(common + sensor, 8, 31, ok));
    lemma_joined_within(common + sensor, valves, 8, 31, ok);
    lemma_places_apart(
        common + sensor + valves,
        sets,
        8,
        31,
        33,
        ok,
        of_services(device.id, set_ids),
    );
    assert(within(common + sensor + valves, 8, 33, ok));
    lemma_joined_within(common + sensor + valves, sets, 8, 33, ok);
}

proof fn lemma_devices_samples(state: StateView, ids: Seq<Seq<char>>, now: i64)
    requires
        ascending(ids),
        forall|i: int|
            0 <= i < ids.len() ==> state.devices[#[trigger] ids[i]].id == ids[i]
                && state.devices[ids[i]].consistent(),
    ensures
        told_apart(devices_samples(state, ids, now)),
        within(devices_samples(state, ids, now), 8, 33, of_devices(ids)),
    decreases ids.len(),
{
    if ids.len() > 0 {
        let rest = ids.drop_last();
        let last = ids.last();
        assert forall|i: int| 0 <= i < rest.len() implies state.devices[#[trigger] rest[i]].id
            == rest[i] && state.devices[rest[i]].consistent() by {
            assert(rest[i] == ids[i]);
        }
        lemma_devices_samples(state, rest, now);
        let device = state.devices[last];
        assert(device.id == ids[ids.len() - 1]);
        lemma_device_samples(state, device, now);
        let earlier = devices_samples(state, rest, now);
        let more = device_samples(state, device, now);
        assert(!rest.contains(last)) by {
            if rest.contains(last) {
                let p = choose|p: int| 0 <= p < rest.len() && rest[p] == last;
                assert(ids[p] == last);
                before_is_irreflexive(last);
            }
        }
        assert forall|i: int, j: int| 0 <= i < earlier.len() && 0 <= j < more.len() implies !((
        #[trigger] earlier[i]).family == (#[trigger] more[j]).family && earlier[i].labels
            == more[j].labels) by {
            assert(rest.contains(earlier[i].labels[1]));
            assert(more[j].labels[1] == last);
        }
        lemma_joined_told_apart(earlier, more);
        let ok = of_devices(ids);
        assert forall|i: int| 0 <= i < earlier.len() implies 8 <= place(
            (#[trigger] earlier[i]).family,
        ) < 33 && ok(earlier[i]) by {
            let p = choose|p: int| 0 <= p < rest.len() && rest[p] == earlier[i].labels[1];
            assert(ids[p] == earlier[i].labels[1]);
        }
        assert forall|i: int| 0 <= i < more.len() implies 8 <= place((#[trigger] more[i]).family)
            < 33 && ok(more[i]) by {
            assert(ids[ids.len() - 1] == more[i].labels[1]);
        }
        lemma_joined_within(earlier, more, 8, 33, ok);
    }
}

/// Of a consistent cache every sample fits its family, and no two samples of a family have the
/// same labels.
pub proof fn samples_are_well_formed(state: StateView, version: Seq<char>, now: i64)
    requires
        state.consistent(),
    ensures
        forall|i: int|
            0 <= i < all_samples(state, version, now).len() ==> fitting(
                #[trigger] all_samples(state, version, now)[i],
            ),
        told_apart(all_samples(state, version, now)),
{
    let ids = key_order(state.devices.dom());
    let none = Seq::<Seq<char>>::empty();
    let fits = |s: SampleView| fitting(s);
    key_order_of_finite(state.devices.dom());
    assert forall|i: int| 0 <= i < ids.len() implies state.devices[#[trigger] ids[i]].id == ids[i]
        && state.devices[ids[i]].consistent() by {
        assert(ids.to_set().contains(ids[i]));
        assert(state.devices.contains_key(ids[i]));
    }
    let exporter = exporter_samples(state, version);
    let devices = devices_samples(state, ids, now);
    let water = one(
        Family::Water,
        none,
        ValueView::Volume(usage_water(state, key_order(state.valve_usage.dom()), now)),
    );
    let flow = one(Family::CurrentFlow, none, ValueView::FlowSum(devices_flow(state, ids, now)));
    lemma_exporter_samples(state, version);
    lemma_rising_is_told_apart(exporter);
    lemma_devices_samples(state, ids, now);
    assert(within(devices, 8, 33, fits));
    lemma_places_apart(exporter, devices, 0, 8, 33, fits, fits);
    assert(within(exporter, 0, 33, fits));
    assert(within(devices, 0, 33, fits));
    lemma_joined_within(exporter, devices, 0, 33, fits);
    assert(within(water, 33, 34, fits) && rising(water));
    lemma_rising_is_told_apart(water);
    lemma_places_apart(exporter + devices, water, 0, 33, 34, fits, fits);
    assert(within(exporter + devices, 0, 34, fits));
    assert(within(water, 0, 34, fits));
    lemma_joined_within(exporter + devices, water, 0, 34, fits);
    assert(within(flow, 34, 35, fits) && rising(flow));
    lemma_rising_is_told_apart(flow);
    lemma_places_apart(exporter + devices + water, flow, 0, 34, 35, fits, fits);
    assert(within(exporter + devices + water, 0, 35, fits));
    assert(within(flow, 0, 35, fits));
    lemma_joined_within(exporter + devices + water, flow, 0, 35, fits);
}

/// The sum of what `part` makes of each sample.
pub open spec fn summed(samples: Seq<SampleView>, part: spec_fn(SampleView) -> int) -> int
    decreases samples.len(),
{
    if samples.len() == 0 {
        0
    } else {
        summed(samples.drop_last(), part) + part(samples.last())
    }
}

/// The volume that a sample of a valve shows, weighed by what `rate` makes of a flow rate.
pub open spec fn valve_volume(rate: spec_fn(Scalar) -> int) -> spec_fn(SampleView) -> int {
    |sample: SampleView|
        if sample.family == Family::ValveWater {
            match sample.value {
                ValueView::Volume(metered) => weighed(metered, rate),
                _ => 0,
            }
        } else {
            0
        }
}

/// The present flow that a sample of a valve shows, by what `rate` makes of a flow rate.
pub open spec fn valve_flow(rate: spec_fn(Scalar) -> int) -> spec_fn(SampleView) -> int {
    |sample: SampleView|
        if sample.family == Family::ValveCurrentFlow {
            match sample.value {
                ValueView::Flow(Some(flow)) => rate(flow),
                _ => 0,
            }
        } else {
            0
        }
}

/// The sum of flow rates, by what `rate` makes of each.
pub open spec fn flow_total(flows: Seq<Scalar>, rate: spec_fn(Scalar) -> int) -> int
    decreases flows.len(),
{
    if flows.len() == 0 {
        0
    } else {
        flow_total(flows.drop_last(), rate) + rate(flows.last())
    }
}

proof fn lemma_summed_joined(
    a: Seq<SampleView>,
    b: Seq<SampleView>,
    part: spec_fn(SampleView) -> int,
)
    ensures
        summed(a + b, part) == summed(a, part) + summed(b, part),
    decreases b.len(),
{
    if b.len() == 0 {
        assert(a + b =~= a);
    } else {
        lemma_summed_joined(a, b.drop_last(), part);
        assert((a + b).drop_last() =~= a + b.drop_last());
    }
}

proof fn lemma_flow_total_joined(a: Seq<Scalar>, b: Seq<Scalar>, rate: spec_fn(Scalar) -> int)
    ensures
        flow_total(a + b, rate) == flow_total(a, rate) + flow_total(b, rate),
    decreases b.len(),
{
    if b.len() == 0 {
        assert(a + b =~= a);
    } else {
        lemma_flow_total_joined(a, b.drop_last(), rate);
        assert((a + b).drop_last() =~= a + b.drop_last());
    }
}

proof fn lemma_summed_outside(
    samples: Seq<SampleView>,
    low: int,
    high: int,
    ok: spec_fn(SampleView) -> bool,
    rate: spec_fn(Scalar) -> int,
)
    requires
        within(samples, low, high, ok),
        high <= 26 || low >= 28,
    ensures
        summed(samples, valve_volume(rate)) == 0,
        summed(samples, valve_flow(rate)) == 0,
    decreases samples.len(),
{
    if samples.len() > 0 {
        let rest = samples.drop_last();
        assert forall|i: int| 0 <= i < rest.len() implies low <= place(
            (#[trigger] rest[i]).family,
        ) < high && ok(rest[i]) by {
            assert(rest[i] == samples[i]);
        }
        lemma_summed_outside(rest, low, high, ok, rate);
        assert(low <= place(samples[samples.len() - 1].family) < high);
    }
}

proof fn lemma_summed_piece(piece: Seq<SampleView>, part: spec_fn(SampleView) -> int)
    requires
        piece.len() <= 1,
    ensures
        summed(piece, part) == if piece.len() == 1 {
            part(piece[0])
        } else {
            0
        },
{
    reveal_with_fuel(summed, 2);
}

proof fn lemma_summed_valve(
    state: StateView,
    device: DeviceView,
    valve: ValveView,
    now: i64,
    rate: spec_fn(Scalar) -> int,
)
    ensures
        summed(valve_samples(state, device, valve, now), valve_volume(rate)) == weighed(
            state.totals(valve.id, now).metered,
            rate,
        ),
        summed(valve_samples(state, device, valve, now), valve_flow(rate)) == flow_total(
            known_flow(state.totals(valve.id, now).current_flow_liters_per_minute),
            rate,
        ),
{
    let labels = valve_labels(state, device, valve);
    let totals = state.totals(valve.id, now);
    let a = one(
        Family::ValveInfo,
        valve_info_labels(state, device, valve),
        ValueView::Flag(true),
    );
    let b = one(
        Family::ValveOpen,
        labels,
        ValueView::Flag(valve.activity is Some && valve.activity != Some("CLOSED"@)),
    );
    let c = one(Family::ValveOpenTime, labels, ValueView::Span(totals.open_millis));
    let d = one(Family::ValveFlow, labels, ValueView::Flow(totals.flow_liters_per_minute));
    let e = one(
        Family::ValveCurrentFlow,
        labels,
        ValueView::Flow(totals.current_flow_liters_per_minute),
    );
    let f = one(Family::ValveWater, labels, ValueView::Volume(totals.metered));
    let g = reading(Family::ValveDuration, labels, valve.duration_seconds);
    let h = moment(Family::ValveActivityTimestamp, labels, valve.activity_timestamp);
    let k = moment(Family::ValveStateTimestamp, labels, valve.state_timestamp);
    lemma_summed_in_turn(a, b, c, d, e, f, g, h, k, valve_volume(rate));
    lemma_summed_in_turn(a, b, c, d, e, f, g, h, k, valve_flow(rate));
    reveal_with_fuel(flow_total, 2);
}

proof fn lemma_summed_in_turn(
    a: Seq<SampleView>,
    b: Seq<SampleView>,
    c: Seq<SampleView>,
    d: Seq<SampleView>,
    e: Seq<SampleView>,
    f: Seq<SampleView>,
    g: Seq<SampleView>,
    h: Seq<SampleView>,
    k: Seq<SampleView>,
    part: spec_fn(SampleView) -> int,
)
    requires
        a.len() == 1,
        b.len() == 1,
        c.len() == 1,
        d.len() == 1,
        e.len() == 1,
        f.len() == 1,
        g.len() <= 1,
        h.len() <= 1,
        k.len() <= 1,
        part(a[0]) == 0,
        part(b[0]) == 0,
        part(c[0]) == 0,
        part(d[0]) == 0,
        g.len() == 1 ==> part(g[0]) == 0,
        h.len() == 1 ==> part(h[0]) == 0,
        k.len() == 1 ==> part(k[0]) == 0,
    ensures
        summed(a + b + c + d + e + f + g + h + k, part) == part(e[0]) + part(f[0]),
{
    lemma_summed_piece(a, part);
    lemma_summed_piece(b, part);
    lemma_summed_piece(c, part);
    lemma_summed_piece(d, part);
    lemma_summed_piece(e, part);
    lemma_summed_piece(f, part);
    lemma_summed_piece(g, part);
    lemma_summed_piece(h, part);
    lemma_summed_piece(k, part);
    lemma_summed_joined(a, b, part);
    lemma_summed_joined(a + b, c, part);
    lemma_summed_joined(a + b + c, d, part);
    lemma_summed_joined(a + b + c + d, e, part);
    lemma_summed_joined(a + b + c + d + e, f, part);
    lemma_summed_joined(a + b + c + d + e + f, g, part);
    lemma_summed_joined(a + b + c + d + e + f + g, h, part);
    lemma_summed_joined(a + b + c + d + e + f + g + h, k, part);
}

proof fn lemma_summed_valves(
    state: StateView,
    device: DeviceView,
    ids: Seq<Seq<char>>,
    now: i64,
    rate: spec_fn(Scalar) -> int,
)
    ensures
        summed(valves_samples(state, device, ids, now), valve_volume(rate)) == volume_of(
            state,
            own_ids(device, ids),
            now,
            rate,
        ),
        summed(valves_samples(state, device, ids, now), valve_flow(rate)) == flow_total(
            valves_flow(state, device, ids, now),
            rate,
        ),
    decreases ids.len(),
{
    if ids.len() > 0 {
        let rest = ids.drop_last();
        let valve = device.valves[ids.last()];
        let totals = state.totals(valve.id, now);
        let earlier = valves_samples(state, device, rest, now);
        let more = valve_samples(state, device, valve, now);
        lemma_summed_valves(state, device, rest, now, rate);
        lemma_summed_valve(state, device, valve, now, rate);
        lemma_summed_joined(earlier, more, valve_volume(rate));
        lemma_summed_joined(earlier, more, valve_flow(rate));
        assert(own_ids(device, ids).drop_last() =~= own_ids(device, rest));
        lemma_flow_total_joined(
            valves_flow(state, device, rest, now),
            known_flow(totals.current_flow_liters_per_minute),
            rate,
        );
    }
}

proof fn lemma_summed_sets(
    state: StateView,
    device: DeviceView,
    ids: Seq<Seq<char>>,
    rate: spec_fn(Scalar) -> int,
)
    ensures
        summed(valve_sets_samples(state, device, ids), valve_volume(rate)) == 0,
        summed(valve_sets_samples(state, device, ids), valve_flow(rate)) == 0,
    decreases ids.len(),
{
    if ids.len() > 0 {
        let rest = ids.drop_last();
        let set = device.valve_sets[ids.last()];
        let earlier = valve_sets_samples(state, device, rest);
        let more = valve_set_samples(state, device, set);
        lemma_summed_sets(state, device, rest, rate);
        lemma_valve_set_samples(state, device, set);
        lemma_summed_outside(more, 31, 33, of_service(device.id, set.id), rate);
        lemma_summed_joined(earlier, more, valve_volume(rate));
        lemma_summed_joined(earlier, more, valve_flow(rate));
    }
}

proof fn lemma_summed_device(
    state: StateView,
    device: DeviceView,
    now: i64,
    rate: spec_fn(Scalar) -> int,
)
    ensures
        summed(device_samples(state, device, now), valve_volume(rate)) == volume_of(
            state,
            own_ids(device, key_order(device.valves.dom())),
            now,
            rate,
        ),
        summed(device_samples(state, device, now), valve_flow(rate)) == flow_total(
            valves_flow(state, device, key_order(device.valves.dom()), now),
            rate,
        ),
{
    let ok = of_device(device.id);
    let common = match device.common {
        Some(service) => common_samples(state, device, service),
        None => Seq::empty(),
    };
    let sensor = match device.sensor {
        Some(service) => sensor_samples(state, device, service),
        None => Seq::empty(),
    };
    if let Some(service) = device.common {
        lemma_common_samples(state, device, service);
    }
    if let Some(service) = device.sensor {
        lemma_sensor_samples(state, device, service);
    }
    lemma_summed_outside(common, 8, 14, ok, rate);
    lemma_summed_outside(sensor, 14, 22, ok, rate);
    let valves = valves_samples(state, device, key_order(device.valves.dom()), now);
    let sets = valve_sets_samples(state, device, key_order(device.valve_sets.dom()));
    lemma_summed_valves(state, device, key_order(device.valves.dom()), now, rate);
    lemma_summed_sets(state, device, key_order(device.valve_sets.dom()), rate);
    lemma_summed_joined(common, sensor, valve_volume(rate));
    lemma_summed_joined(common + sensor, valves, valve_volume(rate));
    lemma_summed_joined(common + sensor + valves, sets, valve_volume(rate));
    lemma_summed_joined(common, sensor, valve_flow(rate));
    lemma_summed_joined(common + sensor, valves, valve_flow(rate));
    lemma_summed_joined(common + sensor + valves, sets, valve_flow(rate));
}

proof fn lemma_summed_devices(
    state: StateView,
    ids: Seq<Seq<char>>,
    now: i64,
    rate: spec_fn(Scalar) -> int,
)
    ensures
        summed(devices_samples(state, ids, now), valve_volume(rate)) == volume_of(
            state,
            shown_valves(state, ids),
            now,
            rate,
        ),
        summed(devices_samples(state, ids, now), valve_flow(rate)) == flow_total(
            devices_flow(state, ids, now),
            rate,
        ),
    decreases ids.len(),
{
    if ids.len() > 0 {
        let rest = ids.drop_last();
        let device = state.devices[ids.last()];
        let earlier = devices_samples(state, rest, now);
        let more = device_samples(state, device, now);
        let valve_ids = key_order(device.valves.dom());
        lemma_summed_devices(state, rest, now, rate);
        lemma_summed_device(state, device, now, rate);
        lemma_summed_joined(earlier, more, valve_volume(rate));
        lemma_summed_joined(earlier, more, valve_flow(rate));
        lemma_volume_joined(
            state,
            shown_valves(state, rest),
            own_ids(device, valve_ids),
            now,
            rate,
        );
        lemma_flow_total_joined(
            devices_flow(state, rest, now),
            valves_flow(state, device, valve_ids, now),
            rate,
        );
    }
}

proof fn lemma_summed_all(
    state: StateView,
    version: Seq<char>,
    now: i64,
    rate: spec_fn(Scalar) -> int,
)
    ensures
        ({
            let samples = all_samples(state, version, now);
            let ids = key_order(state.devices.dom());
            &&& summed(samples, valve_volume(rate)) == volume_of(
                state,
                shown_valves(state, ids),
                now,
                rate,
            )
            &&& summed(samples, valve_flow(rate)) == flow_total(
                devices_flow(state, ids, now),
                rate,
            )
        }),
{
    let ids = key_order(state.devices.dom());
    let none = Seq::<Seq<char>>::empty();
    let fits = |s: SampleView| fitting(s);
    let exporter = exporter_samples(state, version);
    let devices = devices_samples(state, ids, now);
    let water = one(
        Family::Water,
        none,
        ValueView::Volume(usage_water(state, key_order(state.valve_usage.dom()), now)),
    );
    let flow = one(Family::CurrentFlow, none, ValueView::FlowSum(devices_flow(state, ids, now)));
    lemma_exporter_samples(state, version);
    lemma_summed_outside(exporter, 0, 8, fits, rate);
    lemma_summed_devices(state, ids, now, rate);
    lemma_summed_piece(water, valve_volume(rate));
    lemma_summed_piece(water, valve_flow(rate));
    lemma_summed_piece(flow, valve_volume(rate));
    lemma_summed_piece(flow, valve_flow(rate));
    lemma_summed_joined(exporter, devices, valve_volume(rate));
    lemma_summed_joined(exporter + devices, water, valve_volume(rate));
    lemma_summed_joined(exporter + devices + water, flow, valve_volume(rate));
    lemma_summed_joined(exporter, devices, valve_flow(rate));
    lemma_summed_joined(exporter + devices, water, valve_flow(rate));
    lemma_summed_joined(exporter + devices + water, flow, valve_flow(rate));
}

/// The present flow that is shown for the whole garden is the sum of those shown for its valves,
/// whatever the flow rates amount to.
pub proof fn total_flow_is_sum_over_valves(
    state: StateView,
    version: Seq<char>,
    now: i64,
    rate: spec_fn(Scalar) -> int,
)
    ensures
        ({
            let samples = all_samples(state, version, now);
            let flow = samples[samples.len() - 1];
            &&& samples.len() >= 2
            &&& flow.family == Family::CurrentFlow
            &&& flow.value matches ValueView::FlowSum(flows) && flow_total(flows, rate) == summed(
                samples,
                valve_flow(rate),
            )
        }),
{
    lemma_summed_all(state, version, now, rate);
}

/// Whether a valve is in a device.
pub open spec fn in_some_device(state: StateView, valve_id: Seq<char>) -> bool {
    exists|id: Seq<char>| #[trigger]
        state.devices.contains_key(id) && state.devices[id].valves.contains_key(valve_id)
}

/// No valve is in two devices.
pub open spec fn in_one_device_each(state: StateView) -> bool {
    forall|a: Seq<char>, b: Seq<char>, valve_id: Seq<char>|
        state.devices.contains_key(a) && state.devices.contains_key(b)
            && #[trigger] state.devices[a].valves.contains_key(valve_id)
            && #[trigger] state.devices[b].valves.contains_key(valve_id) ==> a == b
}

/// The valves among these that are in no device any more.
pub open spec fn departed(state: StateView, ids: Seq<Seq<char>>) -> Seq<Seq<char>>
    decreases ids.len(),
{
    if ids.len() == 0 {
        Seq::empty()
    } else if in_some_device(state, ids.last()) {
        departed(state, ids.drop_last())
    } else {
        departed(state, ids.drop_last()).push(ids.last())
    }
}

/// The sum of what valves have let through, each weighed by what `rate` makes of a flow rate.
pub open spec fn volume_of(
    state: StateView,
    ids: Seq<Seq<char>>,
    now: i64,
    rate: spec_fn(Scalar) -> int,
) -> int
    decreases ids.len(),
{
    if ids.len() == 0 {
        0
    } else {
        volume_of(state, ids.drop_last(), now, rate) + weighed(
            state.totals(ids.last(), now).metered,
            rate,
        )
    }
}

/// The identifiers that the valves of a device under these keys have.
spec fn own_ids(device: DeviceView, ids: Seq<Seq<char>>) -> Seq<Seq<char>> {
    ids.map_values(|id: Seq<char>| device.valves[id].id)
}

/// The identifiers of the valves of the devices under these keys.
spec fn shown_valves(state: StateView, ids: Seq<Seq<char>>) -> Seq<Seq<char>>
    decreases ids.len(),
{
    if ids.len() == 0 {
        Seq::empty()
    } else {
        let device = state.devices[ids.last()];
        shown_valves(state, ids.drop_last()) + own_ids(device, key_order(device.valves.dom()))
    }
}

proof fn lemma_volume_joined(
    state: StateView,
    a: Seq<Seq<char>>,
    b: Seq<Seq<char>>,
    now: i64,
    rate: spec_fn(Scalar) -> int,
)
    ensures
        volume_of(state, a + b, now, rate) == volume_of(state, a, now, rate) + volume_of(
            state,
            b,
            now,
            rate,
        ),
    decreases b.len(),
{
    if b.len() == 0 {
        assert(a + b =~= a);
    } else {
        lemma_volume_joined(state, a, b.drop_last(), now, rate);
        assert((a + b).drop_last() =~= a + b.drop_last());
    }
}

proof fn lemma_volume_weighed(
    state: StateView,
    ids: Seq<Seq<char>>,
    now: i64,
    rate: spec_fn(Scalar) -> int,
)
    ensures
        weighed(usage_water(state, ids, now), rate) == volume_of(state, ids, now, rate),
    decreases ids.len(),
{
    if ids.len() > 0 {
        let rest = ids.drop_last();
        lemma_volume_weighed(state, rest, now, rate);
        weighed_adds_up(
            usage_water(state, rest, now),
            state.totals(ids.last(), now).metered,
            rate,
        );
    }
}

/// The order of valves makes no difference to their volume.
proof fn lemma_volume_in_any_order(
    state: StateView,
    s: Seq<Seq<char>>,
    t: Seq<Seq<char>>,
    now: i64,
    rate: spec_fn(Scalar) -> int,
)
    requires
        s.no_duplicates(),
        t.no_duplicates(),
        forall|id: Seq<char>| #[trigger] s.contains(id) <==> t.contains(id),
    ensures
        volume_of(state, s, now, rate) == volume_of(state, t, now, rate),
    decreases s.len(),
{
    if s.len() == 0 {
        if t.len() > 0 {
            assert(t.contains(t[0]));
            assert(s.contains(t[0]));
        }
    } else {
        let last = s.last();
        let rest = s.drop_last();
        assert(s.contains(last));
        let i = choose|i: int| 0 <= i < t.len() && t[i] == last;
        let head = t.take(i);
        let tail = t.skip(i + 1);
        let middle = seq![last];
        let others = head + tail;
        assert(t =~= head + middle + tail);
        lemma_volume_joined(state, head, middle, now, rate);
        lemma_volume_joined(state, head + middle, tail, now, rate);
        lemma_volume_joined(state, head, tail, now, rate);
        assert(middle.drop_last() =~= Seq::empty());
        assert(volume_of(state, middle, now, rate) == weighed(
            state.totals(last, now).metered,
            rate,
        )) by {
            reveal_with_fuel(volume_of, 2);
        }
        assert forall|p: int, q: int| 0 <= p < others.len() && 0 <= q < others.len() && p
            != q implies others[p] != others[q] by {
            let x = if p < i {
                p
            } else {
                p + 1
            };
            let y = if q < i {
                q
            } else {
                q + 1
            };
            assert(others[p] == t[x] && others[q] == t[y]);
        }
        assert forall|id: Seq<char>| #[trigger] rest.contains(id) <==> others.contains(id) by {
            if rest.contains(id) {
                let p = choose|p: int| 0 <= p < rest.len() && rest[p] == id;
                assert(s[p] == id);
                assert(s.contains(id));
                let q = choose|q: int| 0 <= q < t.len() && t[q] == id;
                assert(q != i);
                if q < i {
                    assert(others[q] == id);
                } else {
                    assert(others[q - 1] == id);
                }
            }
            if others.contains(id) {
                let q = choose|q: int| 0 <= q < others.len() && others[q] == id;
                let y = if q < i {
                    q
                } else {
                    q + 1
                };
                assert(t[y] == id);
                assert(t.contains(id));
                assert(s.contains(id));
                let p = choose|p: int| 0 <= p < s.len() && s[p] == id;
                assert(p != s.len() - 1);
                assert(rest[p] == id);
            }
        }
        lemma_volume_in_any_order(state, rest, others, now, rate);
    }
}

proof fn lemma_ascending_without_duplicates(ids: Seq<Seq<char>>)
    requires
        ascending(ids),
    ensures
        ids.no_duplicates(),
{
    assert forall|i: int, j: int|
        0 <= i < ids.len() && 0 <= j < ids.len() && i != j implies ids[i] != ids[j] by {
        before_is_irreflexive(ids[i]);
        if i < j {
            assert(before(ids[i], ids[j]));
        } else {
            assert(before(ids[j], ids[i]));
        }
    }
}

proof fn lemma_departed(state: StateView, ids: Seq<Seq<char>>)
    requires
        ids.no_duplicates(),
    ensures
        departed(state, ids).no_duplicates(),
        forall|id: Seq<char>| #[trigger]
            departed(state, ids).contains(id) <==> ids.contains(id) && !in_some_device(state, id),
    decreases ids.len(),
{
    if ids.len() > 0 {
        let rest = ids.drop_last();
        let last = ids.last();
        lemma_departed(state, rest);
        let earlier = departed(state, rest);
        let whole = departed(state, ids);
        assert(!rest.contains(last)) by {
            if rest.contains(last) {
                let p = choose|p: int| 0 <= p < rest.len() && rest[p] == last;
                assert(ids[p] == ids[ids.len() - 1]);
            }
        }
        assert(!earlier.contains(last));
        if !in_some_device(state, last) {
            assert forall|p: int, q: int| 0 <= p < whole.len() && 0 <= q < whole.len() && p
                != q implies whole[p] != whole[q] by {
                if p == earlier.len() {
                    assert(earlier.contains(earlier[q]));
                } else if q == earlier.len() {
                    assert(earlier.contains(earlier[p]));
                }
            }
        }
        assert forall|id: Seq<char>| #[trigger] whole.contains(id) <==> ids.contains(id)
            && !in_some_device(state, id) by {
            if ids.contains(id) && id != last {
                let p = choose|p: int| 0 <= p < ids.len() && ids[p] == id;
                assert(rest[p] == id);
            }
            if rest.contains(id) {
                let p = choose|p: int| 0 <= p < rest.len() && rest[p] == id;
                assert(ids[p] == id);
            }
            assert(ids[ids.len() - 1] == last);
            if earlier.contains(id) {
                let p = choose|p: int| 0 <= p < earlier.len() && earlier[p] == id;
                assert(whole[p] == id);
            }
            if !in_some_device(state, last) {
                assert(whole[earlier.len() as int] == last);
            }
            if whole.contains(id) && id != last {
                let p = choose|p: int| 0 <= p < whole.len() && whole[p] == id;
                assert(earlier[p] == id);
            }
        }
    } else {
        assert(departed(state, ids) =~= Seq::empty());
    }
}

proof fn lemma_shown_valves(state: StateView, ids: Seq<Seq<char>>)
    requires
        state.consistent(),
        in_one_device_each(state),
        ids.no_duplicates(),
        forall|i: int| 0 <= i < ids.len() ==> state.devices.contains_key(#[trigger] ids[i]),
    ensures
        shown_valves(state, ids).no_duplicates(),
        forall|valve_id: Seq<char>| #[trigger]
            shown_valves(state, ids).contains(valve_id) <==> exists|i: int|
                0 <= i < ids.len() && state.devices[#[trigger] ids[i]].valves.contains_key(
                    valve_id,
                ),
    decreases ids.len(),
{
    if ids.len() > 0 {
        let rest = ids.drop_last();
        let last = ids.last();
        assert(ids[ids.len() - 1] == last);
        let device = state.devices[last];
        assert forall|i: int| 0 <= i < rest.len() implies state.devices.contains_key(
            #[trigger] rest[i],
        ) by {
            assert(rest[i] == ids[i]);
        }
        lemma_shown_valves(state, rest);
        let order = key_order(device.valves.dom());
        key_order_of_finite(device.valves.dom());
        lemma_ascending_without_duplicates(order);
        let earlier = shown_valves(state, rest);
        let more = own_ids(device, order);
        assert forall|k: int| 0 <= k < order.len() implies more[k] == #[trigger] order[k] by {
            assert(order.to_set().contains(order[k]));
            assert(device.valves.contains_key(order[k]));
        }
        assert(more =~= order);
        assert forall|valve_id: Seq<char>| #[trigger]
            more.contains(valve_id) <==> device.valves.contains_key(valve_id) by {
            assert(order.to_set().contains(valve_id) <==> order.contains(valve_id));
        }
        let whole = earlier + more;
        assert forall|p: int, q: int| 0 <= p < whole.len() && 0 <= q < whole.len() && p
            != q implies whole[p] != whole[q] by {
            if whole[p] == whole[q] {
                let valve_id = whole[p];
                if (p < earlier.len()) != (q < earlier.len()) {
                    let x = if p < earlier.len() {
                        p
                    } else {
                        q
                    };
                    let y = if p < earlier.len() {
                        q
                    } else {
                        p
                    };
                    assert(earlier[x] == valve_id);
                    assert(more[y - earlier.len()] == valve_id);
                    assert(earlier.contains(valve_id));
                    assert(more.contains(valve_id));
                    let i = choose|i: int|
                        0 <= i < rest.len()
                            && state.devices[#[trigger] rest[i]].valves.contains_key(valve_id);
                    assert(rest[i] == ids[i]);
                    assert(rest[i] == last);
                } else if p < earlier.len() {
                    assert(earlier[p] == earlier[q]);
                } else {
                    assert(more[p - earlier.len()] == more[q - earlier.len()]);
                }
            }
        }
        assert forall|valve_id: Seq<char>| #[trigger]
            whole.contains(valve_id) <==> exists|i: int|
                0 <= i < ids.len() && state.devices[#[trigger] ids[i]].valves.contains_key(
                    valve_id,
                ) by {
            if whole.contains(valve_id) {
                let p = choose|p: int| 0 <= p < whole.len() && whole[p] == valve_id;
                if p < earlier.len() {
                    assert(earlier[p] == valve_id);
                    assert(earlier.contains(valve_id));
                    let i = choose|i: int|
                        0 <= i < rest.len()
                            && state.devices[#[trigger] rest[i]].valves.contains_key(valve_id);
                    assert(ids[i] == rest[i]);
                } else {
                    assert(more[p - earlier.len()] == valve_id);
                    assert(more.contains(valve_id));
                }
            }
            if exists|i: int|
                0 <= i < ids.len() && state.devices[#[trigger] ids[i]].valves.contains_key(
                    valve_id,
                ) {
                let i = choose|i: int|
                    0 <= i < ids.len() && state.devices[#[trigger] ids[i]].valves.contains_key(
                        valve_id,
                    );
                if i < rest.len() {
                    assert(rest[i] == ids[i]);
                    assert(earlier.contains(valve_id));
                    let p = choose|p: int| 0 <= p < earlier.len() && earlier[p] == valve_id;
                    assert(whole[p] == valve_id);
                } else {
                    assert(more.contains(valve_id));
                    let p = choose|p: int| 0 <= p < more.len() && more[p] == valve_id;
                    assert(whole[earlier.len() + p] == valve_id);
                }
            }
        }
    }
}

/// The volume that is shown for the whole garden is the sum of those shown for its valves and of
/// what the valves have let through that are in no device any more, whatever the flow rates
/// amount to.
pub proof fn total_volume_is_sum_over_valves(
    state: StateView,
    version: Seq<char>,
    now: i64,
    rate: spec_fn(Scalar) -> int,
)
    requires
        state.consistent(),
        in_one_device_each(state),
    ensures
        ({
            let samples = all_samples(state, version, now);
            let water = samples[samples.len() - 2];
            let gone = departed(state, key_order(state.valve_usage.dom()));
            &&& samples.len() >= 2
            &&& water.family == Family::Water
            &&& water.value matches ValueView::Volume(metered) && weighed(metered, rate) == summed(
                samples,
                valve_volume(rate),
            ) + volume_of(state, gone, now, rate)
        }),
{
    let ids = key_order(state.devices.dom());
    let all = key_order(state.valve_usage.dom());
    let here = shown_valves(state, ids);
    let gone = departed(state, all);
    let both = here + gone;
    lemma_summed_all(state, version, now, rate);
    lemma_volume_weighed(state, all, now, rate);
    key_order_of_finite(state.devices.dom());
    key_order_of_finite(state.valve_usage.dom());
    lemma_ascending_without_duplicates(ids);
    lemma_ascending_without_duplicates(all);
    lemma_departed(state, all);
    assert forall|i: int| 0 <= i < ids.len() implies state.devices.contains_key(
        #[trigger] ids[i],
    ) by {
        assert(ids.to_set().contains(ids[i]));
    }
    lemma_shown_valves(state, ids);
    assert forall|valve_id: Seq<char>| #[trigger]
        here.contains(valve_id) <==> in_some_device(state, valve_id) by {
        if here.contains(valve_id) {
            let i = choose|i: int|
                0 <= i < ids.len() && state.devices[#[trigger] ids[i]].valves.contains_key(
                    valve_id,
                );
            assert(state.devices.contains_key(ids[i]));
        }
        if in_some_device(state, valve_id) {
            let id = choose|id: Seq<char>| #[trigger]
                state.devices.contains_key(id) && state.devices[id].valves.contains_key(valve_id);
            assert(ids.to_set().contains(id));
            let i = choose|i: int| 0 <= i < ids.len() && ids[i] == id;
            assert(state.devices[ids[i]].valves.contains_key(valve_id));
        }
    }
    assert forall|p: int, q: int| 0 <= p < both.len() && 0 <= q < both.len() && p
        != q implies both[p] != both[q] by {
        if p < here.len() && q >= here.len() {
            assert(here.contains(here[p]));
            assert(gone.contains(gone[q - here.len()]));
        } else if p >= here.len() && q < here.len() {
            assert(here.contains(here[q]));
            assert(gone.contains(gone[p - here.len()]));
        }
    }
    assert forall|id: Seq<char>| #[trigger] both.contains(id) <==> all.contains(id) by {
        assert(all.contains(id) <==> all.to_set().contains(id));
        if both.contains(id) {
            let p = choose|p: int| 0 <= p < both.len() && both[p] == id;
            if p < here.len() {
                assert(here[p] == id);
                assert(here.contains(id));
                assert(in_some_device(state, id));
            } else {
                assert(gone[p - here.len()] == id);
                assert(gone.contains(id));
            }
        }
        if all.contains(id) {
            if in_some_device(state, id) {
                assert(here.contains(id));
                let p = choose|p: int| 0 <= p < here.len() && here[p] == id;
                assert(both[p] == id);
            } else {
                assert(gone.contains(id));
                let p = choose|p: int| 0 <= p < gone.len() && gone[p] == id;
                assert(both[here.len() + p] == id);
            }
        }
    }
    lemma_volume_in_any_order(state, both, all, now, rate);
    lemma_volume_joined(state, here, gone, now, rate);
}

proof fn lemma_usage_water_of_usage(
    a: StateView,
    b: StateView,
    ids: Seq<Seq<char>>,
    now: i64,
)
    requires
        a.valve_usage == b.valve_usage,
    ensures
        usage_water(a, ids, now) == usage_water(b, ids, now),
    decreases ids.len(),
{
    if ids.len() > 0 {
        lemma_usage_water_of_usage(a, b, ids.drop_last(), now);
    }
}

/// The volume that is shown for the whole garden rests on the use of valves alone: it stays when
/// a valve or a device leaves.
pub proof fn total_volume_outlives_devices(
    state: StateView,
    devices: Map<Seq<char>, DeviceView>,
    version: Seq<char>,
    now: i64,
)
    ensures
        ({
            let before_all = all_samples(state, version, now);
            let after_all = all_samples(StateView { devices, ..state }, version, now);
            after_all[after_all.len() - 2] == before_all[before_all.len() - 2]
                && before_all[before_all.len() - 2].family == Family::Water
        }),
{
    let other = StateView { devices, ..state };
    let ids = key_order(state.valve_usage.dom());
    lemma_usage_water_of_usage(state, other, ids, now);
}

proof fn lemma_volume_grows(
    state: StateView,
    ids: Seq<Seq<char>>,
    earlier: i64,
    later: i64,
    rate: spec_fn(Scalar) -> int,
)
    requires
        earlier <= later,
        forall|flow: Scalar| #[trigger] rate(flow) >= 0,
    ensures
        volume_of(state, ids, earlier, rate) <= volume_of(state, ids, later, rate),
    decreases ids.len(),
{
    if ids.len() > 0 {
        lemma_volume_grows(state, ids.drop_last(), earlier, later, rate);
        if state.valve_usage.contains_key(ids.last()) {
            totals_grow_with_time(state.valve_usage[ids.last()], earlier, later, rate);
        }
    }
}

/// The volume that is shown for the whole garden grows as time goes by, where no flow rate is
/// negative.
pub proof fn total_volume_grows_with_time(
    state: StateView,
    version: Seq<char>,
    earlier: i64,
    later: i64,
    rate: spec_fn(Scalar) -> int,
)
    requires
        earlier <= later,
        forall|flow: Scalar| #[trigger] rate(flow) >= 0,
    ensures
        ({
            let first = all_samples(state, version, earlier);
            let second = all_samples(state, version, later);
            &&& first[first.len() - 2].family == Family::Water
            &&& second[second.len() - 2].family == Family::Water
            &&& first[first.len() - 2].value matches ValueView::Volume(less)
            &&& second[second.len() - 2].value matches ValueView::Volume(more)
            &&& weighed(less, rate) <= weighed(more, rate)
        }),
{
    let ids = key_order(state.valve_usage.dom());
    lemma_volume_weighed(state, ids, earlier, rate);
    lemma_volume_weighed(state, ids, later, rate);
    lemma_volume_grows(state, ids, earlier, later, rate);
}

/// As long as no valve was ever reported, the volume that is shown for the whole garden is none.
/// A valve that is reported for the first time adds what it has let through, whether or not it is
/// in a device.
pub proof fn total_volume_counts_every_valve(
    state: StateView,
    valve_id: Seq<char>,
    usage: UsageView,
    version: Seq<char>,
    now: i64,
    rate: spec_fn(Scalar) -> int,
)
    requires
        state.valve_usage.dom().finite(),
        !state.valve_usage.contains_key(valve_id),
    ensures
        ({
            let more = StateView {
                valve_usage: state.valve_usage.insert(valve_id, usage),
                ..state
            };
            let first = all_samples(state, version, now);
            let second = all_samples(more, version, now);
            let totals = more.totals(valve_id, now);
            &&& first.len() >= 2 && second.len() >= 2
            &&& first[first.len() - 2].family.spec_name() == "gardena_estimated_water_liters_total"@
            &&& second[second.len() - 2].family.spec_name()
                == "gardena_estimated_water_liters_total"@
            &&& first[first.len() - 2].labels.len() == 0
            &&& first[first.len() - 2].value matches ValueView::Volume(before_it)
            &&& second[second.len() - 2].value matches ValueView::Volume(with_it)
            &&& state.valve_usage.dom() == Set::<Seq<char>>::empty() ==> weighed(before_it, rate)
                == 0
            &&& weighed(with_it, rate) == weighed(before_it, rate) + weighed(totals.metered, rate)
        }),
{
    let more = StateView { valve_usage: state.valve_usage.insert(valve_id, usage), ..state };
    let ids = key_order(state.valve_usage.dom());
    let all = key_order(more.valve_usage.dom());
    key_order_of_finite(state.valve_usage.dom());
    key_order_of_finite(more.valve_usage.dom());
    lemma_ascending_without_duplicates(ids);
    lemma_ascending_without_duplicates(all);
    lemma_volume_weighed(state, ids, now, rate);
    lemma_volume_weighed(more, all, now, rate);
    if state.valve_usage.dom() == Set::<Seq<char>>::empty() {
        if ids.len() > 0 {
            assert(ids.to_set().contains(ids[0]));
        }
    }
    let other = ids.push(valve_id);
    assert forall|id: Seq<char>| #[trigger] all.contains(id) <==> other.contains(id) by {
        assert(all.contains(id) == more.valve_usage.dom().contains(id)) by {
            assert(all.contains(id) == all.to_set().contains(id));
        }
        assert(ids.contains(id) == state.valve_usage.dom().contains(id)) by {
            assert(ids.contains(id) == ids.to_set().contains(id));
        }
        if other.contains(id) && id != valve_id {
            let i = choose|i: int| 0 <= i < other.len() && other[i] == id;
            assert(ids[i] == id);
        }
        if ids.contains(id) {
            let i = choose|i: int| 0 <= i < ids.len() && ids[i] == id;
            assert(other[i] == id);
        }
        assert(other[ids.len() as int] == valve_id);
    }
    assert forall|i: int, j: int|
        0 <= i < other.len() && 0 <= j < other.len() && i != j implies other[i] != other[j] by {
        if i == ids.len() {
            assert(ids.to_set().contains(ids[j]));
        } else if j == ids.len() {
            assert(ids.to_set().contains(ids[i]));
        }
    }
    lemma_volume_in_any_order(more, all, other, now, rate);
    assert(other.drop_last() =~= ids);
    assert forall|i: int| 0 <= i < ids.len() implies state.totals(#[trigger] ids[i], now)
        == more.totals(ids[i], now) by {
        assert(ids.to_set().contains(ids[i]));
    }
    lemma_volume_of_others(state, more, ids, now, rate);
}

proof fn lemma_volume_of_others(
    a: StateView,
    b: StateView,
    ids: Seq<Seq<char>>,
    now: i64,
    rate: spec_fn(Scalar) -> int,
)
    requires
        forall|i: int|
            0 <= i < ids.len() ==> a.totals(#[trigger] ids[i], now) == b.totals(ids[i], now),
    ensures
        volume_of(a, ids, now, rate) == volume_of(b, ids, now, rate),
    decreases ids.len(),
{
    if ids.len() > 0 {
        let rest = ids.drop_last();
        assert forall|i: int| 0 <= i < rest.len() implies a.totals(#[trigger] rest[i], now)
            == b.totals(rest[i], now) by {
            assert(rest[i] == ids[i]);
        }
        lemma_volume_of_others(a, b, rest, now, rate);
        assert(ids[ids.len() - 1] == ids.last());
    }
}

/// The label `service_id` of the family that describes valves is the identifier of the valve.
pub proof fn service_id_is_labelled(
    state: StateView,
    device: DeviceView,
    valve: ValveView,
    now: i64,
)
    ensures
        ({
            let sample = valve_samples(state, device, valve, now)[0];
            &&& sample.family == Family::ValveInfo
            &&& sample.family.spec_labels()[3] == "service_id"@
            &&& sample.labels[3] == valve.id
        }),
{
}

/// Every sample of a list is among others.
pub open spec fn shown_among(part: Seq<SampleView>, whole: Seq<SampleView>) -> bool {
    forall|k: int| 0 <= k < part.len() ==> whole.contains(#[trigger] part[k])
}

proof fn lemma_among_joined(part: Seq<SampleView>, a: Seq<SampleView>, b: Seq<SampleView>)
    ensures
        shown_among(part, a) ==> shown_among(part, a + b),
        shown_among(part, b) ==> shown_among(part, a + b),
        shown_among(part, part),
{
    let whole = a + b;
    if shown_among(part, a) {
        assert forall|k: int| 0 <= k < part.len() implies whole.contains(#[trigger] part[k]) by {
            let i = choose|i: int| 0 <= i < a.len() && a[i] == part[k];
            assert(whole[i] == part[k]);
        }
    }
    if shown_among(part, b) {
        assert forall|k: int| 0 <= k < part.len() implies whole.contains(#[trigger] part[k]) by {
            let i = choose|i: int| 0 <= i < b.len() && b[i] == part[k];
            assert(whole[a.len() + i] == part[k]);
        }
    }
}

proof fn lemma_among_further(
    part: Seq<SampleView>,
    middle: Seq<SampleView>,
    whole: Seq<SampleView>,
)
    requires
        shown_among(part, middle),
        shown_among(middle, whole),
    ensures
        shown_among(part, whole),
{
    assert forall|k: int| 0 <= k < part.len() implies whole.contains(#[trigger] part[k]) by {
        let i = choose|i: int| 0 <= i < middle.len() && middle[i] == part[k];
        assert(whole.contains(middle[i]));
    }
}

proof fn lemma_device_among(state: StateView, ids: Seq<Seq<char>>, now: i64, i: int)
    requires
        0 <= i < ids.len(),
    ensures
        shown_among(
            device_samples(state, state.devices[ids[i]], now),
            devices_samples(state, ids, now),
        ),
    decreases ids.len(),
{
    let rest = ids.drop_last();
    let part = device_samples(state, state.devices[ids[i]], now);
    let more = device_samples(state, state.devices[ids.last()], now);
    if i < rest.len() {
        assert(rest[i] == ids[i]);
        lemma_device_among(state, rest, now, i);
    }
    lemma_among_joined(part, devices_samples(state, rest, now), more);
}

proof fn lemma_valve_among(
    state: StateView,
    device: DeviceView,
    ids: Seq<Seq<char>>,
    now: i64,
    i: int,
)
    requires
        0 <= i < ids.len(),
    ensures
        shown_among(
            valve_samples(state, device, device.valves[ids[i]], now),
            valves_samples(state, device, ids, now),
        ),
    decreases ids.len(),
{
    let rest = ids.drop_last();
    let part = valve_samples(state, device, device.valves[ids[i]], now);
    let more = valve_samples(state, device, device.valves[ids.last()], now);
    if i < rest.len() {
        assert(rest[i] == ids[i]);
        lemma_valve_among(state, device, rest, now, i);
    }
    lemma_among_joined(part, valves_samples(state, device, rest, now), more);
}

proof fn lemma_valve_set_among(
    state: StateView,
    device: DeviceView,
    ids: Seq<Seq<char>>,
    i: int,
)
    requires
        0 <= i < ids.len(),
    ensures
        shown_among(
            valve_set_samples(state, device, device.valve_sets[ids[i]]),
            valve_sets_samples(state, device, ids),
        ),
    decreases ids.len(),
{
    let rest = ids.drop_last();
    let part = valve_set_samples(state, device, device.valve_sets[ids[i]]);
    let more = valve_set_samples(state, device, device.valve_sets[ids.last()]);
    if i < rest.len() {
        assert(rest[i] == ids[i]);
        lemma_valve_set_among(state, device, rest, i);
    }
    lemma_among_joined(part, valve_sets_samples(state, device, rest), more);
}

/// Everything that is known of a device is shown.
pub proof fn known_devices_are_shown(state: StateView, version: Seq<char>, now: i64, id: Seq<char>)
    requires
        state.consistent(),
        state.devices.contains_key(id),
    ensures
        shown_among(
            device_samples(state, state.devices[id], now),
            all_samples(state, version, now),
        ),
{
    let ids = key_order(state.devices.dom());
    let none = Seq::<Seq<char>>::empty();
    key_order_of_finite(state.devices.dom());
    assert(ids.to_set().contains(id));
    let i = choose|i: int| 0 <= i < ids.len() && ids[i] == id;
    lemma_device_among(state, ids, now, i);
    let part = device_samples(state, state.devices[id], now);
    let exporter = exporter_samples(state, version);
    let devices = devices_samples(state, ids, now);
    let water = one(
        Family::Water,
        none,
        ValueView::Volume(usage_water(state, key_order(state.valve_usage.dom()), now)),
    );
    let flow = one(Family::CurrentFlow, none, ValueView::FlowSum(devices_flow(state, ids, now)));
    lemma_among_joined(part, exporter, devices);
    lemma_among_joined(part, exporter + devices, water);
    lemma_among_joined(part, exporter + devices + water, flow);
}

/// The services of a device are shown with it.
pub proof fn services_are_shown(state: StateView, device: DeviceView, now: i64)
    requires
        device.consistent(),
    ensures
        ({
            let samples = device_samples(state, device, now);
            &&& device.common matches Some(service) ==> shown_among(
                common_samples(state, device, service),
                samples,
            )
            &&& device.sensor matches Some(service) ==> shown_among(
                sensor_samples(state, device, service),
                samples,
            )
            &&& forall|id: Seq<char>| #[trigger]
                device.valves.contains_key(id) ==> shown_among(
                    valve_samples(state, device, device.valves[id], now),
                    samples,
                )
            &&& forall|id: Seq<char>| #[trigger]
                device.valve_sets.contains_key(id) ==> shown_among(
                    valve_set_samples(state, device, device.valve_sets[id]),
                    samples,
                )
        }),
{
    let common = match device.common {
        Some(service) => common_samples(state, device, service),
        None => Seq::empty(),
    };
    let sensor = match device.sensor {
        Some(service) => sensor_samples(state, device, service),
        None => Seq::empty(),
    };
    let valve_ids = key_order(device.valves.dom());
    let set_ids = key_order(device.valve_sets.dom());
    let valves = valves_samples(state, device, valve_ids, now);
    let sets = valve_sets_samples(state, device, set_ids);
    let samples = device_samples(state, device, now);
    lemma_among_joined(common, common, sensor);
    lemma_among_joined(common, common + sensor, valves);
    lemma_among_joined(common, common + sensor + valves, sets);
    lemma_among_joined(sensor, common, sensor);
    lemma_among_joined(sensor, common + sensor, valves);
    lemma_among_joined(sensor, common + sensor + valves, sets);
    key_order_of_finite(device.valves.dom());
    key_order_of_finite(device.valve_sets.dom());
    assert forall|id: Seq<char>| #[trigger] device.valves.contains_key(id) implies shown_among(
        valve_samples(state, device, device.valves[id], now),
        samples,
    ) by {
        assert(valve_ids.to_set().contains(id));
        let i = choose|i: int| 0 <= i < valve_ids.len() && valve_ids[i] == id;
        lemma_valve_among(state, device, valve_ids, now, i);
        let part = valve_samples(state, device, device.valves[id], now);
        lemma_among_joined(part, common + sensor, valves);
        lemma_among_joined(part, common + sensor + valves, sets);
    }
    assert forall|id: Seq<char>| #[trigger] device.valve_sets.contains_key(id) implies shown_among(
        valve_set_samples(state, device, device.valve_sets[id]),
        samples,
    ) by {
        assert(set_ids.to_set().contains(id));
        let i = choose|i: int| 0 <= i < set_ids.len() && set_ids[i] == id;
        lemma_valve_set_among(state, device, set_ids, i);
        let part = valve_set_samples(state, device, device.valve_sets[id]);
        lemma_among_joined(part, common + sensor + valves, sets);
    }
}

/// What a service reports of its device is shown from then on, until it reports anew.
pub proof fn reports_are_shown(
    state: StateView,
    resource: ResourceView,
    flows: FlowView,
    now: i64,
    id: Seq<char>,
    version: Seq<char>,
    later: i64,
)
    requires
        state.consistent(),
        subject(resource) == Some(id),
    ensures
        ({
            let after = state.after_resource(resource, flows, now);
            let device = after.devices[id];
            let attributes = resource.attributes;
            let samples = all_samples(after, version, later);
            &&& after.devices.contains_key(id)
            &&& resource.kind == "COMMON"@ ==> shown_among(
                common_samples(after, device, common_service(attributes)),
                samples,
            )
            &&& resource.kind == "SENSOR"@ ==> shown_among(
                sensor_samples(after, device, sensor_service(attributes)),
                samples,
            )
            &&& resource.kind == "VALVE"@ ==> shown_among(
                valve_samples(after, device, valve_service(resource.id, attributes), later),
                samples,
            )
            &&& resource.kind == "VALVE_SET"@ ==> shown_among(
                valve_set_samples(after, device, valve_set_service(resource.id, attributes)),
                samples,
            )
        }),
{
    let after = state.after_resource(resource, flows, now);
    let attributes = resource.attributes;
    resource_touches_one_device(state, resource, flows, now);
    assert(after.devices.dom().contains(id));
    let device = after.devices[id];
    let samples = all_samples(after, version, later);
    let middle = device_samples(after, device, later);
    resource_keeps_consistency(state, resource, flows, now);
    latest_report_is_kept(state, resource, flows, now, id);
    assert(after.device(id) == device);
    known_devices_are_shown(after, version, later, id);
    services_are_shown(after, device, later);
    if resource.kind == "COMMON"@ {
        lemma_among_further(
            common_samples(after, device, common_service(attributes)),
            middle,
            samples,
        );
    }
    if resource.kind == "SENSOR"@ {
        lemma_among_further(
            sensor_samples(after, device, sensor_service(attributes)),
            middle,
            samples,
        );
    }
    if resource.kind == "VALVE"@ {
        assert(device.valves.contains_key(resource.id));
        lemma_among_further(
            valve_samples(after, device, valve_service(resource.id, attributes), later),
            middle,
            samples,
        );
    }
    if resource.kind == "VALVE_SET"@ {
        assert(device.valve_sets.contains_key(resource.id));
        lemma_among_further(
            valve_set_samples(after, device, valve_set_service(resource.id, attributes)),
            middle,
            samples,
        );
    }
}

/// Every family without labels is shown, whatever is known.
pub proof fn unlabelled_families_are_shown(
    state: StateView,
    version: Seq<char>,
    now: i64,
    family: Family,
)
    requires
        family.spec_labels().len() == 0,
    ensures
        exists|i: int|
            0 <= i < all_samples(state, version, now).len() && (#[trigger] all_samples(
                state,
                version,
                now,
            )[i]).family == family,
{
    let samples = all_samples(state, version, now);
    let exporter = exporter_samples(state, version);
    assert(exporter.len() == 8);
    assert forall|i: int| 0 <= i < 8 implies samples[i] == #[trigger] exporter[i] by {}
    match family {
        Family::ExporterConnected => assert(exporter[0].family == family && samples[0].family
            == family),
        Family::LastEventTimestamp => assert(exporter[1].family == family && samples[1].family
            == family),
        Family::LastSnapshotTimestamp => assert(exporter[2].family == family && samples[2].family
            == family),
        Family::LastSuccessfulSyncTimestamp => assert(exporter[3].family == family
            && samples[3].family == family),
        Family::WebsocketReconnects => assert(exporter[4].family == family && samples[4].family
            == family),
        Family::TokenRefreshes => assert(exporter[5].family == family && samples[5].family
            == family),
        Family::SnapshotRefreshes => assert(exporter[6].family == family && samples[6].family
            == family),
        Family::Water => assert(samples[samples.len() - 2].family == family),
        Family::CurrentFlow => assert(samples[samples.len() - 1].family == family),
        _ => {},
    }
}

}
