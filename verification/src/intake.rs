//! What each kind of resource brings into the cache, reading by reading and key by key.
use vstd::prelude::*;

verus! {

use crate::device::DeviceView;
use crate::json::{nested_millis_at, nested_number_at, nested_text_at, related_id, text_at, Scalar};
use crate::location::LocationView;
use crate::state::{lemma_kinds_differ, FlowView, ResourceView, SnapshotView, StateView};
use crate::usage::{metering_adds_weight, room_for, weighed, MeteredTime, UsageView};

/// A `LOCATION` resource names the location, by its identifier and by the text under `name`, and
/// changes nothing else.
pub proof fn location_is_named(
    state: StateView,
    resource: ResourceView,
    flows: FlowView,
    now: i64,
)
    requires
        resource.kind == "LOCATION"@,
    ensures
        state.after_resource(resource, flows, now) == (StateView {
            location_id: Some(resource.id),
            location_name: text_at(resource.attributes, "name"@),
            ..state
        }),
{
}

/// A `DEVICE` resource says to which location the device belongs, by its relationship
/// `location`. Of a device that was not known it says nothing more.
pub proof fn device_is_located(
    state: StateView,
    resource: ResourceView,
    flows: FlowView,
    now: i64,
)
    requires
        resource.kind == "DEVICE"@,
    ensures
        ({
            let after = state.after_resource(resource, flows, now);
            let location_id = related_id(resource.relationships, "location"@);
            &&& after == (StateView { devices: after.devices, ..state })
            &&& after.devices == state.devices.insert(resource.id, after.devices[resource.id])
            &&& after.devices.contains_key(resource.id)
            &&& after.devices[resource.id] == if state.devices.contains_key(resource.id) {
                DeviceView { location_id, ..state.devices[resource.id] }
            } else {
                DeviceView {
                    id: resource.id,
                    location_id,
                    common: None,
                    sensor: None,
                    valves: Map::empty(),
                    valve_sets: Map::empty(),
                }
            }
        }),
{
    lemma_kinds_differ();
}

/// A service goes to the device that its relationship `device` points to, and to no other. A
/// device that was not known becomes known by that identifier, with this service alone.
pub proof fn services_go_to_their_device(
    state: StateView,
    resource: ResourceView,
    flows: FlowView,
    now: i64,
    id: Seq<char>,
)
    requires
        resource.kind == "COMMON"@ || resource.kind == "SENSOR"@ || resource.kind == "VALVE"@
            || resource.kind == "VALVE_SET"@,
        related_id(resource.relationships, "device"@) == Some(id),
    ensures
        ({
            let after = state.after_resource(resource, flows, now);
            let device = after.devices[id];
            let known = state.devices.contains_key(id);
            let earlier = state.devices[id];
            &&& after.devices.contains_key(id)
            &&& after.devices == state.devices.insert(id, device)
            &&& device.id == if known {
                earlier.id
            } else {
                id
            }
            &&& device.location_id == if known {
                earlier.location_id
            } else {
                None
            }
            &&& resource.kind != "COMMON"@ ==> device.common == if known {
                earlier.common
            } else {
                None
            }
            &&& resource.kind != "SENSOR"@ ==> device.sensor == if known {
                earlier.sensor
            } else {
                None
            }
            &&& resource.kind != "VALVE"@ ==> device.valves == if known {
                earlier.valves
            } else {
                Map::empty()
            }
            &&& resource.kind != "VALVE_SET"@ ==> device.valve_sets == if known {
                earlier.valve_sets
            } else {
                Map::empty()
            }
            &&& resource.kind != "VALVE"@ ==> after == (StateView {
                devices: after.devices,
                ..state
            })
            &&& after == (StateView {
                devices: after.devices,
                valve_usage: after.valve_usage,
                ..state
            })
        }),
{
    lemma_kinds_differ();
}

/// After a `COMMON` resource each property of its device is what stands under its key: the
/// value under `value`, and the moment under `timestamp`.
pub proof fn common_properties_are_read(
    state: StateView,
    resource: ResourceView,
    flows: FlowView,
    now: i64,
    id: Seq<char>,
)
    requires
        resource.kind == "COMMON"@,
        related_id(resource.relationships, "device"@) == Some(id),
    ensures
        ({
            let device = state.after_resource(resource, flows, now).devices[id];
            let attributes = resource.attributes;
            &&& device.common is Some
            &&& device.common->0.name == nested_text_at(attributes, "name"@, "value"@)
            &&& device.common->0.battery_level == nested_number_at(
                attributes,
                "batteryLevel"@,
                "value"@,
            )
            &&& device.common->0.battery_level_timestamp == nested_millis_at(
                attributes,
                "batteryLevel"@,
                "timestamp"@,
            )
            &&& device.common->0.battery_state == nested_text_at(
                attributes,
                "batteryState"@,
                "value"@,
            )
            &&& device.common->0.rf_link_level == nested_number_at(
                attributes,
                "rfLinkLevel"@,
                "value"@,
            )
            &&& device.common->0.rf_link_level_timestamp == nested_millis_at(
                attributes,
                "rfLinkLevel"@,
                "timestamp"@,
            )
            &&& device.common->0.serial == nested_text_at(attributes, "serial"@, "value"@)
            &&& device.common->0.model_type == nested_text_at(attributes, "modelType"@, "value"@)
            &&& device.common->0.rf_link_state == nested_text_at(
                attributes,
                "rfLinkState"@,
                "value"@,
            )
        }),
{
    lemma_kinds_differ();
}

/// After a `SENSOR` resource each reading of its device is what stands under its key: the
/// number under `value`, and the moment under `timestamp`.
pub proof fn sensor_readings_are_read(
    state: StateView,
    resource: ResourceView,
    flows: FlowView,
    now: i64,
    id: Seq<char>,
)
    requires
        resource.kind == "SENSOR"@,
        related_id(resource.relationships, "device"@) == Some(id),
    ensures
        ({
            let device = state.after_resource(resource, flows, now).devices[id];
            let attributes = resource.attributes;
            &&& device.sensor is Some
            &&& device.sensor->0.soil_humidity == nested_number_at(
                attributes,
                "soilHumidity"@,
                "value"@,
            )
            &&& device.sensor->0.soil_humidity_timestamp == nested_millis_at(
                attributes,
                "soilHumidity"@,
                "timestamp"@,
            )
            &&& device.sensor->0.soil_temperature == nested_number_at(
                attributes,
                "soilTemperature"@,
                "value"@,
            )
            &&& device.sensor->0.soil_temperature_timestamp == nested_millis_at(
                attributes,
                "soilTemperature"@,
                "timestamp"@,
            )
            &&& device.sensor->0.ambient_temperature == nested_number_at(
                attributes,
                "ambientTemperature"@,
                "value"@,
            )
            &&& device.sensor->0.ambient_temperature_timestamp == nested_millis_at(
                attributes,
                "ambientTemperature"@,
                "timestamp"@,
            )
            &&& device.sensor->0.light_intensity == nested_number_at(
                attributes,
                "lightIntensity"@,
                "value"@,
            )
            &&& device.sensor->0.light_intensity_timestamp == nested_millis_at(
                attributes,
                "lightIntensity"@,
                "timestamp"@,
            )
        }),
{
    lemma_kinds_differ();
}

/// After a `VALVE` resource its valve stands under its identifier, with each property as it
/// stands under its key, and the other valves of the device are as they were.
pub proof fn valve_properties_are_read(
    state: StateView,
    resource: ResourceView,
    flows: FlowView,
    now: i64,
    id: Seq<char>,
)
    requires
        resource.kind == "VALVE"@,
        related_id(resource.relationships, "device"@) == Some(id),
    ensures
        ({
            let valves = state.after_resource(resource, flows, now).devices[id].valves;
            let valve = valves[resource.id];
            let attributes = resource.attributes;
            &&& valves.contains_key(resource.id)
            &&& valves == (if state.devices.contains_key(id) {
                state.devices[id].valves
            } else {
                Map::empty()
            }).insert(resource.id, valve)
            &&& valve.id == resource.id
            &&& valve.name == nested_text_at(attributes, "name"@, "value"@)
            &&& valve.activity == nested_text_at(attributes, "activity"@, "value"@)
            &&& valve.activity_timestamp == nested_millis_at(
                attributes,
                "activity"@,
                "timestamp"@,
            )
            &&& valve.state == nested_text_at(attributes, "state"@, "value"@)
            &&& valve.state_timestamp == nested_millis_at(attributes, "state"@, "timestamp"@)
            &&& valve.last_error == nested_text_at(attributes, "lastErrorCode"@, "value"@)
            &&& valve.duration_seconds == nested_number_at(attributes, "duration"@, "value"@)
        }),
{
    lemma_kinds_differ();
}

/// After a `VALVE_SET` resource its valve set stands under its identifier, with each property as
/// it stands under its key, and the other valve sets of the device are as they were.
pub proof fn valve_set_properties_are_read(
    state: StateView,
    resource: ResourceView,
    flows: FlowView,
    now: i64,
    id: Seq<char>,
)
    requires
        resource.kind == "VALVE_SET"@,
        related_id(resource.relationships, "device"@) == Some(id),
    ensures
        ({
            let valve_sets = state.after_resource(resource, flows, now).devices[id].valve_sets;
            let valve_set = valve_sets[resource.id];
            let attributes = resource.attributes;
            &&& valve_sets.contains_key(resource.id)
            &&& valve_sets == (if state.devices.contains_key(id) {
                state.devices[id].valve_sets
            } else {
                Map::empty()
            }).insert(resource.id, valve_set)
            &&& valve_set.id == resource.id
            &&& valve_set.state == nested_text_at(attributes, "state"@, "value"@)
            &&& valve_set.state_timestamp == nested_millis_at(attributes, "state"@, "timestamp"@)
            &&& valve_set.last_error == nested_text_at(attributes, "lastErrorCode"@, "value"@)
        }),
{
    lemma_kinds_differ();
}

/// A resource that is neither a location nor a device nor a service of a device changes nothing.
pub proof fn other_resources_are_ignored(
    state: StateView,
    resource: ResourceView,
    flows: FlowView,
    now: i64,
)
    requires
        resource.kind != "LOCATION"@,
        resource.kind != "DEVICE"@,
        related_id(resource.relationships, "device"@) is None || (resource.kind != "COMMON"@
            && resource.kind != "SENSOR"@ && resource.kind != "VALVE"@ && resource.kind
            != "VALVE_SET"@),
    ensures
        state.after_resource(resource, flows, now) == state,
{
}

/// After a `VALVE` resource the valve is open exactly if it has an activity other than `CLOSED`,
/// and its flow rate is its own if it has one, and otherwise the one for all. The use of other
/// valves is as it was.
pub proof fn valve_reports_are_taken_in(
    state: StateView,
    resource: ResourceView,
    flows: FlowView,
    now: i64,
)
    requires
        resource.kind == "VALVE"@,
        related_id(resource.relationships, "device"@) is Some,
    ensures
        ({
            let after = state.after_resource(resource, flows, now).valve_usage;
            let usage = after[resource.id];
            let activity = nested_text_at(resource.attributes, "activity"@, "value"@);
            &&& after.contains_key(resource.id)
            &&& after == state.valve_usage.insert(resource.id, usage)
            &&& usage.currently_open <==> activity is Some && activity != Some("CLOSED"@)
            &&& flows.by_valve.contains_key(resource.id)
                ==> usage.estimated_flow_liters_per_minute == Some(flows.by_valve[resource.id])
            &&& !flows.by_valve.contains_key(resource.id)
                ==> usage.estimated_flow_liters_per_minute == flows.default_rate
        }),
{
    lemma_kinds_differ();
}

/// A valve that is reported open and was not has its interval begin at the moment under
/// `activity.timestamp`; without one at that under `state.timestamp`; without either at `now`.
/// Nothing is counted yet.
pub proof fn opening_begins_at_its_activity(
    state: StateView,
    opening: ResourceView,
    flows: FlowView,
    now: i64,
)
    requires
        opening.kind == "VALVE"@,
        related_id(opening.relationships, "device"@) is Some,
        nested_text_at(opening.attributes, "activity"@, "value"@) is Some,
        nested_text_at(opening.attributes, "activity"@, "value"@) != Some("CLOSED"@),
        state.valve_usage.contains_key(opening.id)
            ==> !state.valve_usage[opening.id].currently_open,
    ensures
        ({
            let usage = state.after_resource(opening, flows, now).valve_usage[opening.id];
            let active = nested_millis_at(opening.attributes, "activity"@, "timestamp"@);
            let stated = nested_millis_at(opening.attributes, "state"@, "timestamp"@);
            &&& usage.currently_open
            &&& active matches Some(moment) ==> usage.open_since_timestamp == Some(moment)
            &&& active is None && stated is Some ==> usage.open_since_timestamp == stated
            &&& active is None && stated is None ==> usage.open_since_timestamp == Some(now)
            &&& state.valve_usage.contains_key(opening.id) ==> {
                &&& usage.total_open_millis == state.valve_usage[opening.id].total_open_millis
                &&& usage.metered == state.valve_usage[opening.id].metered
            }
            &&& !state.valve_usage.contains_key(opening.id) ==> {
                &&& usage.total_open_millis == 0
                &&& usage.metered.len() == 0
            }
        }),
{
    lemma_kinds_differ();
}

/// A valve that is reported closed, or without an activity, and was open since some moment has
/// its interval end at the moment under `activity.timestamp`; without one at that under
/// `state.timestamp`; without either at `now`. The time in between is counted, or nothing if the
/// end is before the beginning, and metered at the flow rate of the valve.
pub proof fn closing_ends_at_its_activity(
    state: StateView,
    closing: ResourceView,
    flows: FlowView,
    now: i64,
    since: i64,
    end: i64,
    rate: spec_fn(Scalar) -> int,
)
    requires
        closing.kind == "VALVE"@,
        related_id(closing.relationships, "device"@) is Some,
        nested_text_at(closing.attributes, "activity"@, "value"@) is None || nested_text_at(
            closing.attributes,
            "activity"@,
            "value"@,
        ) == Some("CLOSED"@),
        state.valve_usage.contains_key(closing.id),
        state.valve_usage[closing.id].currently_open,
        state.valve_usage[closing.id].open_since_timestamp == Some(since),
        nested_millis_at(closing.attributes, "activity"@, "timestamp"@) == Some(end) || (
        nested_millis_at(closing.attributes, "activity"@, "timestamp"@) is None && (
        nested_millis_at(closing.attributes, "state"@, "timestamp"@) == Some(end) || (
        nested_millis_at(closing.attributes, "state"@, "timestamp"@) is None && end == now))),
    ensures
        ({
            let before = state.valve_usage[closing.id];
            let usage = state.after_resource(closing, flows, now).valve_usage[closing.id];
            let span: nat = if end > since {
                (end - since) as nat
            } else {
                0
            };
            &&& !usage.currently_open
            &&& usage.open_since_timestamp is None
            &&& usage.total_open_millis == if before.total_open_millis + span <= u128::MAX {
                before.total_open_millis + span
            } else {
                u128::MAX as int
            }
            &&& room_for(before.metered, span) && flows.by_valve.contains_key(closing.id)
                ==> weighed(usage.metered, rate) == weighed(before.metered, rate) + span * rate(
                flows.by_valve[closing.id],
            )
            &&& room_for(before.metered, span) && !flows.by_valve.contains_key(closing.id)
                && flows.default_rate is Some ==> weighed(usage.metered, rate) == weighed(
                before.metered,
                rate,
            ) + span * rate(flows.default_rate->0)
            &&& !flows.by_valve.contains_key(closing.id) && flows.default_rate is None
                ==> usage.metered == before.metered
        }),
{
    lemma_kinds_differ();
    let before = state.valve_usage[closing.id];
    let span: nat = if end > since {
        (end - since) as nat
    } else {
        0
    };
    if room_for(before.metered, span) {
        if flows.by_valve.contains_key(closing.id) {
            metering_adds_weight(before.metered, flows.by_valve[closing.id], span, rate);
        } else if let Some(common) = flows.default_rate {
            metering_adds_weight(before.metered, common, span, rate);
        }
    }
}

/// A valve that is reported as it was has nothing counted, and its interval goes on.
pub proof fn unchanged_valves_count_nothing(
    state: StateView,
    resource: ResourceView,
    flows: FlowView,
    now: i64,
)
    requires
        resource.kind == "VALVE"@,
        related_id(resource.relationships, "device"@) is Some,
        state.valve_usage.contains_key(resource.id),
        state.valve_usage[resource.id].currently_open == (nested_text_at(
            resource.attributes,
            "activity"@,
            "value"@,
        ) is Some && nested_text_at(resource.attributes, "activity"@, "value"@) != Some(
            "CLOSED"@,
        )),
    ensures
        ({
            let before = state.valve_usage[resource.id];
            let usage = state.after_resource(resource, flows, now).valve_usage[resource.id];
            &&& usage.total_open_millis == before.total_open_millis
            &&& usage.metered == before.metered
            &&& usage.open_since_timestamp == before.open_since_timestamp
            &&& usage.currently_open == before.currently_open
        }),
{
    lemma_kinds_differ();
}

/// A valve that opens at the moment under the one report's `activity.timestamp` and closes at
/// that under the other's has exactly the time between the two added, whatever either report
/// gives as its `state.timestamp` and whenever they are taken in. It is metered at the valve's
/// own flow rate, or else at the one for all.
pub proof fn watering_lasts_from_activity_to_activity(
    state: StateView,
    opening: ResourceView,
    closing: ResourceView,
    flows: FlowView,
    now: i64,
    later: i64,
    opened: i64,
    closed: i64,
    rate: spec_fn(Scalar) -> int,
)
    requires
        opening.kind == "VALVE"@,
        closing.kind == "VALVE"@,
        opening.id == closing.id,
        related_id(opening.relationships, "device"@) is Some,
        related_id(closing.relationships, "device"@) is Some,
        nested_text_at(opening.attributes, "activity"@, "value"@) is Some,
        nested_text_at(opening.attributes, "activity"@, "value"@) != Some("CLOSED"@),
        nested_text_at(closing.attributes, "activity"@, "value"@) == Some("CLOSED"@),
        nested_millis_at(opening.attributes, "activity"@, "timestamp"@) == Some(opened),
        nested_millis_at(closing.attributes, "activity"@, "timestamp"@) == Some(closed),
        opened <= closed,
        state.valve_usage.contains_key(opening.id) ==> !state.valve_usage[opening.id].currently_open
            && state.valve_usage[opening.id].total_open_millis + (closed - opened) <= u128::MAX
            && room_for(state.valve_usage[opening.id].metered, (closed - opened) as nat),
    ensures
        ({
            let usage = state.after_resource(opening, flows, now).after_resource(
                closing,
                flows,
                later,
            ).valve_usage[opening.id];
            let counted_before: int = if state.valve_usage.contains_key(opening.id) {
                state.valve_usage[opening.id].total_open_millis as int
            } else {
                0
            };
            let weight_before: int = if state.valve_usage.contains_key(opening.id) {
                weighed(state.valve_usage[opening.id].metered, rate)
            } else {
                0
            };
            &&& !usage.currently_open
            &&& usage.total_open_millis == counted_before + (closed - opened)
            &&& flows.by_valve.contains_key(opening.id) ==> weighed(usage.metered, rate)
                == weight_before + (closed - opened) * rate(flows.by_valve[opening.id])
            &&& !flows.by_valve.contains_key(opening.id) && flows.default_rate is Some ==> weighed(
                usage.metered,
                rate,
            ) == weight_before + (closed - opened) * rate(flows.default_rate->0)
            &&& !flows.by_valve.contains_key(opening.id) && flows.default_rate is None ==> weighed(
                usage.metered,
                rate,
            ) == weight_before
        }),
{
    opening_begins_at_its_activity(state, opening, flows, now);
    valve_reports_are_taken_in(state, opening, flows, now);
    let first = state.after_resource(opening, flows, now);
    closing_ends_at_its_activity(first, closing, flows, later, opened, closed, rate);
}

/// The totals of a valve at `now` count its open interval up to then, or nothing if it began
/// later, and meter it at the flow rate of the valve. Water flows exactly while it is open.
pub proof fn totals_count_the_open_interval(
    state: StateView,
    valve_id: Seq<char>,
    now: i64,
    rate: spec_fn(Scalar) -> int,
)
    requires
        state.valve_usage.contains_key(valve_id),
    ensures
        ({
            let usage = state.valve_usage[valve_id];
            let totals = state.totals(valve_id, now);
            let flow = usage.estimated_flow_liters_per_minute;
            let span: nat = match usage.open_since_timestamp {
                Some(since) => if usage.currently_open && now > since {
                    (now - since) as nat
                } else {
                    0
                },
                None => 0,
            };
            &&& totals.open_millis == if usage.total_open_millis + span <= u128::MAX {
                usage.total_open_millis + span
            } else {
                u128::MAX as int
            }
            &&& totals.flow_liters_per_minute == flow
            &&& usage.currently_open ==> totals.current_flow_liters_per_minute == flow
            &&& !usage.currently_open ==> totals.current_flow_liters_per_minute is None
            &&& room_for(usage.metered, span) && flow is Some ==> weighed(totals.metered, rate)
                == weighed(usage.metered, rate) + span * rate(flow->0)
            &&& flow is None ==> totals.metered == usage.metered
        }),
{
    let usage = state.valve_usage[valve_id];
    if let Some(since) = usage.open_since_timestamp {
        if let Some(known) = usage.estimated_flow_liters_per_minute {
            let span: nat = if now > since {
                (now - since) as nat
            } else {
                0
            };
            if room_for(usage.metered, span) {
                metering_adds_weight(usage.metered, known, span, rate);
            }
        }
    }
}

/// A valve that was never reported has no open time and no flow.
pub proof fn unreported_valves_have_no_totals(state: StateView, valve_id: Seq<char>, now: i64)
    requires
        !state.valve_usage.contains_key(valve_id),
    ensures
        state.totals(valve_id, now).open_millis == 0,
        state.totals(valve_id, now).metered.len() == 0,
        state.totals(valve_id, now).flow_liters_per_minute is None,
        state.totals(valve_id, now).current_flow_liters_per_minute is None,
{
}

/// What is metered weighs the sum of what each of its entries weighs.
pub proof fn metered_time_is_summed(
    metered: Seq<crate::usage::MeteredTime>,
    more: MeteredTime,
    rate: spec_fn(Scalar) -> int,
)
    ensures
        weighed(Seq::empty(), rate) == 0,
        weighed(metered.push(more), rate) == weighed(metered, rate) + more.open_millis * rate(
            more.flow,
        ),
{
    assert(metered.push(more).drop_last() =~= metered);
}

proof fn lemma_stamped_resource(
    state: StateView,
    resource: ResourceView,
    flows: FlowView,
    now: i64,
    snapshot: Option<i64>,
    sync: Option<i64>,
)
    ensures
        (StateView {
            last_snapshot_timestamp: snapshot,
            last_successful_sync_timestamp: sync,
            ..state
        }).after_resource(resource, flows, now) == (StateView {
            last_snapshot_timestamp: snapshot,
            last_successful_sync_timestamp: sync,
            ..state.after_resource(resource, flows, now)
        }),
{
    lemma_kinds_differ();
}

/// A snapshot that brings nothing but its own resource is that resource, taken in without any
/// device known before and under the name of the selected location.
pub proof fn snapshot_begins_with_its_location(
    state: StateView,
    selected: LocationView,
    snapshot: SnapshotView,
    flows: FlowView,
    now: i64,
)
    requires
        snapshot.included.len() == 0,
    ensures
        ({
            let after = state.after_snapshot(selected, snapshot, flows, now);
            let start = StateView {
                location_id: Some(selected.id),
                location_name: Some(selected.name),
                devices: Map::empty(),
                ..state
            };
            &&& after == (StateView {
                last_snapshot_timestamp: Some(now),
                last_successful_sync_timestamp: Some(now),
                ..start.after_resource(snapshot.data, flows, now)
            })
        }),
{
}

/// A snapshot that includes one resource more at its end is the snapshot without it, followed by
/// that resource.
pub proof fn snapshot_takes_in_every_resource(
    state: StateView,
    selected: LocationView,
    snapshot: SnapshotView,
    more: ResourceView,
    flows: FlowView,
    now: i64,
)
    ensures
        state.after_snapshot(
            selected,
            SnapshotView { data: snapshot.data, included: snapshot.included.push(more) },
            flows,
            now,
        ) == state.after_snapshot(selected, snapshot, flows, now).after_resource(more, flows, now),
{
    let start = StateView {
        location_id: Some(selected.id),
        location_name: Some(selected.name),
        devices: Map::empty(),
        ..state
    };
    let first = start.after_resource(snapshot.data, flows, now);
    assert(snapshot.included.push(more).drop_last() =~= snapshot.included);
    lemma_stamped_resource(
        first.after_resources(snapshot.included, flows, now),
        more,
        flows,
        now,
        Some(now),
        Some(now),
    );
}

/// A snapshot without a `LOCATION` resource leaves the selected location as the one shown.
pub proof fn snapshot_shows_the_selected_location(
    state: StateView,
    selected: LocationView,
    snapshot: SnapshotView,
    flows: FlowView,
    now: i64,
)
    requires
        snapshot.data.kind != "LOCATION"@,
        forall|i: int|
            0 <= i < snapshot.included.len() ==> (#[trigger] snapshot.included[i]).kind
                != "LOCATION"@,
    ensures
        state.after_snapshot(selected, snapshot, flows, now).location_id == Some(selected.id),
        state.after_snapshot(selected, snapshot, flows, now).location_name == Some(selected.name),
    decreases snapshot.included.len(),
{
    if snapshot.included.len() == 0 {
        snapshot_begins_with_its_location(state, selected, snapshot, flows, now);
    } else {
        let shorter = SnapshotView { data: snapshot.data, included: snapshot.included.drop_last() };
        assert(snapshot.included =~= shorter.included.push(snapshot.included.last()));
        assert forall|i: int| 0 <= i < shorter.included.len() implies (
        #[trigger] shorter.included[i]).kind != "LOCATION"@ by {
            assert(shorter.included[i] == snapshot.included[i]);
        }
        snapshot_takes_in_every_resource(
            state,
            selected,
            shorter,
            snapshot.included.last(),
            flows,
            now,
        );
        snapshot_shows_the_selected_location(state, selected, shorter, flows, now);
        assert(snapshot.included[snapshot.included.len() - 1].kind != "LOCATION"@);
    }
}

/// An obtained token, a counted snapshot and a failed connection each add one to their own count
/// as long as it can be held, and to no other. The first two leave no error; a failure leaves
/// its words, and no connection.
pub proof fn each_count_is_its_own(state: StateView, words: Seq<char>)
    ensures
        state.token_refreshes_total < u64::MAX ==> state.after_token() == (StateView {
            token_refreshes_total: (state.token_refreshes_total + 1) as u64,
            last_error: None,
            ..state
        }),
        state.snapshot_refreshes_total < u64::MAX ==> state.after_refresh() == (StateView {
            snapshot_refreshes_total: (state.snapshot_refreshes_total + 1) as u64,
            last_error: None,
            ..state
        }),
        state.websocket_reconnects_total < u64::MAX ==> state.after_failure(words) == (StateView {
            websocket_reconnects_total: (state.websocket_reconnects_total + 1) as u64,
            connected: false,
            last_error: Some(words),
            ..state
        }),
        state.token_refreshes_total == u64::MAX ==> state.after_token() == (StateView {
            last_error: None,
            ..state
        }),
        state.snapshot_refreshes_total == u64::MAX ==> state.after_refresh() == (StateView {
            last_error: None,
            ..state
        }),
        state.websocket_reconnects_total == u64::MAX ==> state.after_failure(words) == (StateView {
            connected: false,
            last_error: Some(words),
            ..state
        }),
{
}

/// A resource over the websocket is taken in as any other, and shows that the connection is
/// alive and the cache in step at that moment.
pub proof fn events_are_taken_in(
    state: StateView,
    resource: ResourceView,
    flows: FlowView,
    now: i64,
)
    ensures
        state.after_event(resource, flows, now) == (StateView {
            connected: true,
            last_event_timestamp: Some(now),
            last_successful_sync_timestamp: Some(now),
            last_error: None,
            ..state.after_resource(resource, flows, now)
        }),
{
}

/// An opened websocket shows its location and that there is a connection, and nothing else.
pub proof fn connections_show_their_location(state: StateView, selected: LocationView)
    ensures
        state.after_connection(selected) == (StateView {
            location_id: Some(selected.id),
            location_name: Some(selected.name),
            connected: true,
            last_error: None,
            ..state
        }),
{
}

/// An exporter starts with nothing known, nothing counted and no connection.
pub proof fn exporters_start_empty()
    ensures
        StateView::fresh().location_id is None,
        StateView::fresh().location_name is None,
        StateView::fresh().devices == Map::<Seq<char>, DeviceView>::empty(),
        !StateView::fresh().connected,
        StateView::fresh().last_event_timestamp is None,
        StateView::fresh().last_snapshot_timestamp is None,
        StateView::fresh().last_successful_sync_timestamp is None,
        StateView::fresh().websocket_reconnects_total == 0,
        StateView::fresh().token_refreshes_total == 0,
        StateView::fresh().snapshot_refreshes_total == 0,
        StateView::fresh().last_error is None,
        StateView::fresh().valve_usage == Map::<Seq<char>, UsageView>::empty(),
{
}

}
