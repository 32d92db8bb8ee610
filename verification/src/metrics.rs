//! What the exporter shows: the samples of every metric family.
use crate::clock::now_timestamp;
use crate::device::{
    CommonServiceState, DeviceState, SensorServiceState, ValveServiceState, ValveSetServiceState,
};
use crate::family::Family;
use crate::json::Scalar;
use crate::state::ExporterState;
use crate::text::same;
use crate::usage::{MeteredTime, ValveUsageTotals};
use vstd::prelude::*;

verus! {

use crate::device::{CommonView, DeviceView, SensorView, ValveSetView, ValveView};
use crate::ordered::key_order;
use crate::state::StateView;
use crate::text::texts;

/// The value of a sample.
#[derive(Debug)]
pub enum SampleValue {
    /// One if it is so, zero if not.
    Flag(bool),
    Count(u64),
    /// A moment, in milliseconds since the Unix epoch; shown in seconds.
    Timestamp(i64),
    Reading(Scalar),
    /// A flow rate; zero where none is known.
    Flow(Option<Scalar>),
    /// A span in milliseconds; shown in seconds.
    Span(u128),
    /// A volume in liters: the sum of open minutes times flow rate.
    Volume(Vec<MeteredTime>),
    /// The sum of flow rates.
    FlowSum(Vec<Scalar>),
}

/// What a [`SampleValue`] says.
pub ghost enum ValueView {
    Flag(bool),
    Count(u64),
    Timestamp(i64),
    Reading(Scalar),
    Flow(Option<Scalar>),
    Span(u128),
    Volume(Seq<MeteredTime>),
    FlowSum(Seq<Scalar>),
}

impl View for SampleValue {
    type V = ValueView;

    open spec fn view(&self) -> ValueView {
        match self {
            SampleValue::Flag(flag) => ValueView::Flag(*flag),
            SampleValue::Count(count) => ValueView::Count(*count),
            SampleValue::Timestamp(millis) => ValueView::Timestamp(*millis),
            SampleValue::Reading(reading) => ValueView::Reading(*reading),
            SampleValue::Flow(flow) => ValueView::Flow(*flow),
            SampleValue::Span(millis) => ValueView::Span(*millis),
            SampleValue::Volume(metered) => ValueView::Volume(metered@),
            SampleValue::FlowSum(flows) => ValueView::FlowSum(flows@),
        }
    }
}

/// One sample: the family, the values of its labels, and the value.
#[derive(Debug)]
pub struct Sample {
    pub family: Family,
    pub labels: Vec<String>,
    pub value: SampleValue,
}

/// What a [`Sample`] says.
pub ghost struct SampleView {
    pub family: Family,
    pub labels: Seq<Seq<char>>,
    pub value: ValueView,
}

impl View for Sample {
    type V = SampleView;

    open spec fn view(&self) -> SampleView {
        SampleView { family: self.family, labels: texts(self.labels@), value: self.value@ }
    }
}

/// What a list of samples says.
pub open spec fn shown(samples: Seq<Sample>) -> Seq<SampleView> {
    samples.map_values(|sample: Sample| sample@)
}

/// A single sample.
pub open spec fn one(family: Family, labels: Seq<Seq<char>>, value: ValueView) -> Seq<SampleView> {
    seq![SampleView { family, labels, value }]
}

/// A sample of a reading, if there is one.
pub open spec fn reading(family: Family, labels: Seq<Seq<char>>, value: Option<Scalar>) -> Seq<
    SampleView,
> {
    match value {
        Some(number) => one(family, labels, ValueView::Reading(number)),
        None => Seq::empty(),
    }
}

/// A sample of a moment, if it is known.
pub open spec fn moment(family: Family, labels: Seq<Seq<char>>, value: Option<i64>) -> Seq<
    SampleView,
> {
    match value {
        Some(millis) => one(family, labels, ValueView::Timestamp(millis)),
        None => Seq::empty(),
    }
}

/// A sample of a moment, or of zero where it is not known.
pub open spec fn moment_or_zero(
    family: Family,
    labels: Seq<Seq<char>>,
    value: Option<i64>,
) -> Seq<SampleView> {
    one(
        family,
        labels,
        ValueView::Timestamp(
            match value {
                Some(millis) => millis,
                None => 0,
            },
        ),
    )
}

/// A text, or the empty text where it is not known.
pub open spec fn or_empty(text: Option<Seq<char>>) -> Seq<char> {
    match text {
        Some(known) => known,
        None => ""@,
    }
}

/// A text, or another where it is not known.
pub open spec fn or_else(text: Option<Seq<char>>, other: Seq<char>) -> Seq<char> {
    match text {
        Some(known) => known,
        None => other,
    }
}

/// The location as a label: by name, or else by identifier.
pub open spec fn location_label(state: StateView) -> Seq<char> {
    or_else(state.location_name, or_else(state.location_id, "unknown"@))
}

impl DeviceView {
    /// A text of the common service.
    pub open spec fn common_text(self, pick: spec_fn(CommonView) -> Option<Seq<char>>) -> Option<
        Seq<char>,
    > {
        match self.common {
            Some(service) => pick(service),
            None => None,
        }
    }

    /// The device as a label: by name, or else by identifier.
    pub open spec fn label(self) -> Seq<char> {
        or_else(self.common_text(|service: CommonView| service.name), self.id)
    }

    /// The model of the device as a label.
    pub open spec fn model(self) -> Seq<char> {
        or_empty(self.common_text(|service: CommonView| service.model_type))
    }
}

/// The labels of a reading of a device.
pub open spec fn device_labels(state: StateView, device: DeviceView) -> Seq<Seq<char>> {
    seq![location_label(state), device.id, device.label(), device.model()]
}

/// The labels that describe a device.
pub open spec fn device_info_labels(state: StateView, device: DeviceView) -> Seq<Seq<char>> {
    seq![
        location_label(state),
        device.id,
        device.label(),
        device.model(),
        or_empty(device.common_text(|service: CommonView| service.serial)),
        or_empty(device.common_text(|service: CommonView| service.battery_state)),
        or_empty(device.common_text(|service: CommonView| service.rf_link_state)),
    ]
}

/// The valve as a label: by name, or else by identifier.
pub open spec fn valve_label(valve: ValveView) -> Seq<char> {
    or_else(valve.name, valve.id)
}

/// The labels of a valve.
pub open spec fn valve_labels(state: StateView, device: DeviceView, valve: ValveView) -> Seq<
    Seq<char>,
> {
    seq![location_label(state), device.id, device.label(), valve.id, valve_label(valve)]
}

/// The labels that describe a valve.
pub open spec fn valve_info_labels(state: StateView, device: DeviceView, valve: ValveView) -> Seq<
    Seq<char>,
> {
    seq![
        location_label(state),
        device.id,
        device.label(),
        valve.id,
        valve_label(valve),
        or_empty(valve.state),
        or_empty(valve.activity),
        or_empty(valve.last_error),
    ]
}

/// The labels of a valve set.
pub open spec fn valve_set_labels(state: StateView, device: DeviceView, set: ValveSetView) -> Seq<
    Seq<char>,
> {
    seq![location_label(state), device.id, device.label(), set.id]
}

/// The labels that describe a valve set.
pub open spec fn valve_set_info_labels(
    state: StateView,
    device: DeviceView,
    set: ValveSetView,
) -> Seq<Seq<char>> {
    seq![
        location_label(state),
        device.id,
        device.label(),
        set.id,
        or_empty(set.state),
        or_empty(set.last_error),
    ]
}

/// The samples about the exporter itself.
pub open spec fn exporter_samples(state: StateView, version: Seq<char>) -> Seq<SampleView> {
    let none = Seq::<Seq<char>>::empty();
    one(Family::ExporterConnected, none, ValueView::Flag(state.connected)) + moment_or_zero(
        Family::LastEventTimestamp,
        none,
        state.last_event_timestamp,
    ) + moment_or_zero(
        Family::LastSnapshotTimestamp,
        none,
        state.last_snapshot_timestamp,
    ) + moment_or_zero(
        Family::LastSuccessfulSyncTimestamp,
        none,
        state.last_successful_sync_timestamp,
    ) + one(
        Family::WebsocketReconnects,
        none,
        ValueView::Count(state.websocket_reconnects_total),
    ) + one(Family::TokenRefreshes, none, ValueView::Count(state.token_refreshes_total)) + one(
        Family::SnapshotRefreshes,
        none,
        ValueView::Count(state.snapshot_refreshes_total),
    ) + one(
        Family::ExporterInfo,
        seq![version, or_empty(state.location_id), or_empty(state.location_name)],
        ValueView::Flag(true),
    )
}

/// The samples of the common service of a device.
pub open spec fn common_samples(state: StateView, device: DeviceView, service: CommonView) -> Seq<
    SampleView,
> {
    let labels = device_labels(state, device);
    one(Family::DeviceInfo, device_info_labels(state, device), ValueView::Flag(true)) + (
    if device.sensor is Some {
        one(Family::SensorInfo, device_info_labels(state, device), ValueView::Flag(true))
    } else {
        Seq::empty()
    }) + reading(Family::BatteryLevel, labels, service.battery_level) + moment(
        Family::BatteryLevelTimestamp,
        labels,
        service.battery_level_timestamp,
    ) + reading(Family::RfLinkLevel, labels, service.rf_link_level) + moment(
        Family::RfLinkLevelTimestamp,
        labels,
        service.rf_link_level_timestamp,
    )
}

/// The samples of the sensor of a device.
pub open spec fn sensor_samples(state: StateView, device: DeviceView, service: SensorView) -> Seq<
    SampleView,
> {
    let labels = device_labels(state, device);
    reading(Family::SoilHumidity, labels, service.soil_humidity) + moment(
        Family::SoilHumidityTimestamp,
        labels,
        service.soil_humidity_timestamp,
    ) + reading(Family::SoilTemperature, labels, service.soil_temperature) + moment(
        Family::SoilTemperatureTimestamp,
        labels,
        service.soil_temperature_timestamp,
    ) + reading(Family::AmbientTemperature, labels, service.ambient_temperature) + moment(
        Family::AmbientTemperatureTimestamp,
        labels,
        service.ambient_temperature_timestamp,
    ) + reading(Family::LightIntensity, labels, service.light_intensity) + moment(
        Family::LightIntensityTimestamp,
        labels,
        service.light_intensity_timestamp,
    )
}

/// The samples of a valve.
pub open spec fn valve_samples(
    state: StateView,
    device: DeviceView,
    valve: ValveView,
    now: i64,
) -> Seq<SampleView> {
    let labels = valve_labels(state, device, valve);
    let totals = state.totals(valve.id, now);
    one(Family::ValveInfo, valve_info_labels(state, device, valve), ValueView::Flag(true)) + one(
        Family::ValveOpen,
        labels,
        ValueView::Flag(valve.activity is Some && valve.activity != Some("CLOSED"@)),
    ) + one(Family::ValveOpenTime, labels, ValueView::Span(totals.open_millis)) + one(
        Family::ValveFlow,
        labels,
        ValueView::Flow(totals.flow_liters_per_minute),
    ) + one(
        Family::ValveCurrentFlow,
        labels,
        ValueView::Flow(totals.current_flow_liters_per_minute),
    ) + one(Family::ValveWater, labels, ValueView::Volume(totals.metered)) + reading(
        Family::ValveDuration,
        labels,
        valve.duration_seconds,
    ) + moment(
        Family::ValveActivityTimestamp,
        labels,
        valve.activity_timestamp,
    ) + moment(Family::ValveStateTimestamp, labels, valve.state_timestamp)
}

/// The samples of a valve set.
pub open spec fn valve_set_samples(state: StateView, device: DeviceView, set: ValveSetView) -> Seq<
    SampleView,
> {
    one(Family::ValveSetInfo, valve_set_info_labels(state, device, set), ValueView::Flag(true))
        + moment(
        Family::ValveSetStateTimestamp,
        valve_set_labels(state, device, set),
        set.state_timestamp,
    )
}

/// The samples of the valves of a device under the given identifiers.
pub open spec fn valves_samples(
    state: StateView,
    device: DeviceView,
    ids: Seq<Seq<char>>,
    now: i64,
) -> Seq<SampleView>
    decreases ids.len(),
{
    if ids.len() == 0 {
        Seq::empty()
    } else {
        valves_samples(state, device, ids.drop_last(), now) + valve_samples(
            state,
            device,
            device.valves[ids.last()],
            now,
        )
    }
}

/// The samples of the valve sets of a device under the given identifiers.
pub open spec fn valve_sets_samples(
    state: StateView,
    device: DeviceView,
    ids: Seq<Seq<char>>,
) -> Seq<SampleView>
    decreases ids.len(),
{
    if ids.len() == 0 {
        Seq::empty()
    } else {
        valve_sets_samples(state, device, ids.drop_last()) + valve_set_samples(
            state,
            device,
            device.valve_sets[ids.last()],
        )
    }
}

/// The samples of a device and its services.
pub open spec fn device_samples(state: StateView, device: DeviceView, now: i64) -> Seq<SampleView> {
    (match device.common {
        Some(service) => common_samples(state, device, service),
        None => Seq::empty(),
    }) + (match device.sensor {
        Some(service) => sensor_samples(state, device, service),
        None => Seq::empty(),
    }) + valves_samples(state, device, key_order(device.valves.dom()), now) + valve_sets_samples(
        state,
        device,
        key_order(device.valve_sets.dom()),
    )
}

/// The samples of the devices under the given identifiers.
pub open spec fn devices_samples(state: StateView, ids: Seq<Seq<char>>, now: i64) -> Seq<SampleView>
    decreases ids.len(),
{
    if ids.len() == 0 {
        Seq::empty()
    } else {
        devices_samples(state, ids.drop_last(), now) + device_samples(
            state,
            state.devices[ids.last()],
            now,
        )
    }
}

/// What the valves under the given identifiers have let through.
pub open spec fn usage_water(state: StateView, ids: Seq<Seq<char>>, now: i64) -> Seq<MeteredTime>
    decreases ids.len(),
{
    if ids.len() == 0 {
        Seq::empty()
    } else {
        usage_water(state, ids.drop_last(), now) + state.totals(ids.last(), now).metered
    }
}

/// A flow rate, if it is known.
pub open spec fn known_flow(flow: Option<Scalar>) -> Seq<Scalar> {
    match flow {
        Some(rate) => seq![rate],
        None => Seq::empty(),
    }
}

/// The present flow through the valves of a device under the given identifiers.
pub open spec fn valves_flow(
    state: StateView,
    device: DeviceView,
    ids: Seq<Seq<char>>,
    now: i64,
) -> Seq<Scalar>
    decreases ids.len(),
{
    if ids.len() == 0 {
        Seq::empty()
    } else {
        valves_flow(state, device, ids.drop_last(), now) + known_flow(
            state.totals(device.valves[ids.last()].id, now).current_flow_liters_per_minute,
        )
    }
}

/// The present flow through all valves of the devices under the given identifiers.
pub open spec fn devices_flow(state: StateView, ids: Seq<Seq<char>>, now: i64) -> Seq<Scalar>
    decreases ids.len(),
{
    if ids.len() == 0 {
        Seq::empty()
    } else {
        let device = state.devices[ids.last()];
        devices_flow(state, ids.drop_last(), now) + valves_flow(
            state,
            device,
            key_order(device.valves.dom()),
            now,
        )
    }
}

/// Everything that the exporter shows at `now`. The volume for the whole garden is that of every
/// valve since the exporter started, also of those that are in no device any more.
pub open spec fn all_samples(state: StateView, version: Seq<char>, now: i64) -> Seq<SampleView> {
    let ids = key_order(state.devices.dom());
    let none = Seq::<Seq<char>>::empty();
    exporter_samples(state, version) + devices_samples(state, ids, now) + one(
        Family::Water,
        none,
        ValueView::Volume(usage_water(state, key_order(state.valve_usage.dom()), now)),
    ) + one(Family::CurrentFlow, none, ValueView::FlowSum(devices_flow(state, ids, now)))
}

fn copied(labels: &Vec<String>) -> (copy: Vec<String>)
    ensures
        texts(copy@) == texts(labels@),
{
    let mut copy: Vec<String> = Vec::new();
    for i in 0..labels.len()
        invariant
            copy.len() == i,
            forall|j: int| 0 <= j < i ==> (#[trigger] copy@[j])@ == labels@[j]@,
    {
        copy.push(labels[i].clone());
    }
    assert(texts(copy@) =~= texts(labels@));
    copy
}

fn add_sample(samples: &mut Vec<Sample>, family: Family, labels: &Vec<String>, value: SampleValue)
    ensures
        shown(final(samples)@) == shown(old(samples)@) + one(family, texts(labels@), value@),
{
    let ghost earlier = samples@;
    let sample = Sample { family, labels: copied(labels), value };
    let ghost view = sample@;
    samples.push(sample);
    assert(shown(samples@) =~= shown(earlier) + seq![view]);
}

fn add_reading(
    samples: &mut Vec<Sample>,
    family: Family,
    labels: &Vec<String>,
    value: Option<Scalar>,
)
    ensures
        shown(final(samples)@) == shown(old(samples)@) + reading(family, texts(labels@), value),
{
    match value {
        Some(number) => add_sample(samples, family, labels, SampleValue::Reading(number)),
        None => {
            assert(shown(samples@) =~= shown(samples@) + Seq::empty());
        },
    }
}

fn add_moment(samples: &mut Vec<Sample>, family: Family, labels: &Vec<String>, value: Option<i64>)
    ensures
        shown(final(samples)@) == shown(old(samples)@) + moment(family, texts(labels@), value),
{
    match value {
        Some(millis) => add_sample(samples, family, labels, SampleValue::Timestamp(millis)),
        None => {
            assert(shown(samples@) =~= shown(samples@) + Seq::empty());
        },
    }
}

fn add_moment_or_zero(
    samples: &mut Vec<Sample>,
    family: Family,
    labels: &Vec<String>,
    value: Option<i64>,
)
    ensures
        shown(final(samples)@) == shown(old(samples)@) + moment_or_zero(
            family,
            texts(labels@),
            value,
        ),
{
    let millis: i64 = value.unwrap_or(0);
    add_sample(samples, family, labels, SampleValue::Timestamp(millis));
}

fn text_or(text: &Option<String>, other: &str) -> (label: String)
    ensures
        label@ == or_else(text.deep_view(), other@),
{
    match text {
        Some(known) => known.clone(),
        None => other.to_owned(),
    }
}

/// The location as a label: by name, or else by identifier.
pub fn location_name_or_id(state: &ExporterState) -> (label: String)
    ensures
        label@ == location_label(state@),
{
    match &state.location_name {
        Some(name) => name.clone(),
        None => text_or(&state.location_id, "unknown"),
    }
}

/// The device as a label: by name, or else by identifier.
pub fn device_name(device: &DeviceState) -> (label: String)
    ensures
        label@ == device@.label(),
{
    match &device.common {
        Some(service) => text_or(&service.name, device.id.as_str()),
        None => device.id.clone(),
    }
}

fn model_type(device: &DeviceState) -> (label: String)
    ensures
        label@ == device@.model(),
{
    match &device.common {
        Some(service) => text_or(&service.model_type, ""),
        None => "".to_owned(),
    }
}

fn reading_labels(state: &ExporterState, device: &DeviceState) -> (labels: Vec<String>)
    ensures
        texts(labels@) == device_labels(state@, device@),
{
    let labels = vec![
        location_name_or_id(state),
        device.id.clone(),
        device_name(device),
        model_type(device),
    ];
    assert(texts(labels@) =~= device_labels(state@, device@));
    labels
}

/// Appending in turn is appending at once.
proof fn lemma_regrouped<A>(start: Seq<A>, earlier: Seq<A>, more: Seq<A>)
    ensures
        start + earlier + more == start + (earlier + more),
{
    assert(start + earlier + more =~= start + (earlier + more));
}

/// Appending nothing changes nothing.
proof fn lemma_with_nothing<A>(start: Seq<A>)
    ensures
        start + Seq::<A>::empty() == start,
{
    assert(start + Seq::<A>::empty() =~= start);
}

/// Starts a block of samples with one.
fn block_of(family: Family, labels: &Vec<String>, value: SampleValue) -> (block: Vec<Sample>)
    ensures
        shown(block@) == one(family, texts(labels@), value@),
{
    let mut block: Vec<Sample> = Vec::new();
    add_sample(&mut block, family, labels, value);
    assert(shown(block@) =~= one(family, texts(labels@), value@));
    block
}

/// Puts a block of samples behind others.
fn add_block(samples: &mut Vec<Sample>, block: Vec<Sample>)
    ensures
        shown(final(samples)@) == shown(old(samples)@) + shown(block@),
{
    let ghost earlier = samples@;
    let ghost more = block@;
    let mut block = block;
    samples.append(&mut block);
    assert(shown(samples@) =~= shown(earlier) + shown(more));
}

fn exporter_block(state: &ExporterState, version: &str) -> (block: Vec<Sample>)
    ensures
        shown(block@) == exporter_samples(state@, version@),
{
    let none: Vec<String> = Vec::new();
    assert(texts(none@) =~= Seq::<Seq<char>>::empty());
    let labels = vec![
        version.to_owned(),
        text_or(&state.location_id, ""),
        text_or(&state.location_name, ""),
    ];
    assert(texts(labels@) =~= seq![
        version@,
        or_empty(state@.location_id),
        or_empty(state@.location_name),
    ]);
    let mut block = block_of(
        Family::ExporterConnected,
        &none,
        SampleValue::Flag(state.connected),
    );
    add_moment_or_zero(
        &mut block,
        Family::LastEventTimestamp,
        &none,
        state.last_event_timestamp,
    );
    add_moment_or_zero(
        &mut block,
        Family::LastSnapshotTimestamp,
        &none,
        state.last_snapshot_timestamp,
    );
    add_moment_or_zero(
        &mut block,
        Family::LastSuccessfulSyncTimestamp,
        &none,
        state.last_successful_sync_timestamp,
    );
    add_sample(
        &mut block,
        Family::WebsocketReconnects,
        &none,
        SampleValue::Count(state.websocket_reconnects_total),
    );
    add_sample(
        &mut block,
        Family::TokenRefreshes,
        &none,
        SampleValue::Count(state.token_refreshes_total),
    );
    add_sample(
        &mut block,
        Family::SnapshotRefreshes,
        &none,
        SampleValue::Count(state.snapshot_refreshes_total),
    );
    add_sample(&mut block, Family::ExporterInfo, &labels, SampleValue::Flag(true));
    block
}

fn common_block(
    state: &ExporterState,
    device: &DeviceState,
    service: &CommonServiceState,
) -> (block: Vec<Sample>)
    requires
        device@.common == Some(service@),
    ensures
        shown(block@) == common_samples(state@, device@, service@),
{
    let labels = reading_labels(state, device);
    let info_labels = vec![
        location_name_or_id(state),
        device.id.clone(),
        device_name(device),
        model_type(device),
        text_or(&service.serial, ""),
        text_or(&service.battery_state, ""),
        text_or(&service.rf_link_state, ""),
    ];
    assert(texts(info_labels@) =~= device_info_labels(state@, device@));
    let mut block = block_of(Family::DeviceInfo, &info_labels, SampleValue::Flag(true));
    if device.sensor.is_some() {
        add_sample(&mut block, Family::SensorInfo, &info_labels, SampleValue::Flag(true));
    } else {
        assert(shown(block@) =~= shown(block@) + Seq::empty());
    }
    add_reading(&mut block, Family::BatteryLevel, &labels, service.battery_level);
    add_moment(
        &mut block,
        Family::BatteryLevelTimestamp,
        &labels,
        service.battery_level_timestamp,
    );
    add_reading(&mut block, Family::RfLinkLevel, &labels, service.rf_link_level);
    add_moment(
        &mut block,
        Family::RfLinkLevelTimestamp,
        &labels,
        service.rf_link_level_timestamp,
    );
    block
}

fn sensor_block(
    state: &ExporterState,
    device: &DeviceState,
    service: &SensorServiceState,
) -> (block: Vec<Sample>)
    ensures
        shown(block@) == sensor_samples(state@, device@, service@),
{
    let labels = reading_labels(state, device);
    let mut block: Vec<Sample> = Vec::new();
    add_reading(&mut block, Family::SoilHumidity, &labels, service.soil_humidity);
    assert(shown(block@) =~= reading(
        Family::SoilHumidity,
        texts(labels@),
        service.soil_humidity,
    ));
    add_moment(
        &mut block,
        Family::SoilHumidityTimestamp,
        &labels,
        service.soil_humidity_timestamp,
    );
    add_reading(&mut block, Family::SoilTemperature, &labels, service.soil_temperature);
    add_moment(
        &mut block,
        Family::SoilTemperatureTimestamp,
        &labels,
        service.soil_temperature_timestamp,
    );
    add_reading(&mut block, Family::AmbientTemperature, &labels, service.ambient_temperature);
    add_moment(
        &mut block,
        Family::AmbientTemperatureTimestamp,
        &labels,
        service.ambient_temperature_timestamp,
    );
    add_reading(&mut block, Family::LightIntensity, &labels, service.light_intensity);
    add_moment(
        &mut block,
        Family::LightIntensityTimestamp,
        &labels,
        service.light_intensity_timestamp,
    );
    block
}

fn valve_block(
    state: &ExporterState,
    device: &DeviceState,
    valve: &ValveServiceState,
    totals: ValveUsageTotals,
    Ghost(now): Ghost<i64>,
) -> (block: Vec<Sample>)
    requires
        totals@ == state@.totals(valve@.id, now),
    ensures
        shown(block@) == valve_samples(state@, device@, valve@, now),
{
    let location = location_name_or_id(state);
    let controller_name = device_name(device);
    let valve_name = text_or(&valve.name, valve.id.as_str());
    let activity = text_or(&valve.activity, "");
    let open = match &valve.activity {
        Some(activity) => !same(activity.as_str(), "CLOSED"),
        None => false,
    };
    let labels = vec![
        location.clone(),
        device.id.clone(),
        controller_name.clone(),
        valve.id.clone(),
        valve_name.clone(),
    ];
    assert(texts(labels@) =~= valve_labels(state@, device@, valve@));
    let info_labels = vec![
        location,
        device.id.clone(),
        controller_name,
        valve.id.clone(),
        valve_name,
        text_or(&valve.state, ""),
        activity,
        text_or(&valve.last_error, ""),
    ];
    assert(texts(info_labels@) =~= valve_info_labels(state@, device@, valve@));
    let mut block = block_of(Family::ValveInfo, &info_labels, SampleValue::Flag(true));
    add_sample(&mut block, Family::ValveOpen, &labels, SampleValue::Flag(open));
    add_sample(
        &mut block,
        Family::ValveOpenTime,
        &labels,
        SampleValue::Span(totals.open_millis),
    );
    add_sample(
        &mut block,
        Family::ValveFlow,
        &labels,
        SampleValue::Flow(totals.flow_liters_per_minute),
    );
    add_sample(
        &mut block,
        Family::ValveCurrentFlow,
        &labels,
        SampleValue::Flow(totals.current_flow_liters_per_minute),
    );
    add_sample(&mut block, Family::ValveWater, &labels, SampleValue::Volume(totals.metered));
    add_reading(&mut block, Family::ValveDuration, &labels, valve.duration_seconds);
    add_moment(&mut block, Family::ValveActivityTimestamp, &labels, valve.activity_timestamp);
    add_moment(&mut block, Family::ValveStateTimestamp, &labels, valve.state_timestamp);
    block
}

/// Adds the present flow through a valve to the sum.
fn add_flow(flows: &mut Vec<Scalar>, flow: Option<Scalar>)
    ensures
        final(flows)@ == old(flows)@ + known_flow(flow),
{
    match flow {
        Some(rate) => flows.push(rate),
        None => {
            assert(flows@ =~= flows@ + Seq::empty());
        },
    }
}

/// Adds the samples of a valve, and its present flow to the sum.
fn add_valve_samples(
    samples: &mut Vec<Sample>,
    flows: &mut Vec<Scalar>,
    state: &ExporterState,
    device: &DeviceState,
    valve: &ValveServiceState,
    now: i64,
)
    ensures
        shown(final(samples)@) == shown(old(samples)@) + valve_samples(
            state@,
            device@,
            valve@,
            now,
        ),
        final(flows)@ == old(flows)@ + known_flow(
            state@.totals(valve@.id, now).current_flow_liters_per_minute,
        ),
{
    let totals = state.valve_usage_totals_at(valve.id.as_str(), now);
    add_flow(flows, totals.current_flow_liters_per_minute);
    add_block(samples, valve_block(state, device, valve, totals, Ghost(now)));
}

fn valve_set_block(
    state: &ExporterState,
    device: &DeviceState,
    set: &ValveSetServiceState,
) -> (block: Vec<Sample>)
    ensures
        shown(block@) == valve_set_samples(state@, device@, set@),
{
    let labels = vec![
        location_name_or_id(state),
        device.id.clone(),
        device_name(device),
        set.id.clone(),
    ];
    assert(texts(labels@) =~= valve_set_labels(state@, device@, set@));
    let info_labels = vec![
        location_name_or_id(state),
        device.id.clone(),
        device_name(device),
        set.id.clone(),
        text_or(&set.state, ""),
        text_or(&set.last_error, ""),
    ];
    assert(texts(info_labels@) =~= valve_set_info_labels(state@, device@, set@));
    let mut block = block_of(Family::ValveSetInfo, &info_labels, SampleValue::Flag(true));
    add_moment(&mut block, Family::ValveSetStateTimestamp, &labels, set.state_timestamp);
    block
}

/// Adds the samples of a device's valves, and their present flow to the sum.
fn add_valves_samples(
    samples: &mut Vec<Sample>,
    flows: &mut Vec<Scalar>,
    state: &ExporterState,
    device: &DeviceState,
    now: i64,
)
    ensures
        shown(final(samples)@) == shown(old(samples)@) + valves_samples(
            state@,
            device@,
            key_order(device@.valves.dom()),
            now,
        ),
        final(flows)@ == old(flows)@ + valves_flow(
            state@,
            device@,
            key_order(device@.valves.dom()),
            now,
        ),
{
    let ghost start = shown(samples@);
    let ghost flows_start = flows@;
    let ghost ids = key_order(device@.valves.dom());
    let count: usize = device.valves.len();
    proof {
        lemma_with_nothing(start);
        lemma_with_nothing(flows_start);
    }
    for i in 0..count
        invariant
            ids == key_order(device@.valves.dom()),
            count == ids.len(),
            shown(samples@) == start + valves_samples(state@, device@, ids.take(i as int), now),
            flows@ == flows_start + valves_flow(state@, device@, ids.take(i as int), now),
    {
        let valve = device.valves.value_at(i);
        add_valve_samples(samples, flows, state, device, valve, now);
        proof {
            let rest = ids.take(i as int);
            let totals = state@.totals(valve@.id, now);
            assert(ids.take(i + 1).drop_last() =~= rest);
            lemma_regrouped(
                start,
                valves_samples(state@, device@, rest, now),
                valve_samples(state@, device@, valve@, now),
            );
            lemma_regrouped(
                flows_start,
                valves_flow(state@, device@, rest, now),
                known_flow(totals.current_flow_liters_per_minute),
            );
        }
    }
    assert(ids.take(ids.len() as int) =~= ids);
}

/// Adds the samples of a device's valve sets.
fn add_valve_sets_samples(samples: &mut Vec<Sample>, state: &ExporterState, device: &DeviceState)
    ensures
        shown(final(samples)@) == shown(old(samples)@) + valve_sets_samples(
            state@,
            device@,
            key_order(device@.valve_sets.dom()),
        ),
{
    let ghost start = shown(samples@);
    let ghost ids = key_order(device@.valve_sets.dom());
    let count: usize = device.valve_sets.len();
    proof {
        lemma_with_nothing(start);
    }
    for i in 0..count
        invariant
            ids == key_order(device@.valve_sets.dom()),
            count == ids.len(),
            shown(samples@) == start + valve_sets_samples(state@, device@, ids.take(i as int)),
    {
        let set = device.valve_sets.value_at(i);
        add_block(samples, valve_set_block(state, device, set));
        proof {
            let rest = ids.take(i as int);
            assert(ids.take(i + 1).drop_last() =~= rest);
            lemma_regrouped(
                start,
                valve_sets_samples(state@, device@, rest),
                valve_set_samples(state@, device@, set@),
            );
        }
    }
    assert(ids.take(ids.len() as int) =~= ids);
}

/// Adds the samples of a device, and its present flow to the sum.
fn add_device_samples(
    samples: &mut Vec<Sample>,
    flows: &mut Vec<Scalar>,
    state: &ExporterState,
    device: &DeviceState,
    now: i64,
)
    ensures
        shown(final(samples)@) == shown(old(samples)@) + device_samples(state@, device@, now),
        final(flows)@ == old(flows)@ + valves_flow(
            state@,
            device@,
            key_order(device@.valves.dom()),
            now,
        ),
{
    let ghost start = shown(samples@);
    let ghost common = match device@.common {
        Some(service) => common_samples(state@, device@, service),
        None => Seq::empty(),
    };
    let ghost sensor = match device@.sensor {
        Some(service) => sensor_samples(state@, device@, service),
        None => Seq::empty(),
    };
    proof {
        let valves = valves_samples(state@, device@, key_order(device@.valves.dom()), now);
        let sets = valve_sets_samples(state@, device@, key_order(device@.valve_sets.dom()));
        lemma_with_nothing(start);
        lemma_with_nothing(start + common);
        lemma_regrouped(start, common, sensor);
        lemma_regrouped(start, common + sensor, valves);
        lemma_regrouped(start, common + sensor + valves, sets);
    }
    if let Some(service) = &device.common {
        add_block(samples, common_block(state, device, service));
    }
    if let Some(service) = &device.sensor {
        add_block(samples, sensor_block(state, device, service));
    }
    add_valves_samples(samples, flows, state, device, now);
    add_valve_sets_samples(samples, state, device);
}

/// What all valves have let through since the exporter started.
fn garden_water(state: &ExporterState, now: i64) -> (water: Vec<MeteredTime>)
    ensures
        water@ == usage_water(state@, key_order(state@.valve_usage.dom()), now),
{
    let mut water: Vec<MeteredTime> = Vec::new();
    let ghost ids = key_order(state@.valve_usage.dom());
    let count: usize = state.valve_usage.len();
    for i in 0..count
        invariant
            ids == key_order(state@.valve_usage.dom()),
            count == ids.len(),
            water@ == usage_water(state@, ids.take(i as int), now),
    {
        let mut totals = state.valve_usage.value_at(i).totals(now);
        water.append(&mut totals.metered);
        assert(ids.take(i + 1).drop_last() =~= ids.take(i as int));
    }
    assert(ids.take(ids.len() as int) =~= ids);
    water
}

/// Collects everything that the exporter shows.
pub fn render_metrics(state: &ExporterState, version: &str) -> (samples: Vec<Sample>)
    ensures
        exists|now: i64| shown(samples@) == #[trigger] all_samples(state@, version@, now),
{
    let now: i64 = now_timestamp();
    render_metrics_at(state, version, now)
}

/// Collects everything that the exporter shows at `now`.
pub fn render_metrics_at(state: &ExporterState, version: &str, now: i64) -> (samples: Vec<Sample>)
    ensures
        shown(samples@) == all_samples(state@, version@, now),
{
    let mut samples = exporter_block(state, version);
    let mut flows: Vec<Scalar> = Vec::new();
    let ghost ids = key_order(state@.devices.dom());
    let count: usize = state.devices.len();
    proof {
        lemma_with_nothing(exporter_samples(state@, version@));
    }
    for i in 0..count
        invariant
            ids == key_order(state@.devices.dom()),
            count == ids.len(),
            shown(samples@) == exporter_samples(state@, version@) + devices_samples(
                state@,
                ids.take(i as int),
                now,
            ),
            flows@ == devices_flow(state@, ids.take(i as int), now),
    {
        let device = state.devices.value_at(i);
        add_device_samples(&mut samples, &mut flows, state, device, now);
        proof {
            let rest = ids.take(i as int);
            assert(ids.take(i + 1).drop_last() =~= rest);
            lemma_regrouped(
                exporter_samples(state@, version@),
                devices_samples(state@, rest, now),
                device_samples(state@, device@, now),
            );
        }
    }
    assert(ids.take(ids.len() as int) =~= ids);
    let none: Vec<String> = Vec::new();
    assert(texts(none@) =~= Seq::<Seq<char>>::empty());
    add_sample(&mut samples, Family::Water, &none, SampleValue::Volume(garden_water(state, now)));
    add_sample(&mut samples, Family::CurrentFlow, &none, SampleValue::FlowSum(flows));
    samples
}

/// What a [`Sample`] says of each of its parts is what the field holds.
pub proof fn samples_say_what_they_hold(sample: Sample)
    ensures
        sample@.family == sample.family,
        sample@.labels == texts(sample.labels@),
        sample@.value == sample.value@,
{
}

/// What a [`SampleValue`] says is its value, and of which sort it is.
pub proof fn values_say_what_they_hold(value: SampleValue)
    ensures
        match value {
            SampleValue::Flag(flag) => value@ == ValueView::Flag(flag),
            SampleValue::Count(count) => value@ == ValueView::Count(count),
            SampleValue::Timestamp(millis) => value@ == ValueView::Timestamp(millis),
            SampleValue::Reading(reading) => value@ == ValueView::Reading(reading),
            SampleValue::Flow(flow) => value@ == ValueView::Flow(flow),
            SampleValue::Span(millis) => value@ == ValueView::Span(millis),
            SampleValue::Volume(metered) => value@ == ValueView::Volume(metered@),
            SampleValue::FlowSum(flows) => value@ == ValueView::FlowSum(flows@),
        },
{
}

}
