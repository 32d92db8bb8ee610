//! The exporter's cache of what Gardena has reported.
use crate::clock::now_timestamp;
use crate::device::{
    read_common_service, read_sensor_service, read_valve_service, read_valve_set_service,
    DeviceState,
};
use crate::json::{
    copy_document, relationship_one_id, string_attr, string_nested_attr, timestamp_nested_attr,
    Scalar,
};
use crate::location::LocationSummary;
use crate::ordered::OrderedMap;
use crate::text::{copy_text, same};
use crate::usage::{ValveUsageState, ValveUsageTotals};
use serde_json::Value;
use vstd::prelude::*;

verus! {

use crate::device::{
    common_service, sensor_service, valve_service, valve_set_service, DeviceView,
};
use crate::json::{document, nested_millis_at, nested_text_at, related_id, text_at, Json};
use crate::location::LocationView;
use crate::usage::{
    counted_time_never_shrinks, elapsed, open_interval_is_counted, reports_are_idempotent,
    reports_keep_consistency, room_for, weighed, TotalsView, UsageView,
};

/// A JSON:API resource: a location, a device, or a service of a device.
#[derive(Debug)]
pub struct JsonApiResource {
    pub id: String,
    pub kind: String,
    pub attributes: Option<Value>,
    pub relationships: Option<Value>,
}

/// What a [`JsonApiResource`] says.
pub ghost struct ResourceView {
    pub id: Seq<char>,
    pub kind: Seq<char>,
    pub attributes: Option<Json>,
    pub relationships: Option<Json>,
}

impl View for JsonApiResource {
    type V = ResourceView;

    open spec fn view(&self) -> ResourceView {
        ResourceView {
            id: self.id@,
            kind: self.kind@,
            attributes: document(self.attributes),
            relationships: document(self.relationships),
        }
    }
}

impl Clone for JsonApiResource {
    /// A second one that says the same.
    fn clone(&self) -> (copy: Self)
        ensures
            copy@ == self@,
    {
        JsonApiResource {
            id: self.id.clone(),
            kind: self.kind.clone(),
            attributes: copy_document(&self.attributes),
            relationships: copy_document(&self.relationships),
        }
    }
}

impl ResourceView {
    /// The device that a service belongs to.
    pub open spec fn device(self) -> Option<Seq<char>> {
        related_id(self.relationships, "device"@)
    }

    /// Whether a valve is at work: it has an activity, and that is not `CLOSED`.
    pub open spec fn reports_open(self) -> bool {
        match nested_text_at(self.attributes, "activity"@, "value"@) {
            Some(activity) => activity != "CLOSED"@,
            None => false,
        }
    }

    /// When a valve came to its activity: by its own account, or else at `now`.
    pub open spec fn reported_at(self, now: i64) -> i64 {
        match nested_millis_at(self.attributes, "activity"@, "timestamp"@) {
            Some(millis) => millis,
            None => match nested_millis_at(self.attributes, "state"@, "timestamp"@) {
                Some(millis) => millis,
                None => now,
            },
        }
    }
}

/// The full state of a location.
#[derive(Debug)]
pub struct SnapshotResponse {
    pub data: JsonApiResource,
    pub included: Vec<JsonApiResource>,
}

/// What a [`SnapshotResponse`] says.
pub ghost struct SnapshotView {
    pub data: ResourceView,
    pub included: Seq<ResourceView>,
}

impl View for SnapshotResponse {
    type V = SnapshotView;

    open spec fn view(&self) -> SnapshotView {
        SnapshotView {
            data: self.data@,
            included: self.included@.map_values(|resource: JsonApiResource| resource@),
        }
    }
}

impl Clone for SnapshotResponse {
    /// A second one that says the same.
    fn clone(&self) -> (copy: Self)
        ensures
            copy@ == self@,
    {
        let mut included: Vec<JsonApiResource> = Vec::new();
        for i in 0..self.included.len()
            invariant
                included.len() == i,
                forall|j: int| 0 <= j < i ==> (#[trigger] included@[j])@ == self.included@[j]@,
        {
            included.push(self.included[i].clone());
        }
        let copy = SnapshotResponse { data: self.data.clone(), included };
        assert(copy@.included =~= self@.included);
        copy
    }
}

/// The answer to a request for a websocket.
#[derive(Debug)]
pub struct WebSocketCreatedResponse {
    pub data: JsonApiResource,
}

impl View for WebSocketCreatedResponse {
    type V = ResourceView;

    open spec fn view(&self) -> ResourceView {
        self.data@
    }
}

impl Clone for WebSocketCreatedResponse {
    /// A second one that says the same.
    fn clone(&self) -> (copy: Self)
        ensures
            copy@ == self@,
    {
        WebSocketCreatedResponse { data: self.data.clone() }
    }
}

/// The flow rates that the water model assumes, in liters per minute: one for valves without a
/// rate of their own, and those by the identifier of the valve.
pub ghost struct FlowView {
    pub default_rate: Option<Scalar>,
    pub by_valve: Map<Seq<char>, Scalar>,
}

impl FlowView {
    /// The rate of a valve: its own, or else the one for all.
    pub open spec fn rate_of(self, valve_id: Seq<char>) -> Option<Scalar> {
        if self.by_valve.contains_key(valve_id) {
            Some(self.by_valve[valve_id])
        } else {
            self.default_rate
        }
    }
}

/// Flow rates from a common one and those by valve.
pub open spec fn flow_rates(
    default_rate: Option<Scalar>,
    by_valve: Map<Seq<char>, Scalar>,
) -> FlowView {
    FlowView { default_rate, by_valve }
}

/// Finds the rate of a valve: its own, or else the one for all.
pub fn resolve_valve_estimated_flow_liters_per_minute(
    valve_id: &str,
    default_flow: Option<Scalar>,
    valve_flows: &OrderedMap<Scalar>,
) -> (rate: Option<Scalar>)
    ensures
        rate == flow_rates(default_flow, valve_flows@).rate_of(valve_id@),
        rate == if valve_flows@.contains_key(valve_id@) {
            Some(valve_flows@[valve_id@])
        } else {
            default_flow
        },
{
    match valve_flows.get(valve_id) {
        Some(rate) => Some(*rate),
        None => default_flow,
    }
}

/// The cache: the location, its devices, and how the exporter has fared. Timestamps are in
/// milliseconds since the Unix epoch.
#[derive(Debug)]
pub struct ExporterState {
    pub location_id: Option<String>,
    pub location_name: Option<String>,
    pub devices: OrderedMap<DeviceState>,
    pub connected: bool,
    pub last_event_timestamp: Option<i64>,
    pub last_snapshot_timestamp: Option<i64>,
    pub last_successful_sync_timestamp: Option<i64>,
    pub websocket_reconnects_total: u64,
    pub token_refreshes_total: u64,
    pub snapshot_refreshes_total: u64,
    pub last_error: Option<String>,
    pub valve_usage: OrderedMap<ValveUsageState>,
}

/// A count and one more, as far as it can be held.
pub open spec fn counted(count: u64) -> u64 {
    if count < u64::MAX {
        (count + 1) as u64
    } else {
        count
    }
}

/// What an [`ExporterState`] says.
pub ghost struct StateView {
    pub location_id: Option<Seq<char>>,
    pub location_name: Option<Seq<char>>,
    pub devices: Map<Seq<char>, DeviceView>,
    pub connected: bool,
    pub last_event_timestamp: Option<i64>,
    pub last_snapshot_timestamp: Option<i64>,
    pub last_successful_sync_timestamp: Option<i64>,
    pub websocket_reconnects_total: u64,
    pub token_refreshes_total: u64,
    pub snapshot_refreshes_total: u64,
    pub last_error: Option<Seq<char>>,
    pub valve_usage: Map<Seq<char>, UsageView>,
}

impl View for ExporterState {
    type V = StateView;

    open spec fn view(&self) -> StateView {
        StateView {
            location_id: self.location_id.deep_view(),
            location_name: self.location_name.deep_view(),
            devices: self.devices@,
            connected: self.connected,
            last_event_timestamp: self.last_event_timestamp,
            last_snapshot_timestamp: self.last_snapshot_timestamp,
            last_successful_sync_timestamp: self.last_successful_sync_timestamp,
            websocket_reconnects_total: self.websocket_reconnects_total,
            token_refreshes_total: self.token_refreshes_total,
            snapshot_refreshes_total: self.snapshot_refreshes_total,
            last_error: self.last_error.deep_view(),
            valve_usage: self.valve_usage@,
        }
    }
}

impl StateView {
    /// The state of an exporter that has just started.
    pub open spec fn fresh() -> StateView {
        StateView {
            location_id: None,
            location_name: None,
            devices: Map::empty(),
            connected: false,
            last_event_timestamp: None,
            last_snapshot_timestamp: None,
            last_successful_sync_timestamp: None,
            websocket_reconnects_total: 0,
            token_refreshes_total: 0,
            snapshot_refreshes_total: 0,
            last_error: None,
            valve_usage: Map::empty(),
        }
    }

    /// Every device stands under its own identifier, and so do its services; the use of every
    /// valve is accounted for, and a valve has an open interval exactly while it is open.
    pub open spec fn consistent(self) -> bool {
        &&& self.devices.dom().finite()
        &&& self.valve_usage.dom().finite()
        &&& forall|id: Seq<char>|
            #[trigger] self.devices.contains_key(id) ==> self.devices[id].id == id
                && self.devices[id].consistent()
        &&& forall|id: Seq<char>|
            #[trigger] self.valve_usage.contains_key(id) ==> self.valve_usage[id].consistent()
        &&& forall|id: Seq<char>, valve_id: Seq<char>|
            self.devices.contains_key(id) && #[trigger] self.devices[id].valves.contains_key(
                valve_id,
            ) ==> self.valve_usage.contains_key(valve_id)
    }

    /// What is known of a device.
    pub open spec fn device(self, id: Seq<char>) -> DeviceView {
        if self.devices.contains_key(id) {
            self.devices[id]
        } else {
            DeviceView::named(id)
        }
    }

    /// With a device in place of what was known of it.
    pub open spec fn with_device(self, id: Seq<char>, device: DeviceView) -> StateView {
        StateView { devices: self.devices.insert(id, device), ..self }
    }

    /// How much a valve was used.
    pub open spec fn usage(self, valve_id: Seq<char>) -> UsageView {
        if self.valve_usage.contains_key(valve_id) {
            self.valve_usage[valve_id]
        } else {
            UsageView::unused()
        }
    }

    /// After the use of a valve was brought up to date from a `VALVE` resource.
    pub open spec fn after_valve_report(
        self,
        resource: ResourceView,
        flow: Option<Scalar>,
        now: i64,
    ) -> StateView {
        StateView {
            valve_usage: self.valve_usage.insert(
                resource.id,
                self.usage(resource.id).after_report(
                    resource.reports_open(),
                    resource.reported_at(now),
                    flow,
                ),
            ),
            ..self
        }
    }

    /// The totals of a valve at `now`.
    pub open spec fn totals(self, valve_id: Seq<char>, now: i64) -> TotalsView {
        if self.valve_usage.contains_key(valve_id) {
            self.valve_usage[valve_id].totals_at(now)
        } else {
            TotalsView::none()
        }
    }

    /// After a resource was taken in at `now`. A service that names no device changes nothing,
    /// nor does a resource of another kind.
    pub open spec fn after_resource(
        self,
        resource: ResourceView,
        flows: FlowView,
        now: i64,
    ) -> StateView {
        if resource.kind == "LOCATION"@ {
            StateView {
                location_id: Some(resource.id),
                location_name: text_at(resource.attributes, "name"@),
                ..self
            }
        } else if resource.kind == "DEVICE"@ {
            self.with_device(
                resource.id,
                DeviceView {
                    location_id: related_id(resource.relationships, "location"@),
                    ..self.device(resource.id)
                },
            )
        } else {
            match resource.device() {
                Some(id) => self.after_service(id, resource, flows, now),
                None => self,
            }
        }
    }

    /// After a service of the device `id` was taken in at `now`.
    pub open spec fn after_service(
        self,
        id: Seq<char>,
        resource: ResourceView,
        flows: FlowView,
        now: i64,
    ) -> StateView {
        let device = self.device(id);
        if resource.kind == "COMMON"@ {
            self.with_device(
                id,
                DeviceView { common: Some(common_service(resource.attributes)), ..device },
            )
        } else if resource.kind == "SENSOR"@ {
            self.with_device(
                id,
                DeviceView { sensor: Some(sensor_service(resource.attributes)), ..device },
            )
        } else if resource.kind == "VALVE"@ {
            self.after_valve_report(resource, flows.rate_of(resource.id), now).with_device(
                id,
                DeviceView {
                    valves: device.valves.insert(
                        resource.id,
                        valve_service(resource.id, resource.attributes),
                    ),
                    ..device
                },
            )
        } else if resource.kind == "VALVE_SET"@ {
            self.with_device(
                id,
                DeviceView {
                    valve_sets: device.valve_sets.insert(
                        resource.id,
                        valve_set_service(resource.id, resource.attributes),
                    ),
                    ..device
                },
            )
        } else {
            self
        }
    }

    /// After resources were taken in one after the other at `now`.
    pub open spec fn after_resources(
        self,
        resources: Seq<ResourceView>,
        flows: FlowView,
        now: i64,
    ) -> StateView
        decreases resources.len(),
    {
        if resources.len() == 0 {
            self
        } else {
            self.after_resources(resources.drop_last(), flows, now).after_resource(
                resources.last(),
                flows,
                now,
            )
        }
    }

    /// After a token was obtained.
    pub open spec fn after_token(self) -> StateView {
        StateView {
            token_refreshes_total: counted(self.token_refreshes_total),
            last_error: None,
            ..self
        }
    }

    /// After a snapshot was counted.
    pub open spec fn after_refresh(self) -> StateView {
        StateView {
            snapshot_refreshes_total: counted(self.snapshot_refreshes_total),
            last_error: None,
            ..self
        }
    }

    /// After the websocket to a location was opened.
    pub open spec fn after_connection(self, selected: LocationView) -> StateView {
        StateView {
            location_id: Some(selected.id),
            location_name: Some(selected.name),
            connected: true,
            last_error: None,
            ..self
        }
    }

    /// After a resource came over the websocket at `now`.
    pub open spec fn after_event(
        self,
        resource: ResourceView,
        flows: FlowView,
        now: i64,
    ) -> StateView {
        StateView {
            connected: true,
            last_event_timestamp: Some(now),
            last_successful_sync_timestamp: Some(now),
            last_error: None,
            ..self.after_resource(resource, flows, now)
        }
    }

    /// After the connection failed.
    pub open spec fn after_failure(self, words: Seq<char>) -> StateView {
        StateView {
            connected: false,
            last_error: Some(words),
            websocket_reconnects_total: counted(self.websocket_reconnects_total),
            ..self
        }
    }

    /// After the full state of the selected location was taken in at `now`: the devices are
    /// those of the snapshot alone, the use of valves is carried on. A snapshot opens no
    /// websocket, so it says nothing of the connection.
    pub open spec fn after_snapshot(
        self,
        selected: LocationView,
        snapshot: SnapshotView,
        flows: FlowView,
        now: i64,
    ) -> StateView {
        let emptied = StateView {
            location_id: Some(selected.id),
            location_name: Some(selected.name),
            devices: Map::empty(),
            ..self
        };
        StateView {
            last_snapshot_timestamp: Some(now),
            last_successful_sync_timestamp: Some(now),
            ..emptied.after_resource(snapshot.data, flows, now).after_resources(
                snapshot.included,
                flows,
                now,
            )
        }
    }
}

impl Clone for ExporterState {
    /// A second one that says the same.
    fn clone(&self) -> (copy: Self)
        ensures
            copy@ == self@,
    {
        let copy = ExporterState {
            location_id: copy_text(&self.location_id),
            location_name: copy_text(&self.location_name),
            devices: self.devices.clone(),
            connected: self.connected,
            last_event_timestamp: self.last_event_timestamp,
            last_snapshot_timestamp: self.last_snapshot_timestamp,
            last_successful_sync_timestamp: self.last_successful_sync_timestamp,
            websocket_reconnects_total: self.websocket_reconnects_total,
            token_refreshes_total: self.token_refreshes_total,
            snapshot_refreshes_total: self.snapshot_refreshes_total,
            last_error: copy_text(&self.last_error),
            valve_usage: self.valve_usage.clone(),
        };
        assert(copy.devices@ =~= self.devices@);
        assert(copy.valve_usage@ =~= self.valve_usage@);
        copy
    }
}

impl Default for ExporterState {
    /// The state of an exporter that has just started.
    fn default() -> (state: Self)
        ensures
            state@ == StateView::fresh(),
    {
        ExporterState {
            location_id: None,
            location_name: None,
            devices: OrderedMap::new(),
            connected: false,
            last_event_timestamp: None,
            last_snapshot_timestamp: None,
            last_successful_sync_timestamp: None,
            websocket_reconnects_total: 0,
            token_refreshes_total: 0,
            snapshot_refreshes_total: 0,
            last_error: None,
            valve_usage: OrderedMap::new(),
        }
    }
}

impl ExporterState {
    /// Takes in the full state of the selected location.
    pub fn apply_snapshot(
        &mut self,
        selected: &LocationSummary,
        snapshot: &SnapshotResponse,
        default_flow: Option<Scalar>,
        valve_flows: &OrderedMap<Scalar>,
    )
        ensures
            exists|now: i64|
                final(self)@ == #[trigger] old(self)@.after_snapshot(
                    selected@,
                    snapshot@,
                    flow_rates(default_flow, valve_flows@),
                    now,
                ),
    {
        let now: i64 = now_timestamp();
        self.apply_snapshot_at(selected, snapshot, default_flow, valve_flows, now);
    }

    /// Takes in the full state of the selected location at `now`.
    pub fn apply_snapshot_at(
        &mut self,
        selected: &LocationSummary,
        snapshot: &SnapshotResponse,
        default_flow: Option<Scalar>,
        valve_flows: &OrderedMap<Scalar>,
        now: i64,
    )
        ensures
            final(self)@ == old(self)@.after_snapshot(
                selected@,
                snapshot@,
                flow_rates(default_flow, valve_flows@),
                now,
            ),
    {
        self.location_id = Some(selected.id.clone());
        self.location_name = Some(selected.name.clone());
        self.devices.clear();
        self.apply_resource_at(&snapshot.data, default_flow, valve_flows, now);
        let ghost start = self@;
        let ghost all = snapshot@.included;
        for i in 0..snapshot.included.len()
            invariant
                all == snapshot@.included,
                self@ == start.after_resources(
                    all.take(i as int),
                    flow_rates(default_flow, valve_flows@),
                    now,
                ),
        {
            self.apply_resource_at(&snapshot.included[i], default_flow, valve_flows, now);
            proof {
                assert(all.take(i + 1).drop_last() =~= all.take(i as int));
                assert(all.take(i + 1).last() == snapshot.included@[i as int]@);
            }
        }
        assert(all.take(all.len() as int) =~= all);
        self.last_snapshot_timestamp = Some(now);
        self.last_successful_sync_timestamp = Some(now);
    }

    /// Takes in one resource.
    pub fn apply_resource(
        &mut self,
        resource: &JsonApiResource,
        default_flow: Option<Scalar>,
        valve_flows: &OrderedMap<Scalar>,
    )
        ensures
            exists|now: i64|
                final(self)@ == #[trigger] old(self)@.after_resource(
                    resource@,
                    flow_rates(default_flow, valve_flows@),
                    now,
                ),
    {
        let now: i64 = now_timestamp();
        self.apply_resource_at(resource, default_flow, valve_flows, now);
    }

    /// Takes in one resource at `now`.
    pub fn apply_resource_at(
        &mut self,
        resource: &JsonApiResource,
        default_flow: Option<Scalar>,
        valve_flows: &OrderedMap<Scalar>,
        now: i64,
    )
        ensures
            final(self)@ == old(self)@.after_resource(
                resource@,
                flow_rates(default_flow, valve_flows@),
                now,
            ),
    {
        let kind = resource.kind.as_str();
        let attributes = resource.attributes.as_ref();
        let relationships = resource.relationships.as_ref();
        if same(kind, "LOCATION") {
            self.location_id = Some(resource.id.clone());
            self.location_name = string_attr(attributes, "name");
        } else if same(kind, "DEVICE") {
            let device = self.device_mut(resource.id.as_str());
            device.location_id = relationship_one_id(relationships, "location");
        } else if let Some(device_id) = relationship_one_id(relationships, "device") {
            if same(kind, "COMMON") {
                let device = self.device_mut(device_id.as_str());
                device.common = Some(read_common_service(attributes));
            } else if same(kind, "SENSOR") {
                let device = self.device_mut(device_id.as_str());
                device.sensor = Some(read_sensor_service(attributes));
            } else if same(kind, "VALVE") {
                let flow = resolve_valve_estimated_flow_liters_per_minute(
                    resource.id.as_str(),
                    default_flow,
                    valve_flows,
                );
                self.update_valve_usage(resource, flow, now);
                let device = self.device_mut(device_id.as_str());
                device.valves.insert(
                    resource.id.clone(),
                    read_valve_service(resource.id.clone(), attributes),
                );
            } else if same(kind, "VALVE_SET") {
                let device = self.device_mut(device_id.as_str());
                device.valve_sets.insert(
                    resource.id.clone(),
                    read_valve_set_service(resource.id.clone(), attributes),
                );
            }
        }
    }

    /// The device `device_id`, made known if it was not.
    fn device_mut(&mut self, device_id: &str) -> (device: &mut DeviceState)
        ensures
            device@ == old(self)@.device(device_id@),
            final(self)@ == old(self)@.with_device(device_id@, final(device)@),
    {
        let ghost start = self@;
        if self.devices.get(device_id).is_none() {
            self.devices.insert(device_id.to_owned(), DeviceState::named(device_id.to_owned()));
        }
        proof {
            assert forall|later: DeviceView|
                #[trigger] self.devices@.insert(device_id@, later) == start.devices.insert(
                    device_id@,
                    later,
                ) by {
                assert(self.devices@.insert(device_id@, later) =~= start.devices.insert(
                    device_id@,
                    later,
                ));
            }
        }
        match self.devices.get_mut(device_id) {
            Some(device) => device,
            None => vstd::pervasive::unreached(),
        }
    }

    /// Brings the use of a valve up to date from a `VALVE` resource.
    fn update_valve_usage(
        &mut self,
        resource: &JsonApiResource,
        estimated_flow_liters_per_minute: Option<Scalar>,
        now: i64,
    )
        ensures
            final(self)@ == old(self)@.after_valve_report(
                resource@,
                estimated_flow_liters_per_minute,
                now,
            ),
    {
        let attributes = resource.attributes.as_ref();
        let is_open = match string_nested_attr(attributes, "activity", "value") {
            Some(activity) => !same(activity.as_str(), "CLOSED"),
            None => false,
        };
        let transition_timestamp: i64 = match timestamp_nested_attr(
            attributes,
            "activity",
            "timestamp",
        ) {
            Some(millis) => millis,
            None => match timestamp_nested_attr(attributes, "state", "timestamp") {
                Some(millis) => millis,
                None => now,
            },
        };
        let ghost start = self@;
        if self.valve_usage.get(resource.id.as_str()).is_none() {
            self.valve_usage.insert(resource.id.clone(), ValveUsageState::default());
        }
        if let Some(usage) = self.valve_usage.get_mut(resource.id.as_str()) {
            usage.report(is_open, transition_timestamp, estimated_flow_liters_per_minute);
        }
        assert(self@.valve_usage =~= start.after_valve_report(
            resource@,
            estimated_flow_liters_per_minute,
            now,
        ).valve_usage);
    }

    /// Notes that a token was obtained.
    pub fn note_token(&mut self)
        ensures
            final(self)@ == old(self)@.after_token(),
    {
        self.token_refreshes_total = self.token_refreshes_total.saturating_add(1);
        self.last_error = None;
    }

    /// Counts a snapshot.
    pub fn note_refresh(&mut self)
        ensures
            final(self)@ == old(self)@.after_refresh(),
    {
        self.snapshot_refreshes_total = self.snapshot_refreshes_total.saturating_add(1);
        self.last_error = None;
    }

    /// Notes that the websocket to a location was opened.
    pub fn note_connection(&mut self, selected: &LocationSummary)
        ensures
            final(self)@ == old(self)@.after_connection(selected@),
    {
        self.location_id = Some(selected.id.clone());
        self.location_name = Some(selected.name.clone());
        self.connected = true;
        self.last_error = None;
    }

    /// Takes in a resource that came over the websocket at `now`.
    pub fn apply_event_at(
        &mut self,
        resource: &JsonApiResource,
        default_flow: Option<Scalar>,
        valve_flows: &OrderedMap<Scalar>,
        now: i64,
    )
        ensures
            final(self)@ == old(self)@.after_event(
                resource@,
                flow_rates(default_flow, valve_flows@),
                now,
            ),
    {
        self.apply_resource_at(resource, default_flow, valve_flows, now);
        self.connected = true;
        self.last_event_timestamp = Some(now);
        self.last_successful_sync_timestamp = Some(now);
        self.last_error = None;
    }

    /// Notes that the connection failed.
    pub fn note_failure(&mut self, words: String)
        ensures
            final(self)@ == old(self)@.after_failure(words@),
    {
        self.connected = false;
        self.last_error = Some(words);
        self.websocket_reconnects_total = self.websocket_reconnects_total.saturating_add(1);
    }

    /// The totals of a valve.
    pub fn valve_usage_totals(&self, valve_id: &str) -> (totals: ValveUsageTotals)
        ensures
            exists|now: i64| totals@ == #[trigger] self@.totals(valve_id@, now),
    {
        let now: i64 = now_timestamp();
        self.valve_usage_totals_at(valve_id, now)
    }

    /// The totals of a valve at `now`.
    pub fn valve_usage_totals_at(&self, valve_id: &str, now: i64) -> (totals: ValveUsageTotals)
        ensures
            totals@ == self@.totals(valve_id@, now),
    {
        match self.valve_usage.get(valve_id) {
            Some(usage) => usage.totals(now),
            None => ValveUsageTotals::default(),
        }
    }
}

/// The kinds of resource that the cache takes in.
pub open spec fn known_kind(kind: Seq<char>) -> bool {
    ||| kind == "LOCATION"@
    ||| kind == "DEVICE"@
    ||| kind == "COMMON"@
    ||| kind == "SENSOR"@
    ||| kind == "VALVE"@
    ||| kind == "VALVE_SET"@
}

/// The device that a resource speaks of: itself, or the one it belongs to.
pub open spec fn subject(resource: ResourceView) -> Option<Seq<char>> {
    if resource.kind == "LOCATION"@ || !known_kind(resource.kind) {
        None
    } else if resource.kind == "DEVICE"@ {
        Some(resource.id)
    } else {
        resource.device()
    }
}

pub(crate) proof fn lemma_kinds_differ()
    ensures
        "LOCATION"@ != "DEVICE"@,
        "LOCATION"@ != "COMMON"@,
        "LOCATION"@ != "SENSOR"@,
        "LOCATION"@ != "VALVE"@,
        "LOCATION"@ != "VALVE_SET"@,
        "DEVICE"@ != "COMMON"@,
        "DEVICE"@ != "SENSOR"@,
        "DEVICE"@ != "VALVE"@,
        "DEVICE"@ != "VALVE_SET"@,
        "COMMON"@ != "SENSOR"@,
        "COMMON"@ != "VALVE"@,
        "COMMON"@ != "VALVE_SET"@,
        "SENSOR"@ != "VALVE"@,
        "SENSOR"@ != "VALVE_SET"@,
        "VALVE"@ != "VALVE_SET"@,
{
    reveal_strlit("LOCATION");
    reveal_strlit("DEVICE");
    reveal_strlit("COMMON");
    reveal_strlit("SENSOR");
    reveal_strlit("VALVE");
    reveal_strlit("VALVE_SET");
    assert("LOCATION"@[0] == 'L');
    assert("DEVICE"@[0] == 'D');
    assert("COMMON"@[0] == 'C');
    assert("SENSOR"@[0] == 'S');
    assert("VALVE"@[0] == 'V');
    assert("VALVE_SET"@[0] == 'V');
    assert("VALVE"@.len() != "VALVE_SET"@.len());
}

/// An exporter starts with a consistent cache.
pub proof fn fresh_is_consistent()
    ensures
        StateView::fresh().consistent(),
{
}

/// Taking in a resource keeps the cache consistent.
pub proof fn resource_keeps_consistency(
    state: StateView,
    resource: ResourceView,
    flows: FlowView,
    now: i64,
)
    requires
        state.consistent(),
    ensures
        state.after_resource(resource, flows, now).consistent(),
{
    let usage = state.usage(resource.id);
    assert(usage.consistent());
    reports_keep_consistency(
        usage,
        resource.reports_open(),
        resource.reported_at(now),
        flows.rate_of(resource.id),
    );
    if let Some(id) = resource.device() {
        assert(state.device(id).consistent());
    }
    assert(state.device(resource.id).consistent());
}

/// Taking in resources one after the other keeps the cache consistent.
pub proof fn resources_keep_consistency(
    state: StateView,
    resources: Seq<ResourceView>,
    flows: FlowView,
    now: i64,
)
    requires
        state.consistent(),
    ensures
        state.after_resources(resources, flows, now).consistent(),
    decreases resources.len(),
{
    if resources.len() > 0 {
        resources_keep_consistency(state, resources.drop_last(), flows, now);
        resource_keeps_consistency(
            state.after_resources(resources.drop_last(), flows, now),
            resources.last(),
            flows,
            now,
        );
    }
}

/// Taking in a snapshot keeps the cache consistent.
pub proof fn snapshot_keeps_consistency(
    state: StateView,
    selected: LocationView,
    snapshot: SnapshotView,
    flows: FlowView,
    now: i64,
)
    requires
        state.consistent(),
    ensures
        state.after_snapshot(selected, snapshot, flows, now).consistent(),
{
    let emptied = StateView {
        location_id: Some(selected.id),
        location_name: Some(selected.name),
        devices: Map::empty(),
        ..state
    };
    assert(emptied.consistent());
    resource_keeps_consistency(emptied, snapshot.data, flows, now);
    resources_keep_consistency(
        emptied.after_resource(snapshot.data, flows, now),
        snapshot.included,
        flows,
        now,
    );
}

/// A resource of a kind that is not known changes nothing.
pub proof fn unknown_kinds_are_ignored(
    state: StateView,
    resource: ResourceView,
    flows: FlowView,
    now: i64,
)
    requires
        !known_kind(resource.kind),
    ensures
        state.after_resource(resource, flows, now) == state,
{
}

/// A service that names no device changes nothing.
pub proof fn services_without_device_are_ignored(
    state: StateView,
    resource: ResourceView,
    flows: FlowView,
    now: i64,
)
    requires
        resource.kind != "LOCATION"@,
        resource.kind != "DEVICE"@,
        resource.device() is None,
    ensures
        state.after_resource(resource, flows, now) == state,
{
}

/// A resource makes its device known and leaves every other device as it was. It says nothing
/// of how the exporter fares.
pub proof fn resource_touches_one_device(
    state: StateView,
    resource: ResourceView,
    flows: FlowView,
    now: i64,
)
    ensures
        ({
            let after = state.after_resource(resource, flows, now);
            &&& after.devices.dom() == (match subject(resource) {
                Some(id) => state.devices.dom().insert(id),
                None => state.devices.dom(),
            })
            &&& forall|id: Seq<char>|
                Some(id) != subject(resource) ==> #[trigger] after.device(id) == state.device(id)
            &&& after.connected == state.connected
            &&& after.last_event_timestamp == state.last_event_timestamp
            &&& after.last_snapshot_timestamp == state.last_snapshot_timestamp
            &&& after.last_successful_sync_timestamp == state.last_successful_sync_timestamp
            &&& after.websocket_reconnects_total == state.websocket_reconnects_total
            &&& after.token_refreshes_total == state.token_refreshes_total
            &&& after.snapshot_refreshes_total == state.snapshot_refreshes_total
            &&& after.last_error == state.last_error
        }),
{
    lemma_kinds_differ();
    let after = state.after_resource(resource, flows, now);
    match subject(resource) {
        Some(id) => {
            assert(after.devices.dom() =~= state.devices.dom().insert(id));
        },
        None => {
            assert(after.devices == state.devices);
        },
    }
}

/// What a service reports of its device is what is known of it afterwards.
pub proof fn latest_report_is_kept(
    state: StateView,
    resource: ResourceView,
    flows: FlowView,
    now: i64,
    id: Seq<char>,
)
    requires
        subject(resource) == Some(id),
    ensures
        ({
            let after = state.after_resource(resource, flows, now).device(id);
            let attributes = resource.attributes;
            let earlier = state.device(id);
            &&& resource.kind == "DEVICE"@ ==> after.location_id == related_id(
                resource.relationships,
                "location"@,
            )
            &&& resource.kind == "COMMON"@ ==> after == (DeviceView {
                common: Some(common_service(attributes)),
                ..earlier
            })
            &&& resource.kind == "SENSOR"@ ==> after == (DeviceView {
                sensor: Some(sensor_service(attributes)),
                ..earlier
            })
            &&& resource.kind == "VALVE"@ ==> after == (DeviceView {
                valves: earlier.valves.insert(
                    resource.id,
                    valve_service(resource.id, attributes),
                ),
                ..earlier
            })
            &&& resource.kind == "VALVE_SET"@ ==> after == (DeviceView {
                valve_sets: earlier.valve_sets.insert(
                    resource.id,
                    valve_set_service(resource.id, attributes),
                ),
                ..earlier
            })
        }),
{
    lemma_kinds_differ();
}

/// Taking in the same resource again changes nothing, at whatever moment.
pub proof fn resources_are_idempotent(
    state: StateView,
    resource: ResourceView,
    flows: FlowView,
    now: i64,
    later: i64,
)
    ensures
        state.after_resource(resource, flows, now).after_resource(resource, flows, later)
            == state.after_resource(resource, flows, now),
{
    lemma_kinds_differ();
    let once = state.after_resource(resource, flows, now);
    let twice = once.after_resource(resource, flows, later);
    reports_are_idempotent(
        state.usage(resource.id),
        resource.reports_open(),
        resource.reported_at(now),
        resource.reported_at(later),
        flows.rate_of(resource.id),
    );
    if let Some(id) = resource.device() {
        assert(once.device(id).valves.insert(
            resource.id,
            valve_service(resource.id, resource.attributes),
        ) =~= once.device(id).valves || resource.kind != "VALVE"@);
        assert(once.device(id).valve_sets.insert(
            resource.id,
            valve_set_service(resource.id, resource.attributes),
        ) =~= once.device(id).valve_sets || resource.kind != "VALVE_SET"@);
    }
    assert(twice.devices =~= once.devices);
    assert(twice.valve_usage =~= once.valve_usage);
}

/// What a resource makes of the device that it speaks of.
spec fn edited(device: DeviceView, resource: ResourceView) -> DeviceView {
    let attributes = resource.attributes;
    if resource.kind == "DEVICE"@ {
        DeviceView { location_id: related_id(resource.relationships, "location"@), ..device }
    } else if resource.kind == "COMMON"@ {
        DeviceView { common: Some(common_service(attributes)), ..device }
    } else if resource.kind == "SENSOR"@ {
        DeviceView { sensor: Some(sensor_service(attributes)), ..device }
    } else if resource.kind == "VALVE"@ {
        DeviceView {
            valves: device.valves.insert(resource.id, valve_service(resource.id, attributes)),
            ..device
        }
    } else {
        DeviceView {
            valve_sets: device.valve_sets.insert(
                resource.id,
                valve_set_service(resource.id, attributes),
            ),
            ..device
        }
    }
}

proof fn lemma_edited(state: StateView, resource: ResourceView, flows: FlowView, now: i64)
    ensures
        state.after_resource(resource, flows, now).devices == (match subject(resource) {
            Some(id) => state.devices.insert(id, edited(state.device(id), resource)),
            None => state.devices,
        }),
{
    lemma_kinds_differ();
}

proof fn lemma_edits_commute(device: DeviceView, a: ResourceView, b: ResourceView)
    requires
        a.kind != b.kind,
        subject(a) is Some,
        subject(b) is Some,
    ensures
        edited(edited(device, a), b) == edited(edited(device, b), a),
{
    lemma_kinds_differ();
}

proof fn lemma_devices_commute(
    state: StateView,
    first: StateView,
    second: StateView,
    x: StateView,
    y: StateView,
    a: ResourceView,
    b: ResourceView,
)
    requires
        a.kind != b.kind,
        first.devices == (match subject(a) {
            Some(id) => state.devices.insert(id, edited(state.device(id), a)),
            None => state.devices,
        }),
        second.devices == (match subject(b) {
            Some(id) => state.devices.insert(id, edited(state.device(id), b)),
            None => state.devices,
        }),
        x.devices == (match subject(b) {
            Some(id) => first.devices.insert(id, edited(first.device(id), b)),
            None => first.devices,
        }),
        y.devices == (match subject(a) {
            Some(id) => second.devices.insert(id, edited(second.device(id), a)),
            None => second.devices,
        }),
    ensures
        x.devices == y.devices,
{
    if let Some(p) = subject(a) {
        if let Some(q) = subject(b) {
            lemma_edits_commute(state.device(p), a, b);
            assert(x.devices =~= y.devices);
        }
    }
}

proof fn lemma_rest_commutes(
    state: StateView,
    a: ResourceView,
    b: ResourceView,
    flows: FlowView,
    now: i64,
    later: i64,
)
    requires
        a.kind != b.kind,
    ensures
        ({
            let x = state.after_resource(a, flows, now).after_resource(b, flows, later);
            let y = state.after_resource(b, flows, later).after_resource(a, flows, now);
            (StateView { devices: y.devices, ..x }) == y
        }),
{
    lemma_kinds_differ();
    lemma_rest(state, a, flows, now);
    lemma_rest(state, b, flows, later);
    lemma_rest(state.after_resource(a, flows, now), b, flows, later);
    lemma_rest(state.after_resource(b, flows, later), a, flows, now);
}

/// What a resource makes of all but the devices.
proof fn lemma_rest(state: StateView, resource: ResourceView, flows: FlowView, now: i64)
    ensures
        ({
            let after = state.after_resource(resource, flows, now);
            let devices = after.devices;
            after == if resource.kind == "LOCATION"@ {
                StateView {
                    location_id: Some(resource.id),
                    location_name: text_at(resource.attributes, "name"@),
                    devices,
                    ..state
                }
            } else if resource.kind == "VALVE"@ && resource.device() is Some {
                StateView {
                    devices,
                    ..state.after_valve_report(resource, flows.rate_of(resource.id), now)
                }
            } else {
                StateView { devices, ..state }
            }
        }),
{
    lemma_kinds_differ();
}

/// In which order two resources of different kinds are taken in makes no difference.
pub proof fn different_kinds_commute(
    state: StateView,
    a: ResourceView,
    b: ResourceView,
    flows: FlowView,
    now: i64,
    later: i64,
)
    requires
        a.kind != b.kind,
    ensures
        state.after_resource(a, flows, now).after_resource(b, flows, later)
            == state.after_resource(b, flows, later).after_resource(a, flows, now),
{
    let first = state.after_resource(a, flows, now);
    let second = state.after_resource(b, flows, later);
    let x = first.after_resource(b, flows, later);
    let y = second.after_resource(a, flows, now);
    assert(x.devices == y.devices) by {
        lemma_edited(state, a, flows, now);
        lemma_edited(state, b, flows, later);
        lemma_edited(first, b, flows, later);
        lemma_edited(second, a, flows, now);
        lemma_devices_commute(state, first, second, x, y, a, b);
    }
    lemma_rest_commutes(state, a, b, flows, now, later);
}

proof fn lemma_devices_of_parts(
    a: StateView,
    b: StateView,
    resources: Seq<ResourceView>,
    flows: FlowView,
    now: i64,
    later: i64,
)
    requires
        a.devices == b.devices,
    ensures
        a.after_resources(resources, flows, now).devices == b.after_resources(
            resources,
            flows,
            later,
        ).devices,
    decreases resources.len(),
{
    if resources.len() > 0 {
        lemma_devices_of_parts(a, b, resources.drop_last(), flows, now, later);
    }
}

proof fn lemma_usage_of_parts(
    a: StateView,
    b: StateView,
    resources: Seq<ResourceView>,
    flows: FlowView,
    now: i64,
)
    requires
        a.valve_usage == b.valve_usage,
    ensures
        a.after_resources(resources, flows, now).valve_usage == b.after_resources(
            resources,
            flows,
            now,
        ).valve_usage,
    decreases resources.len(),
{
    if resources.len() > 0 {
        lemma_usage_of_parts(a, b, resources.drop_last(), flows, now);
    }
}

/// After a snapshot the devices are those of the snapshot, whatever was known before and
/// whenever it is taken in.
pub proof fn snapshot_replaces_devices(
    a: StateView,
    b: StateView,
    selected: LocationView,
    snapshot: SnapshotView,
    flows: FlowView,
    now: i64,
    later: i64,
)
    ensures
        a.after_snapshot(selected, snapshot, flows, now).devices == b.after_snapshot(
            selected,
            snapshot,
            flows,
            later,
        ).devices,
{
    let x = StateView {
        location_id: Some(selected.id),
        location_name: Some(selected.name),
        devices: Map::empty(),
        ..a
    };
    let y = StateView {
        location_id: Some(selected.id),
        location_name: Some(selected.name),
        devices: Map::empty(),
        ..b
    };
    lemma_devices_of_parts(
        x.after_resource(snapshot.data, flows, now),
        y.after_resource(snapshot.data, flows, later),
        snapshot.included,
        flows,
        now,
        later,
    );
}

/// A snapshot carries the use of valves on as its resources would have done one by one.
pub proof fn snapshot_carries_usage_on(
    state: StateView,
    selected: LocationView,
    snapshot: SnapshotView,
    flows: FlowView,
    now: i64,
)
    ensures
        state.after_snapshot(selected, snapshot, flows, now).valve_usage == state.after_resource(
            snapshot.data,
            flows,
            now,
        ).after_resources(snapshot.included, flows, now).valve_usage,
{
    let emptied = StateView {
        location_id: Some(selected.id),
        location_name: Some(selected.name),
        devices: Map::empty(),
        ..state
    };
    lemma_usage_of_parts(
        emptied.after_resource(snapshot.data, flows, now),
        state.after_resource(snapshot.data, flows, now),
        snapshot.included,
        flows,
        now,
    );
}

/// Whether a resource among these makes the device known.
pub open spec fn made_known(resources: Seq<ResourceView>, id: Seq<char>) -> bool {
    exists|i: int| 0 <= i < resources.len() && subject(#[trigger] resources[i]) == Some(id)
}

proof fn lemma_devices_of_resources(
    state: StateView,
    resources: Seq<ResourceView>,
    flows: FlowView,
    now: i64,
    id: Seq<char>,
)
    ensures
        state.after_resources(resources, flows, now).devices.contains_key(id)
            == (state.devices.contains_key(id) || made_known(resources, id)),
    decreases resources.len(),
{
    if resources.len() > 0 {
        let rest = resources.drop_last();
        lemma_devices_of_resources(state, rest, flows, now, id);
        let before_last = state.after_resources(rest, flows, now);
        resource_touches_one_device(before_last, resources.last(), flows, now);
        let after = before_last.after_resource(resources.last(), flows, now);
        assert(after.devices.contains_key(id) == after.devices.dom().contains(id));
        if made_known(rest, id) {
            let i = choose|i: int| 0 <= i < rest.len() && subject(#[trigger] rest[i]) == Some(id);
            assert(subject(resources[i]) == Some(id));
        }
        if subject(resources.last()) == Some(id) {
            assert(subject(resources[resources.len() - 1]) == Some(id));
        }
        if made_known(resources, id) {
            let i = choose|i: int|
                0 <= i < resources.len() && subject(#[trigger] resources[i]) == Some(id);
            if i < rest.len() {
                assert(subject(rest[i]) == Some(id));
            }
        }
    }
}

/// After a snapshot exactly those devices are known that the snapshot speaks of.
pub proof fn snapshot_devices_are_its_own(
    state: StateView,
    selected: LocationView,
    snapshot: SnapshotView,
    flows: FlowView,
    now: i64,
    id: Seq<char>,
)
    ensures
        state.after_snapshot(selected, snapshot, flows, now).devices.contains_key(id) == (subject(
            snapshot.data,
        ) == Some(id) || made_known(snapshot.included, id)),
{
    let emptied = StateView {
        location_id: Some(selected.id),
        location_name: Some(selected.name),
        devices: Map::empty(),
        ..state
    };
    resource_touches_one_device(emptied, snapshot.data, flows, now);
    let first = emptied.after_resource(snapshot.data, flows, now);
    assert(first.devices.contains_key(id) == first.devices.dom().contains(id));
    lemma_devices_of_resources(first, snapshot.included, flows, now, id);
}

proof fn lemma_resources_leave_counts(
    state: StateView,
    resources: Seq<ResourceView>,
    flows: FlowView,
    now: i64,
)
    ensures
        ({
            let after = state.after_resources(resources, flows, now);
            &&& after.connected == state.connected
            &&& after.websocket_reconnects_total == state.websocket_reconnects_total
            &&& after.token_refreshes_total == state.token_refreshes_total
            &&& after.snapshot_refreshes_total == state.snapshot_refreshes_total
            &&& after.last_event_timestamp == state.last_event_timestamp
            &&& after.last_error == state.last_error
        }),
    decreases resources.len(),
{
    if resources.len() > 0 {
        let rest = resources.drop_last();
        lemma_resources_leave_counts(state, rest, flows, now);
        resource_touches_one_device(
            state.after_resources(rest, flows, now),
            resources.last(),
            flows,
            now,
        );
    }
}

/// A snapshot says that the cache is in step with the API at `now`, and leaves the counts and
/// the connection as they are.
pub proof fn snapshot_leaves_counts(
    state: StateView,
    selected: LocationView,
    snapshot: SnapshotView,
    flows: FlowView,
    now: i64,
)
    ensures
        ({
            let after = state.after_snapshot(selected, snapshot, flows, now);
            &&& after.connected == state.connected
            &&& after.last_snapshot_timestamp == Some(now)
            &&& after.last_successful_sync_timestamp == Some(now)
            &&& after.websocket_reconnects_total == state.websocket_reconnects_total
            &&& after.token_refreshes_total == state.token_refreshes_total
            &&& after.snapshot_refreshes_total == state.snapshot_refreshes_total
            &&& after.last_event_timestamp == state.last_event_timestamp
            &&& after.last_error == state.last_error
        }),
{
    let emptied = StateView {
        location_id: Some(selected.id),
        location_name: Some(selected.name),
        devices: Map::empty(),
        ..state
    };
    resource_touches_one_device(emptied, snapshot.data, flows, now);
    lemma_resources_leave_counts(
        emptied.after_resource(snapshot.data, flows, now),
        snapshot.included,
        flows,
        now,
    );
}

/// A valve's own flow rate goes before the one for all.
pub proof fn own_rate_goes_first(flows: FlowView, valve_id: Seq<char>)
    ensures
        flows.by_valve.contains_key(valve_id) ==> flows.rate_of(valve_id) == Some(
            flows.by_valve[valve_id],
        ),
        !flows.by_valve.contains_key(valve_id) ==> flows.rate_of(valve_id) == flows.default_rate,
{
}

proof fn lemma_usage_never_shrinks(
    state: StateView,
    resources: Seq<ResourceView>,
    flows: FlowView,
    now: i64,
    valve_id: Seq<char>,
    rate: spec_fn(Scalar) -> int,
)
    requires
        forall|flow: Scalar| #[trigger] rate(flow) >= 0,
    ensures
        ({
            let after = state.after_resources(resources, flows, now).usage(valve_id);
            &&& after.total_open_millis >= state.usage(valve_id).total_open_millis
            &&& weighed(after.metered, rate) >= weighed(state.usage(valve_id).metered, rate)
        }),
    decreases resources.len(),
{
    if resources.len() > 0 {
        let rest = resources.drop_last();
        lemma_usage_never_shrinks(state, rest, flows, now, valve_id, rate);
        resource_keeps_counted(
            state.after_resources(rest, flows, now),
            resources.last(),
            flows,
            now,
            valve_id,
            rate,
        );
    }
}

/// A resource never takes back open time or volume that was counted, where no flow rate is
/// negative.
pub proof fn resource_keeps_counted(
    state: StateView,
    resource: ResourceView,
    flows: FlowView,
    now: i64,
    valve_id: Seq<char>,
    rate: spec_fn(Scalar) -> int,
)
    requires
        forall|flow: Scalar| #[trigger] rate(flow) >= 0,
    ensures
        ({
            let after = state.after_resource(resource, flows, now).usage(valve_id);
            &&& after.total_open_millis >= state.usage(valve_id).total_open_millis
            &&& weighed(after.metered, rate) >= weighed(state.usage(valve_id).metered, rate)
        }),
{
    counted_time_never_shrinks(
        state.usage(resource.id),
        resource.reports_open(),
        resource.reported_at(now),
        flows.rate_of(resource.id),
        rate,
    );
}

/// A snapshot never takes back open time or volume that was counted, where no flow rate is
/// negative.
pub proof fn snapshot_keeps_counted_time(
    state: StateView,
    selected: LocationView,
    snapshot: SnapshotView,
    flows: FlowView,
    now: i64,
    valve_id: Seq<char>,
    rate: spec_fn(Scalar) -> int,
)
    requires
        forall|flow: Scalar| #[trigger] rate(flow) >= 0,
    ensures
        ({
            let after = state.after_snapshot(selected, snapshot, flows, now).usage(valve_id);
            &&& after.total_open_millis >= state.usage(valve_id).total_open_millis
            &&& weighed(after.metered, rate) >= weighed(state.usage(valve_id).metered, rate)
        }),
{
    let emptied = StateView {
        location_id: Some(selected.id),
        location_name: Some(selected.name),
        devices: Map::empty(),
        ..state
    };
    resource_keeps_counted(emptied, snapshot.data, flows, now, valve_id, rate);
    lemma_usage_never_shrinks(
        emptied.after_resource(snapshot.data, flows, now),
        snapshot.included,
        flows,
        now,
        valve_id,
        rate,
    );
}

/// Two `VALVE` resources that report a closed valve open and then closed add the time between
/// them, at the flow rate of that valve.
pub proof fn watering_is_counted(
    state: StateView,
    opening: ResourceView,
    closing: ResourceView,
    flows: FlowView,
    now: i64,
    later: i64,
    rate: spec_fn(Scalar) -> int,
)
    requires
        state.consistent(),
        opening.kind == "VALVE"@,
        closing.kind == "VALVE"@,
        opening.id == closing.id,
        opening.device() is Some,
        closing.device() is Some,
        opening.reports_open(),
        !closing.reports_open(),
        !state.usage(opening.id).currently_open,
        state.usage(opening.id).total_open_millis + elapsed(
            opening.reported_at(now),
            closing.reported_at(later),
        ) <= u128::MAX,
        room_for(
            state.usage(opening.id).metered,
            elapsed(opening.reported_at(now), closing.reported_at(later)),
        ),
    ensures
        ({
            let span = elapsed(opening.reported_at(now), closing.reported_at(later));
            let start = state.usage(opening.id);
            let end = state.after_resource(opening, flows, now).after_resource(
                closing,
                flows,
                later,
            ).usage(opening.id);
            &&& !end.currently_open
            &&& end.total_open_millis == start.total_open_millis + span
            &&& weighed(end.metered, rate) == weighed(start.metered, rate) + (match flows.rate_of(
                opening.id,
            ) {
                Some(known) => span * rate(known),
                None => 0,
            })
        }),
{
    lemma_kinds_differ();
    let start = state.usage(opening.id);
    assert(start.consistent());
    open_interval_is_counted(
        start,
        opening.reported_at(now),
        flows.rate_of(opening.id),
        closing.reported_at(later),
        flows.rate_of(opening.id),
        rate,
    );
}

/// What a [`JsonApiResource`] says of each of its parts is what the field holds.
pub proof fn resources_say_what_they_hold(resource: JsonApiResource)
    ensures
        resource@.id == resource.id@,
        resource@.kind == resource.kind@,
        resource@.attributes == document(resource.attributes),
        resource@.relationships == document(resource.relationships),
{
}

/// What an [`ExporterState`] says of each of its parts is what the field holds.
pub proof fn states_say_what_they_hold(state: ExporterState)
    ensures
        state@.location_id == state.location_id.deep_view(),
        state@.location_name == state.location_name.deep_view(),
        state@.devices == state.devices@,
        state@.connected == state.connected,
        state@.last_event_timestamp == state.last_event_timestamp,
        state@.last_snapshot_timestamp == state.last_snapshot_timestamp,
        state@.last_successful_sync_timestamp == state.last_successful_sync_timestamp,
        state@.websocket_reconnects_total == state.websocket_reconnects_total,
        state@.token_refreshes_total == state.token_refreshes_total,
        state@.snapshot_refreshes_total == state.snapshot_refreshes_total,
        state@.last_error == state.last_error.deep_view(),
        state@.valve_usage == state.valve_usage@,
{
}

/// Flow rates are the common one and those by valve that they are made of.
pub proof fn flow_rates_are_what_they_are_made_of(
    default_rate: Option<Scalar>,
    by_valve: Map<Seq<char>, Scalar>,
)
    ensures
        flow_rates(default_rate, by_valve).default_rate == default_rate,
        flow_rates(default_rate, by_valve).by_valve == by_valve,
{
}

/// What a [`SnapshotResponse`] says is what its resources say, in their order, and what a
/// [`WebSocketCreatedResponse`] says is what its resource says.
pub proof fn responses_say_what_they_hold(
    snapshot: SnapshotResponse,
    websocket: WebSocketCreatedResponse,
)
    ensures
        snapshot@.data == snapshot.data@,
        snapshot@.included.len() == snapshot.included@.len(),
        forall|i: int|
            0 <= i < snapshot.included@.len() ==> #[trigger] snapshot@.included[i]
                == snapshot.included@[i]@,
        websocket@ == websocket.data@,
{
}

}
