//! What is known of one device and its services.
use crate::json::{number_nested_attr, string_nested_attr, timestamp_nested_attr, Scalar};
use crate::ordered::OrderedMap;
use crate::text::copy_text;
use serde_json::Value;
use vstd::prelude::*;

verus! {

use crate::json::{contents, nested_millis_at, nested_number_at, nested_text_at, Json};

/// What every device reports: its name, its power supply and its radio link. Timestamps are in
/// milliseconds since the Unix epoch.
#[derive(Debug)]
pub struct CommonServiceState {
    pub name: Option<String>,
    pub battery_level: Option<Scalar>,
    pub battery_level_timestamp: Option<i64>,
    pub battery_state: Option<String>,
    pub rf_link_level: Option<Scalar>,
    pub rf_link_level_timestamp: Option<i64>,
    pub serial: Option<String>,
    pub model_type: Option<String>,
    pub rf_link_state: Option<String>,
}

/// What a [`CommonServiceState`] says.
pub ghost struct CommonView {
    pub name: Option<Seq<char>>,
    pub battery_level: Option<Scalar>,
    pub battery_level_timestamp: Option<i64>,
    pub battery_state: Option<Seq<char>>,
    pub rf_link_level: Option<Scalar>,
    pub rf_link_level_timestamp: Option<i64>,
    pub serial: Option<Seq<char>>,
    pub model_type: Option<Seq<char>>,
    pub rf_link_state: Option<Seq<char>>,
}

impl View for CommonServiceState {
    type V = CommonView;

    open spec fn view(&self) -> CommonView {
        CommonView {
            name: self.name.deep_view(),
            battery_level: self.battery_level,
            battery_level_timestamp: self.battery_level_timestamp,
            battery_state: self.battery_state.deep_view(),
            rf_link_level: self.rf_link_level,
            rf_link_level_timestamp: self.rf_link_level_timestamp,
            serial: self.serial.deep_view(),
            model_type: self.model_type.deep_view(),
            rf_link_state: self.rf_link_state.deep_view(),
        }
    }
}

/// What a `COMMON` resource reports.
pub open spec fn common_service(attributes: Option<Json>) -> CommonView {
    CommonView {
        name: nested_text_at(attributes, "name"@, "value"@),
        battery_level: nested_number_at(attributes, "batteryLevel"@, "value"@),
        battery_level_timestamp: nested_millis_at(attributes, "batteryLevel"@, "timestamp"@),
        battery_state: nested_text_at(attributes, "batteryState"@, "value"@),
        rf_link_level: nested_number_at(attributes, "rfLinkLevel"@, "value"@),
        rf_link_level_timestamp: nested_millis_at(attributes, "rfLinkLevel"@, "timestamp"@),
        serial: nested_text_at(attributes, "serial"@, "value"@),
        model_type: nested_text_at(attributes, "modelType"@, "value"@),
        rf_link_state: nested_text_at(attributes, "rfLinkState"@, "value"@),
    }
}

impl Clone for CommonServiceState {
    /// A second one that says the same.
    fn clone(&self) -> (copy: Self)
        ensures
            copy@ == self@,
    {
        CommonServiceState {
            name: copy_text(&self.name),
            battery_level: self.battery_level,
            battery_level_timestamp: self.battery_level_timestamp,
            battery_state: copy_text(&self.battery_state),
            rf_link_level: self.rf_link_level,
            rf_link_level_timestamp: self.rf_link_level_timestamp,
            serial: copy_text(&self.serial),
            model_type: copy_text(&self.model_type),
            rf_link_state: copy_text(&self.rf_link_state),
        }
    }
}

impl Default for CommonServiceState {
    /// A service that has reported nothing.
    fn default() -> (service: Self)
        ensures
            service@ == common_service(None),
    {
        CommonServiceState {
            name: None,
            battery_level: None,
            battery_level_timestamp: None,
            battery_state: None,
            rf_link_level: None,
            rf_link_level_timestamp: None,
            serial: None,
            model_type: None,
            rf_link_state: None,
        }
    }
}

/// Reads what a `COMMON` resource reports.
pub(crate) fn read_common_service(attributes: Option<&Value>) -> (service: CommonServiceState)
    ensures
        service@ == common_service(contents(attributes)),
{
    CommonServiceState {
        name: string_nested_attr(attributes, "name", "value"),
        battery_level: number_nested_attr(attributes, "batteryLevel", "value"),
        battery_level_timestamp: timestamp_nested_attr(attributes, "batteryLevel", "timestamp"),
        battery_state: string_nested_attr(attributes, "batteryState", "value"),
        rf_link_level: number_nested_attr(attributes, "rfLinkLevel", "value"),
        rf_link_level_timestamp: timestamp_nested_attr(attributes, "rfLinkLevel", "timestamp"),
        serial: string_nested_attr(attributes, "serial", "value"),
        model_type: string_nested_attr(attributes, "modelType", "value"),
        rf_link_state: string_nested_attr(attributes, "rfLinkState", "value"),
    }
}

/// The readings of a sensor. Timestamps are in milliseconds since the Unix epoch.
#[derive(Debug)]
pub struct SensorServiceState {
    pub soil_humidity: Option<Scalar>,
    pub soil_humidity_timestamp: Option<i64>,
    pub soil_temperature: Option<Scalar>,
    pub soil_temperature_timestamp: Option<i64>,
    pub ambient_temperature: Option<Scalar>,
    pub ambient_temperature_timestamp: Option<i64>,
    pub light_intensity: Option<Scalar>,
    pub light_intensity_timestamp: Option<i64>,
}

/// What a [`SensorServiceState`] says.
pub ghost struct SensorView {
    pub soil_humidity: Option<Scalar>,
    pub soil_humidity_timestamp: Option<i64>,
    pub soil_temperature: Option<Scalar>,
    pub soil_temperature_timestamp: Option<i64>,
    pub ambient_temperature: Option<Scalar>,
    pub ambient_temperature_timestamp: Option<i64>,
    pub light_intensity: Option<Scalar>,
    pub light_intensity_timestamp: Option<i64>,
}

impl View for SensorServiceState {
    type V = SensorView;

    open spec fn view(&self) -> SensorView {
        SensorView {
            soil_humidity: self.soil_humidity,
            soil_humidity_timestamp: self.soil_humidity_timestamp,
            soil_temperature: self.soil_temperature,
            soil_temperature_timestamp: self.soil_temperature_timestamp,
            ambient_temperature: self.ambient_temperature,
            ambient_temperature_timestamp: self.ambient_temperature_timestamp,
            light_intensity: self.light_intensity,
            light_intensity_timestamp: self.light_intensity_timestamp,
        }
    }
}

/// What a `SENSOR` resource reports.
pub open spec fn sensor_service(attributes: Option<Json>) -> SensorView {
    SensorView {
        soil_humidity: nested_number_at(attributes, "soilHumidity"@, "value"@),
        soil_humidity_timestamp: nested_millis_at(attributes, "soilHumidity"@, "timestamp"@),
        soil_temperature: nested_number_at(attributes, "soilTemperature"@, "value"@),
        soil_temperature_timestamp: nested_millis_at(attributes, "soilTemperature"@, "timestamp"@),
        ambient_temperature: nested_number_at(attributes, "ambientTemperature"@, "value"@),
        ambient_temperature_timestamp: nested_millis_at(
            attributes,
            "ambientTemperature"@,
            "timestamp"@,
        ),
        light_intensity: nested_number_at(attributes, "lightIntensity"@, "value"@),
        light_intensity_timestamp: nested_millis_at(attributes, "lightIntensity"@, "timestamp"@),
    }
}

impl Clone for SensorServiceState {
    /// A second one that says the same.
    fn clone(&self) -> (copy: Self)
        ensures
            copy@ == self@,
    {
        SensorServiceState {
            soil_humidity: self.soil_humidity,
            soil_humidity_timestamp: self.soil_humidity_timestamp,
            soil_temperature: self.soil_temperature,
            soil_temperature_timestamp: self.soil_temperature_timestamp,
            ambient_temperature: self.ambient_temperature,
            ambient_temperature_timestamp: self.ambient_temperature_timestamp,
            light_intensity: self.light_intensity,
            light_intensity_timestamp: self.light_intensity_timestamp,
        }
    }
}

impl Default for SensorServiceState {
    /// A sensor that has reported nothing.
    fn default() -> (service: Self)
        ensures
            service@ == sensor_service(None),
    {
        SensorServiceState {
            soil_humidity: None,
            soil_humidity_timestamp: None,
            soil_temperature: None,
            soil_temperature_timestamp: None,
            ambient_temperature: None,
            ambient_temperature_timestamp: None,
            light_intensity: None,
            light_intensity_timestamp: None,
        }
    }
}

/// Reads what a `SENSOR` resource reports.
pub(crate) fn read_sensor_service(attributes: Option<&Value>) -> (service: SensorServiceState)
    ensures
        service@ == sensor_service(contents(attributes)),
{
    SensorServiceState {
        soil_humidity: number_nested_attr(attributes, "soilHumidity", "value"),
        soil_humidity_timestamp: timestamp_nested_attr(attributes, "soilHumidity", "timestamp"),
        soil_temperature: number_nested_attr(attributes, "soilTemperature", "value"),
        soil_temperature_timestamp: timestamp_nested_attr(
            attributes,
            "soilTemperature",
            "timestamp",
        ),
        ambient_temperature: number_nested_attr(attributes, "ambientTemperature", "value"),
        ambient_temperature_timestamp: timestamp_nested_attr(
            attributes,
            "ambientTemperature",
            "timestamp",
        ),
        light_intensity: number_nested_attr(attributes, "lightIntensity", "value"),
        light_intensity_timestamp: timestamp_nested_attr(attributes, "lightIntensity", "timestamp"),
    }
}

/// One valve of a controller. Timestamps are in milliseconds since the Unix epoch.
#[derive(Debug)]
pub struct ValveServiceState {
    pub id: String,
    pub name: Option<String>,
    pub activity: Option<String>,
    pub activity_timestamp: Option<i64>,
    pub state: Option<String>,
    pub state_timestamp: Option<i64>,
    pub last_error: Option<String>,
    pub duration_seconds: Option<Scalar>,
}

/// What a [`ValveServiceState`] says.
pub ghost struct ValveView {
    pub id: Seq<char>,
    pub name: Option<Seq<char>>,
    pub activity: Option<Seq<char>>,
    pub activity_timestamp: Option<i64>,
    pub state: Option<Seq<char>>,
    pub state_timestamp: Option<i64>,
    pub last_error: Option<Seq<char>>,
    pub duration_seconds: Option<Scalar>,
}

impl View for ValveServiceState {
    type V = ValveView;

    open spec fn view(&self) -> ValveView {
        ValveView {
            id: self.id@,
            name: self.name.deep_view(),
            activity: self.activity.deep_view(),
            activity_timestamp: self.activity_timestamp,
            state: self.state.deep_view(),
            state_timestamp: self.state_timestamp,
            last_error: self.last_error.deep_view(),
            duration_seconds: self.duration_seconds,
        }
    }
}

/// What a `VALVE` resource reports.
pub open spec fn valve_service(id: Seq<char>, attributes: Option<Json>) -> ValveView {
    ValveView {
        id,
        name: nested_text_at(attributes, "name"@, "value"@),
        activity: nested_text_at(attributes, "activity"@, "value"@),
        activity_timestamp: nested_millis_at(attributes, "activity"@, "timestamp"@),
        state: nested_text_at(attributes, "state"@, "value"@),
        state_timestamp: nested_millis_at(attributes, "state"@, "timestamp"@),
        last_error: nested_text_at(attributes, "lastErrorCode"@, "value"@),
        duration_seconds: nested_number_at(attributes, "duration"@, "value"@),
    }
}

impl Clone for ValveServiceState {
    /// A second one that says the same.
    fn clone(&self) -> (copy: Self)
        ensures
            copy@ == self@,
    {
        ValveServiceState {
            id: self.id.clone(),
            name: copy_text(&self.name),
            activity: copy_text(&self.activity),
            activity_timestamp: self.activity_timestamp,
            state: copy_text(&self.state),
            state_timestamp: self.state_timestamp,
            last_error: copy_text(&self.last_error),
            duration_seconds: self.duration_seconds,
        }
    }
}

impl Default for ValveServiceState {
    /// A valve that has reported nothing, not even its identifier.
    fn default() -> (service: Self)
        ensures
            service@ == valve_service(""@, None),
    {
        ValveServiceState {
            id: "".to_owned(),
            name: None,
            activity: None,
            activity_timestamp: None,
            state: None,
            state_timestamp: None,
            last_error: None,
            duration_seconds: None,
        }
    }
}

/// Reads what a `VALVE` resource reports.
pub(crate) fn read_valve_service(
    id: String,
    attributes: Option<&Value>,
) -> (service: ValveServiceState)
    ensures
        service@ == valve_service(id@, contents(attributes)),
{
    ValveServiceState {
        id,
        name: string_nested_attr(attributes, "name", "value"),
        activity: string_nested_attr(attributes, "activity", "value"),
        activity_timestamp: timestamp_nested_attr(attributes, "activity", "timestamp"),
        state: string_nested_attr(attributes, "state", "value"),
        state_timestamp: timestamp_nested_attr(attributes, "state", "timestamp"),
        last_error: string_nested_attr(attributes, "lastErrorCode", "value"),
        duration_seconds: number_nested_attr(attributes, "duration", "value"),
    }
}

/// The set of all valves of a controller. The timestamp is in milliseconds since the Unix epoch.
#[derive(Debug)]
pub struct ValveSetServiceState {
    pub id: String,
    pub state: Option<String>,
    pub state_timestamp: Option<i64>,
    pub last_error: Option<String>,
}

/// What a [`ValveSetServiceState`] says.
pub ghost struct ValveSetView {
    pub id: Seq<char>,
    pub state: Option<Seq<char>>,
    pub state_timestamp: Option<i64>,
    pub last_error: Option<Seq<char>>,
}

impl View for ValveSetServiceState {
    type V = ValveSetView;

    open spec fn view(&self) -> ValveSetView {
        ValveSetView {
            id: self.id@,
            state: self.state.deep_view(),
            state_timestamp: self.state_timestamp,
            last_error: self.last_error.deep_view(),
        }
    }
}

/// What a `VALVE_SET` resource reports.
pub open spec fn valve_set_service(id: Seq<char>, attributes: Option<Json>) -> ValveSetView {
    ValveSetView {
        id,
        state: nested_text_at(attributes, "state"@, "value"@),
        state_timestamp: nested_millis_at(attributes, "state"@, "timestamp"@),
        last_error: nested_text_at(attributes, "lastErrorCode"@, "value"@),
    }
}

impl Clone for ValveSetServiceState {
    /// A second one that says the same.
    fn clone(&self) -> (copy: Self)
        ensures
            copy@ == self@,
    {
        ValveSetServiceState {
            id: self.id.clone(),
            state: copy_text(&self.state),
            state_timestamp: self.state_timestamp,
            last_error: copy_text(&self.last_error),
        }
    }
}

impl Default for ValveSetServiceState {
    /// A valve set that has reported nothing, not even its identifier.
    fn default() -> (service: Self)
        ensures
            service@ == valve_set_service(""@, None),
    {
        ValveSetServiceState {
            id: "".to_owned(),
            state: None,
            state_timestamp: None,
            last_error: None,
        }
    }
}

/// Reads what a `VALVE_SET` resource reports.
pub(crate) fn read_valve_set_service(
    id: String,
    attributes: Option<&Value>,
) -> (service: ValveSetServiceState)
    ensures
        service@ == valve_set_service(id@, contents(attributes)),
{
    ValveSetServiceState {
        id,
        state: string_nested_attr(attributes, "state", "value"),
        state_timestamp: timestamp_nested_attr(attributes, "state", "timestamp"),
        last_error: string_nested_attr(attributes, "lastErrorCode", "value"),
    }
}

/// A device and its services.
#[derive(Debug)]
pub struct DeviceState {
    pub id: String,
    pub location_id: Option<String>,
    pub common: Option<CommonServiceState>,
    pub sensor: Option<SensorServiceState>,
    pub valves: OrderedMap<ValveServiceState>,
    pub valve_sets: OrderedMap<ValveSetServiceState>,
}

/// What a [`DeviceState`] says.
pub ghost struct DeviceView {
    pub id: Seq<char>,
    pub location_id: Option<Seq<char>>,
    pub common: Option<CommonView>,
    pub sensor: Option<SensorView>,
    pub valves: Map<Seq<char>, ValveView>,
    pub valve_sets: Map<Seq<char>, ValveSetView>,
}

impl View for DeviceState {
    type V = DeviceView;

    open spec fn view(&self) -> DeviceView {
        DeviceView {
            id: self.id@,
            location_id: self.location_id.deep_view(),
            common: match self.common {
                Some(service) => Some(service@),
                None => None,
            },
            sensor: match self.sensor {
                Some(service) => Some(service@),
                None => None,
            },
            valves: self.valves@,
            valve_sets: self.valve_sets@,
        }
    }
}

impl DeviceView {
    /// A device of which only the identifier is known.
    pub open spec fn named(id: Seq<char>) -> DeviceView {
        DeviceView {
            id,
            location_id: None,
            common: None,
            sensor: None,
            valves: Map::empty(),
            valve_sets: Map::empty(),
        }
    }

    /// Every service stands under its own identifier.
    pub open spec fn consistent(self) -> bool {
        &&& self.valves.dom().finite()
        &&& self.valve_sets.dom().finite()
        &&& forall|key: Seq<char>|
            #[trigger] self.valves.contains_key(key) ==> self.valves[key].id == key
        &&& forall|key: Seq<char>|
            #[trigger] self.valve_sets.contains_key(key) ==> self.valve_sets[key].id == key
    }
}

impl Clone for DeviceState {
    /// A second one that says the same.
    fn clone(&self) -> (copy: Self)
        ensures
            copy@ == self@,
    {
        let copy = DeviceState {
            id: self.id.clone(),
            location_id: copy_text(&self.location_id),
            common: match &self.common {
                Some(service) => Some(service.clone()),
                None => None,
            },
            sensor: match &self.sensor {
                Some(service) => Some(service.clone()),
                None => None,
            },
            valves: self.valves.clone(),
            valve_sets: self.valve_sets.clone(),
        };
        assert(copy.valves@ =~= self.valves@);
        assert(copy.valve_sets@ =~= self.valve_sets@);
        copy
    }
}

impl Default for DeviceState {
    /// A device of which nothing is known, not even the identifier.
    fn default() -> (device: Self)
        ensures
            device@ == DeviceView::named(""@),
    {
        DeviceState::named("".to_owned())
    }
}

impl DeviceState {
    /// A device of which only the identifier is known.
    pub fn named(id: String) -> (device: Self)
        ensures
            device@ == DeviceView::named(id@),
    {
        DeviceState {
            id,
            location_id: None,
            common: None,
            sensor: None,
            valves: OrderedMap::new(),
            valve_sets: OrderedMap::new(),
        }
    }
}

/// What a [`CommonServiceState`] says of each of its parts is what the field holds.
pub proof fn common_services_say_what_they_hold(service: CommonServiceState)
    ensures
        service@.name == service.name.deep_view(),
        service@.battery_level == service.battery_level,
        service@.battery_level_timestamp == service.battery_level_timestamp,
        service@.battery_state == service.battery_state.deep_view(),
        service@.rf_link_level == service.rf_link_level,
        service@.rf_link_level_timestamp == service.rf_link_level_timestamp,
        service@.serial == service.serial.deep_view(),
        service@.model_type == service.model_type.deep_view(),
        service@.rf_link_state == service.rf_link_state.deep_view(),
{
}

/// What a [`SensorServiceState`] says of each of its parts is what the field holds.
pub proof fn sensors_say_what_they_hold(service: SensorServiceState)
    ensures
        service@.soil_humidity == service.soil_humidity,
        service@.soil_humidity_timestamp == service.soil_humidity_timestamp,
        service@.soil_temperature == service.soil_temperature,
        service@.soil_temperature_timestamp == service.soil_temperature_timestamp,
        service@.ambient_temperature == service.ambient_temperature,
        service@.ambient_temperature_timestamp == service.ambient_temperature_timestamp,
        service@.light_intensity == service.light_intensity,
        service@.light_intensity_timestamp == service.light_intensity_timestamp,
{
}

/// What a [`ValveServiceState`] says of each of its parts is what the field holds.
pub proof fn valves_say_what_they_hold(service: ValveServiceState)
    ensures
        service@.id == service.id@,
        service@.name == service.name.deep_view(),
        service@.activity == service.activity.deep_view(),
        service@.activity_timestamp == service.activity_timestamp,
        service@.state == service.state.deep_view(),
        service@.state_timestamp == service.state_timestamp,
        service@.last_error == service.last_error.deep_view(),
        service@.duration_seconds == service.duration_seconds,
{
}

/// What a [`ValveSetServiceState`] says of each of its parts is what the field holds.
pub proof fn valve_sets_say_what_they_hold(service: ValveSetServiceState)
    ensures
        service@.id == service.id@,
        service@.state == service.state.deep_view(),
        service@.state_timestamp == service.state_timestamp,
        service@.last_error == service.last_error.deep_view(),
{
}

/// What a [`DeviceState`] says of each of its parts is what the field holds.
pub proof fn devices_say_what_they_hold(device: DeviceState)
    ensures
        device@.id == device.id@,
        device@.location_id == device.location_id.deep_view(),
        device@.common == (match device.common {
            Some(service) => Some(service@),
            None => None,
        }),
        device@.sensor == (match device.sensor {
            Some(service) => Some(service@),
            None => None,
        }),
        device@.valves == device.valves@,
        device@.valve_sets == device.valve_sets@,
{
}

}
