//! The metric families of the exporter.
use vstd::prelude::*;

verus! {

/// How a family counts.
#[derive(Clone, Copy, Debug, PartialEq, Eq, Structural)]
pub enum MetricKind {
    Gauge,
    IntGauge,
    Counter,
    IntCounter,
}

/// A metric family.
#[derive(Clone, Copy, Debug, PartialEq, Eq, Structural)]
pub enum Family {
    ExporterConnected,
    LastEventTimestamp,
    LastSnapshotTimestamp,
    LastSuccessfulSyncTimestamp,
    WebsocketReconnects,
    TokenRefreshes,
    SnapshotRefreshes,
    ExporterInfo,
    DeviceInfo,
    SensorInfo,
    ValveInfo,
    ValveSetInfo,
    BatteryLevel,
    BatteryLevelTimestamp,
    RfLinkLevel,
    RfLinkLevelTimestamp,
    SoilHumidity,
    SoilHumidityTimestamp,
    SoilTemperature,
    SoilTemperatureTimestamp,
    AmbientTemperature,
    AmbientTemperatureTimestamp,
    LightIntensity,
    LightIntensityTimestamp,
    ValveOpen,
    ValveDuration,
    ValveActivityTimestamp,
    ValveStateTimestamp,
    ValveSetStateTimestamp,
    ValveOpenTime,
    ValveWater,
    ValveFlow,
    ValveCurrentFlow,
    Water,
    CurrentFlow,
}

impl Family {
    /// The name under which the family is exported.
    pub open spec fn spec_name(self) -> Seq<char> {
        match self {
            Family::ExporterConnected => "gardena_exporter_connected"@,
            Family::LastEventTimestamp => "gardena_exporter_last_event_timestamp_seconds"@,
            Family::LastSnapshotTimestamp => "gardena_exporter_last_snapshot_timestamp_seconds"@,
            Family::LastSuccessfulSyncTimestamp =>
                "gardena_exporter_last_successful_sync_timestamp_seconds"@,
            Family::WebsocketReconnects => "gardena_exporter_websocket_reconnects_total"@,
            Family::TokenRefreshes => "gardena_exporter_token_refreshes_total"@,
            Family::SnapshotRefreshes => "gardena_exporter_snapshot_refreshes_total"@,
            Family::ExporterInfo => "gardena_exporter_info"@,
            Family::DeviceInfo => "gardena_device_info"@,
            Family::SensorInfo => "gardena_sensor_info"@,
            Family::ValveInfo => "gardena_valve_info"@,
            Family::ValveSetInfo => "gardena_valve_set_info"@,
            Family::BatteryLevel => "gardena_device_battery_level_percent"@,
            Family::BatteryLevelTimestamp => "gardena_device_battery_level_timestamp_seconds"@,
            Family::RfLinkLevel => "gardena_device_rf_link_level_percent"@,
            Family::RfLinkLevelTimestamp => "gardena_device_rf_link_level_timestamp_seconds"@,
            Family::SoilHumidity => "gardena_sensor_soil_humidity_percent"@,
            Family::SoilHumidityTimestamp => "gardena_sensor_soil_humidity_timestamp_seconds"@,
            Family::SoilTemperature => "gardena_sensor_soil_temperature_celsius"@,
            Family::SoilTemperatureTimestamp =>
                "gardena_sensor_soil_temperature_timestamp_seconds"@,
            Family::AmbientTemperature => "gardena_sensor_ambient_temperature_celsius"@,
            Family::AmbientTemperatureTimestamp =>
                "gardena_sensor_ambient_temperature_timestamp_seconds"@,
            Family::LightIntensity => "gardena_sensor_light_intensity_lux"@,
            Family::LightIntensityTimestamp => "gardena_sensor_light_intensity_timestamp_seconds"@,
            Family::ValveOpen => "gardena_valve_open"@,
            Family::ValveDuration => "gardena_valve_duration_seconds"@,
            Family::ValveActivityTimestamp => "gardena_valve_activity_timestamp_seconds"@,
            Family::ValveStateTimestamp => "gardena_valve_state_timestamp_seconds"@,
            Family::ValveSetStateTimestamp => "gardena_valve_set_state_timestamp_seconds"@,
            Family::ValveOpenTime => "gardena_valve_estimated_open_seconds_total"@,
            Family::ValveWater => "gardena_valve_estimated_water_liters_total"@,
            Family::ValveFlow => "gardena_valve_estimated_flow_liters_per_minute"@,
            Family::ValveCurrentFlow =>
                "gardena_valve_estimated_current_water_flow_liters_per_minute"@,
            Family::Water => "gardena_estimated_water_liters_total"@,
            Family::CurrentFlow => "gardena_estimated_current_water_flow_liters_per_minute"@,
        }
    }

    /// The explanation that goes with the family.
    pub open spec fn spec_help(self) -> Seq<char> {
        match self {
            Family::ExporterConnected =>
                "Whether the exporter currently has an active Gardena websocket connection"@,
            Family::LastEventTimestamp =>
                "Unix timestamp of the last Gardena websocket event processed by the exporter"@,
            Family::LastSnapshotTimestamp =>
                "Unix timestamp of the last full Gardena snapshot applied by the exporter"@,
            Family::LastSuccessfulSyncTimestamp =>
                "Unix timestamp of the last successful Gardena sync activity"@,
            Family::WebsocketReconnects =>
                "Number of Gardena websocket reconnect attempts triggered by the exporter"@,
            Family::TokenRefreshes => "Number of OAuth access tokens minted by the exporter"@,
            Family::SnapshotRefreshes =>
                "Number of full Gardena snapshot refreshes applied by the exporter"@,
            Family::ExporterInfo => "Static information about the Gardena exporter"@,
            Family::DeviceInfo => "Static information about Gardena devices"@,
            Family::SensorInfo => "Static information about Gardena sensor devices"@,
            Family::ValveInfo => "Static information about Gardena valves"@,
            Family::ValveSetInfo => "Static information about Gardena valve sets"@,
            Family::BatteryLevel => "Device battery level percentage"@,
            Family::BatteryLevelTimestamp =>
                "Unix timestamp of the latest device battery level reading"@,
            Family::RfLinkLevel => "Device RF link level percentage"@,
            Family::RfLinkLevelTimestamp =>
                "Unix timestamp of the latest device RF link level reading"@,
            Family::SoilHumidity => "Soil humidity percentage"@,
            Family::SoilHumidityTimestamp => "Unix timestamp of the latest soil humidity reading"@,
            Family::SoilTemperature => "Soil temperature in Celsius"@,
            Family::SoilTemperatureTimestamp =>
                "Unix timestamp of the latest soil temperature reading"@,
            Family::AmbientTemperature => "Ambient temperature in Celsius"@,
            Family::AmbientTemperatureTimestamp =>
                "Unix timestamp of the latest ambient temperature reading"@,
            Family::LightIntensity => "Light intensity in lux"@,
            Family::LightIntensityTimestamp =>
                "Unix timestamp of the latest light intensity reading"@,
            Family::ValveOpen => "Whether a Gardena valve is currently active and not closed"@,
            Family::ValveDuration => "Configured or active valve duration in seconds"@,
            Family::ValveActivityTimestamp => "Unix timestamp of the latest valve activity update"@,
            Family::ValveStateTimestamp => "Unix timestamp of the latest valve state update"@,
            Family::ValveSetStateTimestamp =>
                "Unix timestamp of the latest valve set state update"@,
            Family::ValveOpenTime =>
                "Modeled valve open time in seconds accumulated since exporter start"@,
            Family::ValveWater =>
                "Modeled water volume in liters accumulated since exporter start"@,
            Family::ValveFlow => "Configured modeled flow rate used for valve water estimation"@,
            Family::ValveCurrentFlow =>
                "Modeled current water flow rate in liters per minute for each valve"@,
            Family::Water =>
                "Modeled total water volume in liters accumulated since exporter start"@,
            Family::CurrentFlow =>
                "Modeled current total water flow rate in liters per minute across all active valves"@,
        }
    }

    /// How the family counts.
    pub open spec fn spec_kind(self) -> MetricKind {
        match self {
            Family::ExporterConnected => MetricKind::IntGauge,
            Family::WebsocketReconnects
            | Family::TokenRefreshes
            | Family::SnapshotRefreshes => MetricKind::IntCounter,
            Family::ValveOpenTime
            | Family::ValveWater
            | Family::Water => MetricKind::Counter,
            _ => MetricKind::Gauge,
        }
    }

    /// The names of the labels of the family.
    pub open spec fn spec_labels(self) -> Seq<Seq<char>> {
        match self {
            Family::ExporterConnected
            | Family::LastEventTimestamp
            | Family::LastSnapshotTimestamp
            | Family::LastSuccessfulSyncTimestamp
            | Family::WebsocketReconnects
            | Family::TokenRefreshes
            | Family::SnapshotRefreshes
            | Family::Water
            | Family::CurrentFlow => Seq::empty(),
            Family::ExporterInfo => seq!["version"@, "location_id"@, "location"@],
            Family::DeviceInfo
            | Family::SensorInfo => seq![
                "location"@,
                "device_id"@,
                "device_name"@,
                "model_type"@,
                "serial"@,
                "battery_state"@,
                "rf_link_state"@,
            ],
            Family::ValveInfo => seq![
                "location"@,
                "device_id"@,
                "controller_name"@,
                "service_id"@,
                "valve_name"@,
                "state"@,
                "activity"@,
                "last_error"@,
            ],
            Family::ValveSetInfo => seq![
                "location"@,
                "device_id"@,
                "controller_name"@,
                "service_id"@,
                "state"@,
                "last_error"@,
            ],
            Family::BatteryLevel
            | Family::BatteryLevelTimestamp
            | Family::RfLinkLevel
            | Family::RfLinkLevelTimestamp
            | Family::SoilHumidity
            | Family::SoilHumidityTimestamp
            | Family::SoilTemperature
            | Family::SoilTemperatureTimestamp
            | Family::AmbientTemperature
            | Family::AmbientTemperatureTimestamp
            | Family::LightIntensity
            | Family::LightIntensityTimestamp => seq![
                "location"@,
                "device_id"@,
                "device_name"@,
                "model_type"@,
            ],
            Family::ValveOpen
            | Family::ValveDuration
            | Family::ValveActivityTimestamp
            | Family::ValveStateTimestamp
            | Family::ValveOpenTime
            | Family::ValveWater
            | Family::ValveFlow
            | Family::ValveCurrentFlow => seq![
                "location"@,
                "device_id"@,
                "controller_name"@,
                "service_id"@,
                "valve_name"@,
            ],
            Family::ValveSetStateTimestamp => seq![
                "location"@,
                "device_id"@,
                "controller_name"@,
                "service_id"@,
            ],
        }
    }

    /// The name under which the family is exported.
    pub fn name(&self) -> (name: &'static str)
        ensures
            name@ == self.spec_name(),
    {
        match self {
            Family::ExporterConnected => "gardena_exporter_connected",
            Family::LastEventTimestamp => "gardena_exporter_last_event_timestamp_seconds",
            Family::LastSnapshotTimestamp => "gardena_exporter_last_snapshot_timestamp_seconds",
            Family::LastSuccessfulSyncTimestamp =>
                "gardena_exporter_last_successful_sync_timestamp_seconds",
            Family::WebsocketReconnects => "gardena_exporter_websocket_reconnects_total",
            Family::TokenRefreshes => "gardena_exporter_token_refreshes_total",
            Family::SnapshotRefreshes => "gardena_exporter_snapshot_refreshes_total",
            Family::ExporterInfo => "gardena_exporter_info",
            Family::DeviceInfo => "gardena_device_info",
            Family::SensorInfo => "gardena_sensor_info",
            Family::ValveInfo => "gardena_valve_info",
            Family::ValveSetInfo => "gardena_valve_set_info",
            Family::BatteryLevel => "gardena_device_battery_level_percent",
            Family::BatteryLevelTimestamp => "gardena_device_battery_level_timestamp_seconds",
            Family::RfLinkLevel => "gardena_device_rf_link_level_percent",
            Family::RfLinkLevelTimestamp => "gardena_device_rf_link_level_timestamp_seconds",
            Family::SoilHumidity => "gardena_sensor_soil_humidity_percent",
            Family::SoilHumidityTimestamp => "gardena_sensor_soil_humidity_timestamp_seconds",
            Family::SoilTemperature => "gardena_sensor_soil_temperature_celsius",
            Family::SoilTemperatureTimestamp => "gardena_sensor_soil_temperature_timestamp_seconds",
            Family::AmbientTemperature => "gardena_sensor_ambient_temperature_celsius",
            Family::AmbientTemperatureTimestamp =>
                "gardena_sensor_ambient_temperature_timestamp_seconds",
            Family::LightIntensity => "gardena_sensor_light_intensity_lux",
            Family::LightIntensityTimestamp => "gardena_sensor_light_intensity_timestamp_seconds",
            Family::ValveOpen => "gardena_valve_open",
            Family::ValveDuration => "gardena_valve_duration_seconds",
            Family::ValveActivityTimestamp => "gardena_valve_activity_timestamp_seconds",
            Family::ValveStateTimestamp => "gardena_valve_state_timestamp_seconds",
            Family::ValveSetStateTimestamp => "gardena_valve_set_state_timestamp_seconds",
            Family::ValveOpenTime => "gardena_valve_estimated_open_seconds_total",
            Family::ValveWater => "gardena_valve_estimated_water_liters_total",
            Family::ValveFlow => "gardena_valve_estimated_flow_liters_per_minute",
            Family::ValveCurrentFlow =>
                "gardena_valve_estimated_current_water_flow_liters_per_minute",
            Family::Water => "gardena_estimated_water_liters_total",
            Family::CurrentFlow => "gardena_estimated_current_water_flow_liters_per_minute",
        }
    }

    /// The explanation that goes with the family.
    pub fn help(&self) -> (help: &'static str)
        ensures
            help@ == self.spec_help(),
    {
        match self {
            Family::ExporterConnected =>
                "Whether the exporter currently has an active Gardena websocket connection",
            Family::LastEventTimestamp =>
                "Unix timestamp of the last Gardena websocket event processed by the exporter",
            Family::LastSnapshotTimestamp =>
                "Unix timestamp of the last full Gardena snapshot applied by the exporter",
            Family::LastSuccessfulSyncTimestamp =>
                "Unix timestamp of the last successful Gardena sync activity",
            Family::WebsocketReconnects =>
                "Number of Gardena websocket reconnect attempts triggered by the exporter",
            Family::TokenRefreshes => "Number of OAuth access tokens minted by the exporter",
            Family::SnapshotRefreshes =>
                "Number of full Gardena snapshot refreshes applied by the exporter",
            Family::ExporterInfo => "Static information about the Gardena exporter",
            Family::DeviceInfo => "Static information about Gardena devices",
            Family::SensorInfo => "Static information about Gardena sensor devices",
            Family::ValveInfo => "Static information about Gardena valves",
            Family::ValveSetInfo => "Static information about Gardena valve sets",
            Family::BatteryLevel => "Device battery level percentage",
            Family::BatteryLevelTimestamp =>
                "Unix timestamp of the latest device battery level reading",
            Family::RfLinkLevel => "Device RF link level percentage",
            Family::RfLinkLevelTimestamp =>
                "Unix timestamp of the latest device RF link level reading",
            Family::SoilHumidity => "Soil humidity percentage",
            Family::SoilHumidityTimestamp => "Unix timestamp of the latest soil humidity reading",
            Family::SoilTemperature => "Soil temperature in Celsius",
            Family::SoilTemperatureTimestamp =>
                "Unix timestamp of the latest soil temperature reading",
            Family::AmbientTemperature => "Ambient temperature in Celsius",
            Family::AmbientTemperatureTimestamp =>
                "Unix timestamp of the latest ambient temperature reading",
            Family::LightIntensity => "Light intensity in lux",
            Family::LightIntensityTimestamp =>
                "Unix timestamp of the latest light intensity reading",
            Family::ValveOpen => "Whether a Gardena valve is currently active and not closed",
            Family::ValveDuration => "Configured or active valve duration in seconds",
            Family::ValveActivityTimestamp => "Unix timestamp of the latest valve activity update",
            Family::ValveStateTimestamp => "Unix timestamp of the latest valve state update",
            Family::ValveSetStateTimestamp => "Unix timestamp of the latest valve set state update",
            Family::ValveOpenTime =>
                "Modeled valve open time in seconds accumulated since exporter start",
            Family::ValveWater => "Modeled water volume in liters accumulated since exporter start",
            Family::ValveFlow => "Configured modeled flow rate used for valve water estimation",
            Family::ValveCurrentFlow =>
                "Modeled current water flow rate in liters per minute for each valve",
            Family::Water =>
                "Modeled total water volume in liters accumulated since exporter start",
            Family::CurrentFlow =>
                "Modeled current total water flow rate in liters per minute across all active valves",
        }
    }

    /// How the family counts.
    pub fn kind(&self) -> (kind: MetricKind)
        ensures
            kind == self.spec_kind(),
    {
        match self {
            Family::ExporterConnected => MetricKind::IntGauge,
            Family::WebsocketReconnects
            | Family::TokenRefreshes
            | Family::SnapshotRefreshes => MetricKind::IntCounter,
            Family::ValveOpenTime
            | Family::ValveWater
            | Family::Water => MetricKind::Counter,
            _ => MetricKind::Gauge,
        }
    }

    /// The names of the labels of the family.
    pub fn labels(&self) -> (labels: Vec<&'static str>)
        ensures
            labels@.map_values(|label: &'static str| label@) == self.spec_labels(),
    {
        let labels: Vec<&'static str> = match self {
            Family::ExporterConnected
            | Family::LastEventTimestamp
            | Family::LastSnapshotTimestamp
            | Family::LastSuccessfulSyncTimestamp
            | Family::WebsocketReconnects
            | Family::TokenRefreshes
            | Family::SnapshotRefreshes
            | Family::Water
            | Family::CurrentFlow => Vec::new(),
            Family::ExporterInfo => vec!["version", "location_id", "location"],
            Family::DeviceInfo
            | Family::SensorInfo => vec![
                "location",
                "device_id",
                "device_name",
                "model_type",
                "serial",
                "battery_state",
                "rf_link_state",
            ],
            Family::ValveInfo => vec![
                "location",
                "device_id",
                "controller_name",
                "service_id",
                "valve_name",
                "state",
                "activity",
                "last_error",
            ],
            Family::ValveSetInfo => vec![
                "location",
                "device_id",
                "controller_name",
                "service_id",
                "state",
                "last_error",
            ],
            Family::BatteryLevel
            | Family::BatteryLevelTimestamp
            | Family::RfLinkLevel
            | Family::RfLinkLevelTimestamp
            | Family::SoilHumidity
            | Family::SoilHumidityTimestamp
            | Family::SoilTemperature
            | Family::SoilTemperatureTimestamp
            | Family::AmbientTemperature
            | Family::AmbientTemperatureTimestamp
            | Family::LightIntensity
            | Family::LightIntensityTimestamp => vec![
                "location",
                "device_id",
                "device_name",
                "model_type",
            ],
            Family::ValveOpen
            | Family::ValveDuration
            | Family::ValveActivityTimestamp
            | Family::ValveStateTimestamp
            | Family::ValveOpenTime
            | Family::ValveWater
            | Family::ValveFlow
            | Family::ValveCurrentFlow => vec![
                "location",
                "device_id",
                "controller_name",
                "service_id",
                "valve_name",
            ],
            Family::ValveSetStateTimestamp => vec![
                "location",
                "device_id",
                "controller_name",
                "service_id",
            ],
        };
        assert(labels@.map_values(|label: &'static str| label@) =~= self.spec_labels());
        labels
    }

    /// Every family, in the order in which they are registered.
    pub open spec fn spec_all() -> Seq<Family> {
        seq![
            Family::ExporterConnected,
            Family::LastEventTimestamp,
            Family::LastSnapshotTimestamp,
            Family::LastSuccessfulSyncTimestamp,
            Family::WebsocketReconnects,
            Family::TokenRefreshes,
            Family::SnapshotRefreshes,
            Family::ExporterInfo,
            Family::DeviceInfo,
            Family::SensorInfo,
            Family::ValveInfo,
            Family::ValveSetInfo,
            Family::BatteryLevel,
            Family::BatteryLevelTimestamp,
            Family::RfLinkLevel,
            Family::RfLinkLevelTimestamp,
            Family::SoilHumidity,
            Family::SoilHumidityTimestamp,
            Family::SoilTemperature,
            Family::SoilTemperatureTimestamp,
            Family::AmbientTemperature,
            Family::AmbientTemperatureTimestamp,
            Family::LightIntensity,
            Family::LightIntensityTimestamp,
            Family::ValveOpen,
            Family::ValveDuration,
            Family::ValveActivityTimestamp,
            Family::ValveStateTimestamp,
            Family::ValveSetStateTimestamp,
            Family::ValveOpenTime,
            Family::ValveWater,
            Family::ValveFlow,
            Family::ValveCurrentFlow,
            Family::Water,
            Family::CurrentFlow,
        ]
    }

    /// Every family, in the order in which they are registered.
    pub fn all() -> (families: Vec<Family>)
        ensures
            families@ == Family::spec_all(),
    {
        let families = vec![
            Family::ExporterConnected,
            Family::LastEventTimestamp,
            Family::LastSnapshotTimestamp,
            Family::LastSuccessfulSyncTimestamp,
            Family::WebsocketReconnects,
            Family::TokenRefreshes,
            Family::SnapshotRefreshes,
            Family::ExporterInfo,
            Family::DeviceInfo,
            Family::SensorInfo,
            Family::ValveInfo,
            Family::ValveSetInfo,
            Family::BatteryLevel,
            Family::BatteryLevelTimestamp,
            Family::RfLinkLevel,
            Family::RfLinkLevelTimestamp,
            Family::SoilHumidity,
            Family::SoilHumidityTimestamp,
            Family::SoilTemperature,
            Family::SoilTemperatureTimestamp,
            Family::AmbientTemperature,
            Family::AmbientTemperatureTimestamp,
            Family::LightIntensity,
            Family::LightIntensityTimestamp,
            Family::ValveOpen,
            Family::ValveDuration,
            Family::ValveActivityTimestamp,
            Family::ValveStateTimestamp,
            Family::ValveSetStateTimestamp,
            Family::ValveOpenTime,
            Family::ValveWater,
            Family::ValveFlow,
            Family::ValveCurrentFlow,
            Family::Water,
            Family::CurrentFlow,
        ];
        assert(families@ =~= Family::spec_all());
        families
    }
}

/// Every family is registered.
pub proof fn every_family_is_registered(family: Family)
    ensures
        Family::spec_all().contains(family),
{
    let all = Family::spec_all();
    match family {
        Family::ExporterConnected => assert(all[0] == family),
        Family::LastEventTimestamp => assert(all[1] == family),
        Family::LastSnapshotTimestamp => assert(all[2] == family),
        Family::LastSuccessfulSyncTimestamp => assert(all[3] == family),
        Family::WebsocketReconnects => assert(all[4] == family),
        Family::TokenRefreshes => assert(all[5] == family),
        Family::SnapshotRefreshes => assert(all[6] == family),
        Family::ExporterInfo => assert(all[7] == family),
        Family::DeviceInfo => assert(all[8] == family),
        Family::SensorInfo => assert(all[9] == family),
        Family::ValveInfo => assert(all[10] == family),
        Family::ValveSetInfo => assert(all[11] == family),
        Family::BatteryLevel => assert(all[12] == family),
        Family::BatteryLevelTimestamp => assert(all[13] == family),
        Family::RfLinkLevel => assert(all[14] == family),
        Family::RfLinkLevelTimestamp => assert(all[15] == family),
        Family::SoilHumidity => assert(all[16] == family),
        Family::SoilHumidityTimestamp => assert(all[17] == family),
        Family::SoilTemperature => assert(all[18] == family),
        Family::SoilTemperatureTimestamp => assert(all[19] == family),
        Family::AmbientTemperature => assert(all[20] == family),
        Family::AmbientTemperatureTimestamp => assert(all[21] == family),
        Family::LightIntensity => assert(all[22] == family),
        Family::LightIntensityTimestamp => assert(all[23] == family),
        Family::ValveOpen => assert(all[24] == family),
        Family::ValveDuration => assert(all[25] == family),
        Family::ValveActivityTimestamp => assert(all[26] == family),
        Family::ValveStateTimestamp => assert(all[27] == family),
        Family::ValveSetStateTimestamp => assert(all[28] == family),
        Family::ValveOpenTime => assert(all[29] == family),
        Family::ValveWater => assert(all[30] == family),
        Family::ValveFlow => assert(all[31] == family),
        Family::ValveCurrentFlow => assert(all[32] == family),
        Family::Water => assert(all[33] == family),
        Family::CurrentFlow => assert(all[34] == family),
    }
}

/// What tells the name of a family from the others: its length and three of its characters.
spec fn mark(family: Family) -> (nat, char, char, char) {
    match family {
        Family::ExporterConnected => (26, 'e', 'r', '_'),
        Family::LastEventTimestamp => (45, 'e', 'r', '_'),
        Family::LastSnapshotTimestamp => (48, 'e', 'r', '_'),
        Family::LastSuccessfulSyncTimestamp => (55, 'e', 'r', '_'),
        Family::WebsocketReconnects => (43, 'e', 'r', '_'),
        Family::TokenRefreshes => (38, 'e', 'r', '_'),
        Family::SnapshotRefreshes => (41, 'e', 'r', '_'),
        Family::ExporterInfo => (21, 'e', 'r', '_'),
        Family::DeviceInfo => (19, 'd', 'i', '_'),
        Family::SensorInfo => (19, 's', 'i', '_'),
        Family::ValveInfo => (18, 'v', 'n', '_'),
        Family::ValveSetInfo => (22, 'v', 'e', '_'),
        Family::BatteryLevel => (36, 'd', 'b', '_'),
        Family::BatteryLevelTimestamp => (46, 'd', 'b', '_'),
        Family::RfLinkLevel => (36, 'd', 'r', '_'),
        Family::RfLinkLevelTimestamp => (46, 'd', 'r', '_'),
        Family::SoilHumidity => (36, 's', 's', '_'),
        Family::SoilHumidityTimestamp => (46, 's', 's', '_'),
        Family::SoilTemperature => (39, 's', 's', '_'),
        Family::SoilTemperatureTimestamp => (49, 's', 's', '_'),
        Family::AmbientTemperature => (42, 's', 'a', 'e'),
        Family::AmbientTemperatureTimestamp => (52, 's', 'a', '_'),
        Family::LightIntensity => (34, 's', 'l', '_'),
        Family::LightIntensityTimestamp => (48, 's', 'l', '_'),
        Family::ValveOpen => (18, 'v', 'p', '_'),
        Family::ValveDuration => (30, 'v', 'u', '_'),
        Family::ValveActivityTimestamp => (40, 'v', 'c', '_'),
        Family::ValveStateTimestamp => (37, 'v', 't', '_'),
        Family::ValveSetStateTimestamp => (41, 'v', 'e', '_'),
        Family::ValveOpenTime => (42, 'v', 's', 'o'),
        Family::ValveWater => (42, 'v', 's', 'w'),
        Family::ValveFlow => (46, 'v', 's', '_'),
        Family::ValveCurrentFlow => (60, 'v', 's', '_'),
        Family::Water => (36, 'e', 'e', '_'),
        Family::CurrentFlow => (54, 'e', 'e', '_'),
    }
}

proof fn lemma_mark(family: Family)
    ensures
        family.spec_name().len() == mark(family).0,
        family.spec_name()[8] == mark(family).1,
        family.spec_name()[15] == mark(family).2,
        mark(family).0 == 42 ==> family.spec_name()[24] == mark(family).3,
{
    match family {
        Family::ExporterConnected => reveal_strlit("gardena_exporter_connected"),
        Family::LastEventTimestamp => reveal_strlit(
            "gardena_exporter_last_event_timestamp_seconds",
        ),
        Family::LastSnapshotTimestamp => reveal_strlit(
            "gardena_exporter_last_snapshot_timestamp_seconds",
        ),
        Family::LastSuccessfulSyncTimestamp => reveal_strlit(
            "gardena_exporter_last_successful_sync_timestamp_seconds",
        ),
        Family::WebsocketReconnects => reveal_strlit(
            "gardena_exporter_websocket_reconnects_total",
        ),
        Family::TokenRefreshes => reveal_strlit("gardena_exporter_token_refreshes_total"),
        Family::SnapshotRefreshes => reveal_strlit("gardena_exporter_snapshot_refreshes_total"),
        Family::ExporterInfo => reveal_strlit("gardena_exporter_info"),
        Family::DeviceInfo => reveal_strlit("gardena_device_info"),
        Family::SensorInfo => reveal_strlit("gardena_sensor_info"),
        Family::ValveInfo => reveal_strlit("gardena_valve_info"),
        Family::ValveSetInfo => reveal_strlit("gardena_valve_set_info"),
        Family::BatteryLevel => reveal_strlit("gardena_device_battery_level_percent"),
        Family::BatteryLevelTimestamp => reveal_strlit(
            "gardena_device_battery_level_timestamp_seconds",
        ),
        Family::RfLinkLevel => reveal_strlit("gardena_device_rf_link_level_percent"),
        Family::RfLinkLevelTimestamp => reveal_strlit(
            "gardena_device_rf_link_level_timestamp_seconds",
        ),
        Family::SoilHumidity => reveal_strlit("gardena_sensor_soil_humidity_percent"),
        Family::SoilHumidityTimestamp => reveal_strlit(
            "gardena_sensor_soil_humidity_timestamp_seconds",
        ),
        Family::SoilTemperature => reveal_strlit("gardena_sensor_soil_temperature_celsius"),
        Family::SoilTemperatureTimestamp => reveal_strlit(
            "gardena_sensor_soil_temperature_timestamp_seconds",
        ),
        Family::AmbientTemperature => reveal_strlit("gardena_sensor_ambient_temperature_celsius"),
        Family::AmbientTemperatureTimestamp => reveal_strlit(
            "gardena_sensor_ambient_temperature_timestamp_seconds",
        ),
        Family::LightIntensity => reveal_strlit("gardena_sensor_light_intensity_lux"),
        Family::LightIntensityTimestamp => reveal_strlit(
            "gardena_sensor_light_intensity_timestamp_seconds",
        ),
        Family::ValveOpen => reveal_strlit("gardena_valve_open"),
        Family::ValveDuration => reveal_strlit("gardena_valve_duration_seconds"),
        Family::ValveActivityTimestamp => reveal_strlit(
            "gardena_valve_activity_timestamp_seconds",
        ),
        Family::ValveStateTimestamp => reveal_strlit("gardena_valve_state_timestamp_seconds"),
        Family::ValveSetStateTimestamp => reveal_strlit(
            "gardena_valve_set_state_timestamp_seconds",
        ),
        Family::ValveOpenTime => reveal_strlit("gardena_valve_estimated_open_seconds_total"),
        Family::ValveWater => reveal_strlit("gardena_valve_estimated_water_liters_total"),
        Family::ValveFlow => reveal_strlit("gardena_valve_estimated_flow_liters_per_minute"),
        Family::ValveCurrentFlow => reveal_strlit(
            "gardena_valve_estimated_current_water_flow_liters_per_minute",
        ),
        Family::Water => reveal_strlit("gardena_estimated_water_liters_total"),
        Family::CurrentFlow => reveal_strlit(
            "gardena_estimated_current_water_flow_liters_per_minute",
        ),
    }
}

/// No two families have the same name.
pub proof fn family_names_differ(a: Family, b: Family)
    requires
        a.spec_name() == b.spec_name(),
    ensures
        a == b,
{
    lemma_mark(a);
    lemma_mark(b);
}

}
