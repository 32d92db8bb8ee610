//! The configuration of the exporter.
use crate::json::Scalar;
use crate::ordered::OrderedMap;
use crate::text::{copy_text, split_once, trim};
use vstd::prelude::*;

verus! {

use crate::state::{flow_rates, FlowView};
use crate::text::{halves, trimmed};

/// Where tokens are obtained, unless another place is configured.
pub const DEFAULT_AUTH_URL: &'static str = "https://api.authentication.husqvarnagroup.dev/v1";

/// Where the Gardena API is, unless another place is configured.
pub const DEFAULT_API_URL: &'static str = "https://api.smart.gardena.dev/v2";

/// The bits of the flow rate that a valve has unless another is configured: three and a half
/// liters per minute.
pub const DEFAULT_ESTIMATED_FLOW_LITERS_PER_MINUTE_BITS: u64 = 0x400c_0000_0000_0000;

/// How the exporter makes itself known to the API.
#[derive(Debug)]
pub struct AuthConfig {
    pub application_key: String,
    pub application_secret: String,
    pub auth_url: String,
}

/// What an [`AuthConfig`] says.
pub ghost struct AuthView {
    pub application_key: Seq<char>,
    pub application_secret: Seq<char>,
    pub auth_url: Seq<char>,
}

impl View for AuthConfig {
    type V = AuthView;

    open spec fn view(&self) -> AuthView {
        AuthView {
            application_key: self.application_key@,
            application_secret: self.application_secret@,
            auth_url: self.auth_url@,
        }
    }
}

impl Clone for AuthConfig {
    /// A second one that says the same.
    fn clone(&self) -> (copy: Self)
        ensures
            copy@ == self@,
    {
        AuthConfig {
            application_key: self.application_key.clone(),
            application_secret: self.application_secret.clone(),
            auth_url: self.auth_url.clone(),
        }
    }
}

/// How the exporter is run. Intervals and delays are in seconds.
#[derive(Debug)]
pub struct RuntimeConfig {
    pub auth: AuthConfig,
    pub api_url: String,
    pub location_id: Option<String>,
    pub snapshot_interval: u64,
    pub reconnect_delay: u64,
    pub max_reconnect_delay: u64,
    pub estimated_flow_liters_per_minute: Option<Scalar>,
    pub valve_estimated_flow_liters_per_minute: OrderedMap<Scalar>,
}

/// What a [`RuntimeConfig`] says.
pub ghost struct ConfigView {
    pub auth: AuthView,
    pub api_url: Seq<char>,
    pub location_id: Option<Seq<char>>,
    pub snapshot_interval: u64,
    pub reconnect_delay: u64,
    pub max_reconnect_delay: u64,
    pub flows: FlowView,
}

impl View for RuntimeConfig {
    type V = ConfigView;

    open spec fn view(&self) -> ConfigView {
        ConfigView {
            auth: self.auth@,
            api_url: self.api_url@,
            location_id: self.location_id.deep_view(),
            snapshot_interval: self.snapshot_interval,
            reconnect_delay: self.reconnect_delay,
            max_reconnect_delay: self.max_reconnect_delay,
            flows: flow_rates(
                self.estimated_flow_liters_per_minute,
                self.valve_estimated_flow_liters_per_minute@,
            ),
        }
    }
}

impl Clone for RuntimeConfig {
    /// A second one that says the same.
    fn clone(&self) -> (copy: Self)
        ensures
            copy@ == self@,
    {
        let copy = RuntimeConfig {
            auth: self.auth.clone(),
            api_url: self.api_url.clone(),
            location_id: copy_text(&self.location_id),
            snapshot_interval: self.snapshot_interval,
            reconnect_delay: self.reconnect_delay,
            max_reconnect_delay: self.max_reconnect_delay,
            estimated_flow_liters_per_minute: self.estimated_flow_liters_per_minute,
            valve_estimated_flow_liters_per_minute:
                self.valve_estimated_flow_liters_per_minute.clone(),
        };
        assert(copy.valve_estimated_flow_liters_per_minute@
            =~= self.valve_estimated_flow_liters_per_minute@);
        copy
    }
}

/// A flow rate for one valve, in liters per minute.
#[derive(Debug, Clone)]
pub struct ValveFlowOverride {
    pub service_id: String,
    pub liters_per_minute: Scalar,
}

/// What a [`ValveFlowOverride`] says.
pub ghost struct OverrideView {
    pub service_id: Seq<char>,
    pub liters_per_minute: Scalar,
}

impl View for ValveFlowOverride {
    type V = OverrideView;

    open spec fn view(&self) -> OverrideView {
        OverrideView {
            service_id: self.service_id@,
            liters_per_minute: self.liters_per_minute,
        }
    }
}

/// Why a text states no flow rate for a valve.
#[derive(Clone, Copy, Debug, PartialEq, Eq, Structural)]
pub enum FlowOverrideError {
    MissingSeparator,
    EmptyServiceId,
    NotANumber,
    Negative,
}

impl FlowOverrideError {
    /// The error in words.
    pub open spec fn words(self) -> Seq<char> {
        match self {
            FlowOverrideError::MissingSeparator => "expected SERVICE_ID=LPM"@,
            FlowOverrideError::EmptyServiceId => "service id must not be empty"@,
            FlowOverrideError::NotANumber => "flow value must be a number"@,
            FlowOverrideError::Negative => "flow value must be zero or greater"@,
        }
    }

    /// The error in words.
    pub fn message(&self) -> (words: &'static str)
        ensures
            words@ == self.words(),
    {
        match self {
            FlowOverrideError::MissingSeparator => "expected SERVICE_ID=LPM",
            FlowOverrideError::EmptyServiceId => "service id must not be empty",
            FlowOverrideError::NotANumber => "flow value must be a number",
            FlowOverrideError::Negative => "flow value must be zero or greater",
        }
    }
}

/// The flow rate that a text states for a valve, as `SERVICE_ID=LPM`, where `number` is the
/// number that the part behind the equals sign stands for.
pub open spec fn stated_override(value: Seq<char>, number: Option<Scalar>) -> Result<
    OverrideView,
    FlowOverrideError,
> {
    match halves(value, '=') {
        None => Err(FlowOverrideError::MissingSeparator),
        Some((service_id, _)) => if trimmed(service_id).len() == 0 {
            Err(FlowOverrideError::EmptyServiceId)
        } else {
            match number {
                None => Err(FlowOverrideError::NotANumber),
                Some(rate) => if rate.negative() {
                    Err(FlowOverrideError::Negative)
                } else {
                    Ok(OverrideView { service_id: trimmed(service_id), liters_per_minute: rate })
                },
            }
        },
    }
}

/// The part of `SERVICE_ID=LPM` that has to be a number, without white space around it.
pub fn flow_text(value: &str) -> (text: Option<&str>)
    ensures
        text.deep_view() == (match halves(value@, '=') {
            Some((_, liters_per_minute)) => Some(trimmed(liters_per_minute)),
            None => None,
        }),
{
    match split_once(value, '=') {
        Some((_, liters_per_minute)) => Some(trim(liters_per_minute)),
        None => None,
    }
}

impl ValveFlowOverride {
    /// Reads `SERVICE_ID=LPM`, where `number` is what [`flow_text`] stands for, if it is a
    /// number.
    pub fn from_text(value: &str, number: Option<Scalar>) -> (result: Result<
        ValveFlowOverride,
        FlowOverrideError,
    >)
        ensures
            (match result {
                Ok(stated) => Ok(stated@),
                Err(error) => Err(error),
            }) == stated_override(value@, number),
    {
        let service_id = match split_once(value, '=') {
            Some((service_id, _)) => trim(service_id),
            None => {
                return Err(FlowOverrideError::MissingSeparator);
            },
        };
        if service_id.is_empty() {
            return Err(FlowOverrideError::EmptyServiceId);
        }
        match number {
            None => Err(FlowOverrideError::NotANumber),
            Some(liters_per_minute) => if liters_per_minute.is_sign_negative() {
                Err(FlowOverrideError::Negative)
            } else {
                Ok(ValveFlowOverride { service_id: service_id.to_owned(), liters_per_minute })
            },
        }
    }
}

/// Flow rates by valve. Of several for one valve the last applies.
pub open spec fn rates_by_valve(overrides: Seq<OverrideView>) -> Map<Seq<char>, Scalar>
    decreases overrides.len(),
{
    if overrides.len() == 0 {
        Map::empty()
    } else {
        rates_by_valve(overrides.drop_last()).insert(
            overrides.last().service_id,
            overrides.last().liters_per_minute,
        )
    }
}

/// Collects flow rates by valve. Of several for one valve the last applies.
pub fn collect_overrides(overrides: &Vec<ValveFlowOverride>) -> (rates: OrderedMap<Scalar>)
    ensures
        rates@ == rates_by_valve(overrides@.map_values(|stated: ValveFlowOverride| stated@)),
{
    let mut rates: OrderedMap<Scalar> = OrderedMap::new();
    let ghost all = overrides@.map_values(|stated: ValveFlowOverride| stated@);
    for i in 0..overrides.len()
        invariant
            all == overrides@.map_values(|stated: ValveFlowOverride| stated@),
            rates@ == rates_by_valve(all.take(i as int)),
    {
        rates.insert(overrides[i].service_id.clone(), overrides[i].liters_per_minute);
        proof {
            assert(all.take(i + 1).drop_last() =~= all.take(i as int));
            assert(all.take(i + 1).last() == overrides@[i as int]@);
        }
    }
    assert(all.take(all.len() as int) =~= all);
    rates
}

/// The rate that is stated last for a valve is the one that applies to it.
pub proof fn last_override_applies(overrides: Seq<OverrideView>, i: int)
    requires
        0 <= i < overrides.len(),
        forall|j: int|
            i < j < overrides.len() ==> #[trigger] overrides[j].service_id
                != overrides[i].service_id,
    ensures
        rates_by_valve(overrides).contains_key(overrides[i].service_id),
        rates_by_valve(overrides)[overrides[i].service_id] == overrides[i].liters_per_minute,
    decreases overrides.len(),
{
    if i < overrides.len() - 1 {
        let rest = overrides.drop_last();
        assert forall|j: int| i < j < rest.len() implies #[trigger] rest[j].service_id
            != rest[i].service_id by {
            assert(rest[j] == overrides[j]);
        }
        last_override_applies(rest, i);
        assert(overrides[overrides.len() - 1].service_id != overrides[i].service_id);
    }
}

/// A flow rate is stated as the identifier of the valve, an equals sign and a number. White space
/// around the identifier does not count.
pub proof fn overrides_are_read(
    service_id: Seq<char>,
    rest: Seq<char>,
    number: Option<Scalar>,
)
    requires
        !service_id.contains('='),
    ensures
        ({
            let value = service_id + seq!['='] + rest;
            let stated = stated_override(value, number);
            &&& trimmed(service_id).len() == 0 ==> stated == Err::<OverrideView, FlowOverrideError>(
                FlowOverrideError::EmptyServiceId,
            )
            &&& trimmed(service_id).len() > 0 && number is None ==> stated == Err::<
                OverrideView,
                FlowOverrideError,
            >(FlowOverrideError::NotANumber)
            &&& trimmed(service_id).len() > 0 && number is Some && number->0.bits
                >= 0x8000_0000_0000_0000 ==> stated == Err::<OverrideView, FlowOverrideError>(
                FlowOverrideError::Negative,
            )
            &&& trimmed(service_id).len() > 0 && number is Some && number->0.bits
                < 0x8000_0000_0000_0000 ==> stated == Ok::<OverrideView, FlowOverrideError>(
                OverrideView {
                    service_id: trimmed(service_id),
                    liters_per_minute: number->0,
                },
            )
            &&& halves(value, '=') == Some((service_id, rest))
        }),
{
    let value = service_id + seq!['='] + rest;
    let at = service_id.len() as int;
    assert(value[at] == '=');
    assert(value.contains('='));
    value.index_of_first_ensures('=');
    assert forall|i: int| 0 <= i < at implies value[i] != '=' by {
        assert(service_id.contains(service_id[i]));
    }
    assert(value.index_of_first('=') == Some(at));
    assert(value.take(at) =~= service_id);
    assert(value.skip(at + 1) =~= rest);
}

/// A text without an equals sign states no flow rate.
pub proof fn overrides_need_a_separator(value: Seq<char>, number: Option<Scalar>)
    requires
        !value.contains('='),
    ensures
        stated_override(value, number) == Err::<OverrideView, FlowOverrideError>(
            FlowOverrideError::MissingSeparator,
        ),
{
    value.index_of_first_ensures('=');
}

/// What is said of a text that states no flow rate.
pub proof fn override_errors_say_why()
    ensures
        FlowOverrideError::MissingSeparator.words() == "expected SERVICE_ID=LPM"@,
        FlowOverrideError::EmptyServiceId.words() == "service id must not be empty"@,
        FlowOverrideError::NotANumber.words() == "flow value must be a number"@,
        FlowOverrideError::Negative.words() == "flow value must be zero or greater"@,
{
}

/// A valve has a flow rate of its own exactly if one is stated for it.
pub proof fn only_stated_overrides_apply(overrides: Seq<OverrideView>, service_id: Seq<char>)
    ensures
        rates_by_valve(overrides).contains_key(service_id) <==> exists|i: int|
            0 <= i < overrides.len() && (#[trigger] overrides[i]).service_id == service_id,
    decreases overrides.len(),
{
    if overrides.len() > 0 {
        let rest = overrides.drop_last();
        only_stated_overrides_apply(rest, service_id);
        if rates_by_valve(rest).contains_key(service_id) {
            let i = choose|i: int|
                0 <= i < rest.len() && (#[trigger] rest[i]).service_id == service_id;
            assert(overrides[i].service_id == service_id);
        }
        if overrides.last().service_id == service_id {
            assert(overrides[overrides.len() - 1].service_id == service_id);
        }
        if exists|i: int|
            0 <= i < overrides.len() && (#[trigger] overrides[i]).service_id == service_id {
            let i = choose|i: int|
                0 <= i < overrides.len() && (#[trigger] overrides[i]).service_id == service_id;
            if i < rest.len() {
                assert(rest[i].service_id == service_id);
            }
        }
    }
}

/// The flow rates of a configuration are those that it was given.
pub proof fn configured_rates_apply(config: RuntimeConfig, valve_id: Seq<char>)
    ensures
        config@.flows.default_rate == config.estimated_flow_liters_per_minute,
        config@.flows.by_valve == config.valve_estimated_flow_liters_per_minute@,
        config.valve_estimated_flow_liters_per_minute@.contains_key(valve_id)
            ==> config@.flows.rate_of(valve_id) == Some(
            config.valve_estimated_flow_liters_per_minute@[valve_id],
        ),
        !config.valve_estimated_flow_liters_per_minute@.contains_key(valve_id)
            ==> config@.flows.rate_of(valve_id) == config.estimated_flow_liters_per_minute,
{
}

/// What is configured where nothing else is said.
pub proof fn defaults_are_those_of_the_service()
    ensures
        DEFAULT_AUTH_URL@ == "https://api.authentication.husqvarnagroup.dev/v1"@,
        DEFAULT_API_URL@ == "https://api.smart.gardena.dev/v2"@,
        DEFAULT_ESTIMATED_FLOW_LITERS_PER_MINUTE_BITS == 0x400c_0000_0000_0000,
{
}

/// What an [`AuthConfig`] says of each of its parts is what the field holds.
pub proof fn credentials_say_what_they_hold(auth: AuthConfig)
    ensures
        auth@.application_key == auth.application_key@,
        auth@.application_secret == auth.application_secret@,
        auth@.auth_url == auth.auth_url@,
{
}

/// What a [`RuntimeConfig`] says of each of its parts is what the field holds.
pub proof fn configurations_say_what_they_hold(config: RuntimeConfig)
    ensures
        config@.auth == config.auth@,
        config@.api_url == config.api_url@,
        config@.location_id == config.location_id.deep_view(),
        config@.snapshot_interval == config.snapshot_interval,
        config@.reconnect_delay == config.reconnect_delay,
        config@.max_reconnect_delay == config.max_reconnect_delay,
{
}

/// What a [`ValveFlowOverride`] says of each of its parts is what the field holds.
pub proof fn overrides_say_what_they_hold(stated: ValveFlowOverride)
    ensures
        stated@.service_id == stated.service_id@,
        stated@.liters_per_minute == stated.liters_per_minute,
{
}

}
