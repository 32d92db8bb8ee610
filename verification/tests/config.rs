use gardena_exporter::config::{
    collect_overrides, flow_text, FlowOverrideError, ValveFlowOverride, DEFAULT_API_URL,
    DEFAULT_AUTH_URL, DEFAULT_ESTIMATED_FLOW_LITERS_PER_MINUTE_BITS,
};
use gardena_exporter::json::Scalar;

fn parsed(value: &str) -> Result<ValveFlowOverride, FlowOverrideError> {
    let number = flow_text(value)
        .and_then(|text| text.parse::<f64>().ok())
        .map(|number| Scalar { bits: number.to_bits() });
    ValveFlowOverride::from_text(value, number)
}

#[test]
fn defaults_are_as_documented() {
    assert_eq!(DEFAULT_AUTH_URL, "https://api.authentication.husqvarnagroup.dev/v1");
    assert_eq!(DEFAULT_API_URL, "https://api.smart.gardena.dev/v2");
    assert_eq!(f64::from_bits(DEFAULT_ESTIMATED_FLOW_LITERS_PER_MINUTE_BITS), 3.5);
}

#[test]
fn an_override_is_read() {
    let stated = parsed("5f7a3e6e-1111-2222-3333-444444444444=1.2").expect("override");
    assert_eq!(stated.service_id, "5f7a3e6e-1111-2222-3333-444444444444");
    assert_eq!(f64::from_bits(stated.liters_per_minute.bits), 1.2);
    let spaced = parsed("  valve 1 =\t6.0 ").expect("override");
    assert_eq!(spaced.service_id, "valve 1");
    assert_eq!(f64::from_bits(spaced.liters_per_minute.bits), 6.0);
    assert_eq!(f64::from_bits(parsed("v=0").expect("zero").liters_per_minute.bits), 0.0);
}

#[test]
fn a_text_without_an_override_is_refused() {
    let error = |value: &str| parsed(value).expect_err("should be refused");
    assert_eq!(error("valve-1"), FlowOverrideError::MissingSeparator);
    assert_eq!(error(""), FlowOverrideError::MissingSeparator);
    assert_eq!(error(" =1.2"), FlowOverrideError::EmptyServiceId);
    assert_eq!(error("=fast"), FlowOverrideError::EmptyServiceId);
    assert_eq!(error("valve-1=fast"), FlowOverrideError::NotANumber);
    assert_eq!(error("valve-1="), FlowOverrideError::NotANumber);
    assert_eq!(error("valve-1=1=2"), FlowOverrideError::NotANumber);
    assert_eq!(error("valve-1=-1"), FlowOverrideError::Negative);
    assert_eq!(error("valve-1=-0"), FlowOverrideError::Negative);
}

#[test]
fn refusals_are_told_in_words() {
    assert_eq!(FlowOverrideError::MissingSeparator.message(), "expected SERVICE_ID=LPM");
    assert_eq!(FlowOverrideError::EmptyServiceId.message(), "service id must not be empty");
    assert_eq!(FlowOverrideError::NotANumber.message(), "flow value must be a number");
    assert_eq!(FlowOverrideError::Negative.message(), "flow value must be zero or greater");
}

#[test]
fn the_last_override_of_a_valve_applies() {
    let overrides: Vec<ValveFlowOverride> = ["a=1", "b=2", "a=3"]
        .iter()
        .map(|value| parsed(value).expect("override"))
        .collect();
    let rates = collect_overrides(&overrides);
    assert_eq!(rates.len(), 2);
    assert_eq!(rates.get("a").map(|rate| f64::from_bits(rate.bits)), Some(3.0));
    assert_eq!(rates.get("b").map(|rate| f64::from_bits(rate.bits)), Some(2.0));
    assert!(rates.get("c").is_none());
}
