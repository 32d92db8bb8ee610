use gardena_exporter::json::Scalar;
use gardena_exporter::usage::{MeteredTime, ValveUsageState, ValveUsageTotals};

fn scalar(number: f64) -> Scalar {
    Scalar { bits: number.to_bits() }
}

#[test]
fn an_interval_is_metered_at_the_rate_of_its_end() {
    let mut usage = ValveUsageState::default();
    usage.report(true, 1_000, Some(scalar(3.5)));
    assert_eq!(usage.open_since_timestamp, Some(1_000));
    usage.report(false, 61_000, Some(scalar(1.2)));
    assert_eq!(usage.total_open_millis, 60_000);
    assert_eq!(usage.metered, vec![MeteredTime { flow: scalar(1.2), open_millis: 60_000 }]);
    assert_eq!(usage.open_since_timestamp, None);
    assert!(!usage.currently_open);
}

#[test]
fn each_rate_is_metered_once() {
    let mut usage = ValveUsageState::default();
    for (start, end, rate) in [(0, 10, 1.0), (20, 50, 2.0), (60, 65, 1.0)] {
        usage.report(true, start, Some(scalar(rate)));
        usage.report(false, end, Some(scalar(rate)));
    }
    assert_eq!(
        usage.metered,
        vec![
            MeteredTime { flow: scalar(1.0), open_millis: 15 },
            MeteredTime { flow: scalar(2.0), open_millis: 30 },
        ]
    );
    assert_eq!(usage.total_open_millis, 45);
}

#[test]
fn a_clock_that_goes_back_counts_nothing() {
    let mut usage = ValveUsageState::default();
    usage.report(true, 5_000, Some(scalar(1.0)));
    assert_eq!(usage.totals(4_000).open_millis, 0);
    usage.report(false, 4_000, Some(scalar(1.0)));
    assert_eq!(usage.total_open_millis, 0);
    assert_eq!(usage.metered, vec![MeteredTime { flow: scalar(1.0), open_millis: 0 }]);
}

#[test]
fn totals_count_the_present_interval() {
    let mut usage = ValveUsageState::default();
    usage.report(true, 0, Some(scalar(2.0)));
    let early = usage.totals(30_000);
    let late = usage.totals(90_000);
    assert_eq!(early.open_millis, 30_000);
    assert_eq!(late.open_millis, 90_000);
    assert_eq!(late.metered, vec![MeteredTime { flow: scalar(2.0), open_millis: 90_000 }]);
    assert_eq!(late.current_flow_liters_per_minute, Some(scalar(2.0)));
    usage.report(false, 90_000, Some(scalar(2.0)));
    let settled = usage.totals(500_000);
    assert_eq!(settled.open_millis, late.open_millis);
    assert_eq!(settled.metered, late.metered);
    assert_eq!(settled.flow_liters_per_minute, Some(scalar(2.0)));
    assert_eq!(settled.current_flow_liters_per_minute, None);
}

#[test]
fn time_without_a_rate_is_not_metered() {
    let mut usage = ValveUsageState::default();
    usage.report(true, 0, None);
    usage.report(false, 1_000, None);
    assert_eq!(usage.total_open_millis, 1_000);
    assert!(usage.metered.is_empty());
}

#[test]
fn the_longest_interval_fits() {
    let mut usage = ValveUsageState::default();
    usage.report(true, i64::MIN, Some(scalar(1.0)));
    usage.report(false, i64::MAX, Some(scalar(1.0)));
    assert_eq!(usage.total_open_millis, u64::MAX as u128);
}

#[test]
fn spans_saturate() {
    let mut usage = ValveUsageState::default();
    usage.total_open_millis = u128::MAX - 1;
    usage.report(true, 0, None);
    usage.report(false, 10, None);
    assert_eq!(usage.total_open_millis, u128::MAX);
}

#[test]
fn a_valve_that_was_never_reported_has_no_totals() {
    let totals = ValveUsageTotals::default();
    assert_eq!(totals.open_millis, 0);
    assert!(totals.metered.is_empty());
    assert_eq!(totals.flow_liters_per_minute, None);
    assert_eq!(totals.current_flow_liters_per_minute, None);
}
