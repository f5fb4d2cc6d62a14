use eucalyptus_twig::power::{Power, PowerIndicator, estimate_seconds, percent_bucket};

#[test]
fn buckets_follow_the_thresholds() {
    assert_eq!(percent_bucket(0), 0);
    assert_eq!(percent_bucket(9), 0);
    assert_eq!(percent_bucket(10), 1);
    assert_eq!(percent_bucket(19), 1);
    assert_eq!(percent_bucket(20), 2);
    assert_eq!(percent_bucket(39), 2);
    assert_eq!(percent_bucket(40), 3);
    assert_eq!(percent_bucket(49), 3);
    assert_eq!(percent_bucket(50), 4);
    assert_eq!(percent_bucket(69), 4);
    assert_eq!(percent_bucket(70), 5);
    assert_eq!(percent_bucket(79), 5);
    assert_eq!(percent_bucket(80), 6);
    assert_eq!(percent_bucket(99), 6);
    assert_eq!(percent_bucket(100), 7);
    assert_eq!(percent_bucket(250), 7);
}

#[test]
fn estimates_only_for_positive_seconds() {
    assert_eq!(estimate_seconds(0), None);
    assert_eq!(estimate_seconds(-5), None);
    assert_eq!(estimate_seconds(1), Some(1));
    assert_eq!(estimate_seconds(3600), Some(3600));
    assert_eq!(estimate_seconds(i64::MIN), None);
}

#[test]
fn indicator_requires_all_battery_fields() {
    let mut p = Power::new();
    assert_eq!(p.indicator(), PowerIndicator::Unknown);
    p.set_type(2);
    p.set_state(1);
    assert_eq!(p.indicator(), PowerIndicator::Unknown, "percentage still missing");
    p.set_percentage(55);
    assert_eq!(p.indicator(), PowerIndicator::Charging(4));
    p.set_state(2);
    assert_eq!(p.indicator(), PowerIndicator::Discharging(4));
    p.set_state(3);
    assert_eq!(p.indicator(), PowerIndicator::Empty);
    p.set_state(4);
    assert_eq!(p.indicator(), PowerIndicator::FullyCharged);
    p.set_state(9);
    assert_eq!(p.indicator(), PowerIndicator::OtherState(9));
    // A non-battery device type renders the placeholder.
    p.set_type(1);
    assert_eq!(p.indicator(), PowerIndicator::Unknown);
}

#[test]
fn error_wins_over_everything() {
    let mut p = Power::new();
    p.set_type(2);
    p.set_state(1);
    p.set_percentage(80);
    p.set_error("no bus".to_owned());
    assert_eq!(p.indicator(), PowerIndicator::Error);
    assert_eq!(p.error_message.as_deref(), Some("no bus"));
}

#[test]
fn time_estimates_are_stored_fieldwise() {
    let mut p = Power::new();
    p.set_time_to_empty(120);
    p.set_time_to_full(0);
    assert_eq!(p.time_to_empty, Some(120));
    assert_eq!(p.time_to_full, None);
    p.set_time_to_full(30);
    p.set_time_to_empty(-1);
    assert_eq!(p.time_to_empty, None);
    assert_eq!(p.time_to_full, Some(30));
}
