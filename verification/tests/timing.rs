use auto_clicker::timing::convert_time_to_duration;
use auto_clicker::timing::ClickDuration;

fn total_millis(duration: ClickDuration) -> u128 {
    duration.secs as u128 * 1000 + duration.nanos as u128 / 1_000_000
}

#[test]
fn half_a_second() {
    let duration = convert_time_to_duration(0, 0, 0, 500);
    assert_eq!(duration.secs, 0);
    assert_eq!(duration.nanos, 500_000_000);
    assert_eq!(total_millis(duration), 500);
}

#[test]
fn one_of_each_component() {
    let duration = convert_time_to_duration(1, 1, 1, 1);
    assert_eq!(duration.secs, 3661);
    assert_eq!(duration.nanos, 1_000_000);
    assert_eq!(total_millis(duration), 3_661_001);
}

#[test]
fn zero_interval() {
    let duration = convert_time_to_duration(0, 0, 0, 0);
    assert_eq!(duration, ClickDuration { secs: 0, nanos: 0 });
}

#[test]
fn milliseconds_spill_into_seconds() {
    let duration = convert_time_to_duration(0, 0, 0, 2750);
    assert_eq!(duration.secs, 2);
    assert_eq!(duration.nanos, 750_000_000);
}

#[test]
fn extreme_hours_saturate() {
    let duration = convert_time_to_duration(usize::MAX, 0, 0, 0);
    assert_eq!(duration.secs, u64::MAX / 1000);
    assert_eq!(duration.nanos, (u64::MAX % 1000) as u32 * 1_000_000);
}

#[test]
fn extreme_inputs_all_saturate_alike() {
    let from_hours = convert_time_to_duration(usize::MAX, 0, 0, 0);
    let from_everything = convert_time_to_duration(usize::MAX, usize::MAX, usize::MAX, usize::MAX);
    assert_eq!(from_hours, from_everything);
}

#[test]
fn increasing_any_component_never_decreases() {
    let base = convert_time_to_duration(1, 2, 3, 4);
    assert!(total_millis(convert_time_to_duration(2, 2, 3, 4)) >= total_millis(base));
    assert!(total_millis(convert_time_to_duration(1, 3, 3, 4)) >= total_millis(base));
    assert!(total_millis(convert_time_to_duration(1, 2, 4, 4)) >= total_millis(base));
    assert!(total_millis(convert_time_to_duration(1, 2, 3, 5)) >= total_millis(base));
}
