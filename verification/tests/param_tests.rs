//! Automation timeline behavior: immediate sets, linear and exponential
//! ramps, sampling, and cancellation.

use audio_graph::AudioParam;
use audio_graph::VALUE_UNIT;

#[test]
fn set_value_steps_immediately() {
    let mut p = AudioParam::new(0);
    p.set_value(250_000, 0);
    assert_eq!(p.value(0), 250_000);
}

#[test]
fn set_value_rebases_a_pending_ramp() {
    // With a ramp in flight, setting the value rebases the hold at the call
    // time: the param reads the new value at once, and the ramp keeps its
    // target but now climbs from the new hold.
    let mut p = AudioParam::new(0);
    p.linear_ramp_to_value_at_time(VALUE_UNIT, 10);
    p.set_value(0, 5);
    assert_eq!(p.value(5), 0);
    assert_eq!(p.value(7), 400_000);
    assert_eq!(p.value(10), VALUE_UNIT);
}

#[test]
fn set_value_drops_events_that_already_ran_out() {
    let mut p = AudioParam::new(0);
    p.linear_ramp_to_value_at_time(VALUE_UNIT, 10);
    p.set_value(300_000, 20);
    assert_eq!(p.value(20), 300_000);
    assert_eq!(p.value(100), 300_000);
}

#[test]
fn linear_ramp_reaches_target_exactly_at_end_time() {
    let mut p = AudioParam::new(0);
    p.set_value(0, 0);
    p.linear_ramp_to_value_at_time(VALUE_UNIT, 10_000_000);
    assert_eq!(p.value(10_000_000), VALUE_UNIT);
    assert_eq!(p.value(20_000_000), VALUE_UNIT);
}

#[test]
fn linear_ramp_interpolates_strictly_between_endpoints() {
    let mut p = AudioParam::new(0);
    p.set_value(0, 0);
    p.linear_ramp_to_value_at_time(VALUE_UNIT, 10_000_000);
    assert_eq!(p.value(0), 0);
    assert_eq!(p.value(2_500_000), 250_000);
    assert_eq!(p.value(5_000_000), 500_000);
    assert_eq!(p.value(7_500_000), 750_000);
    let mut previous = 0;
    for step in 1..10 {
        let v = p.value(step * 1_000_000);
        assert!(0 < v && v < VALUE_UNIT);
        assert!(v > previous);
        previous = v;
    }
}

#[test]
fn downward_ramp_interpolates() {
    let mut p = AudioParam::new(VALUE_UNIT);
    p.linear_ramp_to_value_at_time(0, 10);
    assert_eq!(p.value(5), 500_000);
    assert_eq!(p.value(10), 0);
}

#[test]
fn two_segment_schedule_samples_each_segment() {
    let mut p = AudioParam::new(0);
    p.linear_ramp_to_value_at_time(VALUE_UNIT, 10);
    p.linear_ramp_to_value_at_time(0, 20);
    assert_eq!(p.value(5), 500_000);
    assert_eq!(p.value(10), VALUE_UNIT);
    assert_eq!(p.value(15), 500_000);
    assert_eq!(p.value(20), 0);
    assert_eq!(p.value(30), 0);
}

#[test]
fn exponential_ramp_hits_target_and_stays_between_endpoints() {
    let mut p = AudioParam::new(VALUE_UNIT);
    p.exponential_ramp_to_value_at_time(2 * VALUE_UNIT, 10);
    let mid = p.value(5);
    assert!(VALUE_UNIT <= mid && mid <= 2 * VALUE_UNIT);
    assert_eq!(p.value(10), 2 * VALUE_UNIT);
}

#[test]
fn cancel_holds_the_value_effective_at_the_cancel_time() {
    let mut p = AudioParam::new(0);
    p.set_value(0, 0);
    p.linear_ramp_to_value_at_time(VALUE_UNIT, 10_000_000);
    p.cancel_scheduled_changes(5_000_000);
    assert_eq!(p.value(5_000_000), 500_000);
    assert_eq!(p.value(7_000_000), 500_000);
    assert_eq!(p.value(10_000_000), 500_000);
    assert_eq!(p.value(u64::MAX), 500_000);
}

#[test]
fn cancel_before_any_event_is_kept_is_a_plain_hold() {
    let mut p = AudioParam::new(300_000);
    p.linear_ramp_to_value_at_time(VALUE_UNIT, 10);
    p.cancel_scheduled_changes(0);
    assert_eq!(p.value(0), 300_000);
    assert_eq!(p.value(100), 300_000);
}

#[test]
fn cancel_past_the_whole_schedule_changes_nothing() {
    let mut p = AudioParam::new(0);
    p.linear_ramp_to_value_at_time(VALUE_UNIT, 10);
    p.cancel_scheduled_changes(50);
    assert_eq!(p.value(5), 500_000);
    assert_eq!(p.value(10), VALUE_UNIT);
    assert_eq!(p.value(60), VALUE_UNIT);
}

#[test]
fn cancel_keeps_earlier_segments() {
    let mut p = AudioParam::new(0);
    p.linear_ramp_to_value_at_time(VALUE_UNIT, 10);
    p.linear_ramp_to_value_at_time(0, 20);
    p.cancel_scheduled_changes(15);
    assert_eq!(p.value(5), 500_000);
    assert_eq!(p.value(10), VALUE_UNIT);
    assert_eq!(p.value(15), 500_000);
    assert_eq!(p.value(20), 500_000);
    assert_eq!(p.value(100), 500_000);
}

#[test]
fn ramp_rounds_toward_its_start_inside_the_quantum() {
    // A one-millionth rise over two microseconds has not yet left its start
    // value halfway through: fixed-point sampling rounds toward the start.
    let mut p = AudioParam::new(0);
    p.linear_ramp_to_value_at_time(1, 2);
    assert_eq!(p.value(1), 0);
    assert_eq!(p.value(2), 1);
}

#[test]
fn cancel_before_the_hold_began_holds_the_base_value() {
    let mut p = AudioParam::new(5);
    p.set_value(7, 10);
    p.cancel_scheduled_changes(3);
    assert_eq!(p.value(3), 7);
    assert_eq!(p.value(100), 7);
}
