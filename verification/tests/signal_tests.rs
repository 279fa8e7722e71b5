use throttle_control::bounded::BoundedAnalogValue;
use throttle_control::bounded::BoundedValueError;
use throttle_control::bounded::ANALOG_VALUE_MAX;
use throttle_control::dual_signal::DualChannelSignal;
use throttle_control::hysteresis::HysteresisFault;

#[test]
fn fresh_signal_reports_average_zero() {
    let s = DualChannelSignal::new(0, 0);
    assert_eq!(s.average(), 0);
}

#[test]
fn average_is_arithmetic_mean_of_latest_pair() {
    let mut s = DualChannelSignal::new(0, 0);
    s.update(100, 200);
    assert_eq!(s.average(), 150);
    s.update(7, 8);
    assert_eq!(s.average(), 7);
    s.update(65535, 65535);
    assert_eq!(s.average(), 65535);
    s.update(0, 4095);
    assert_eq!(s.average(), 2047);
}

#[test]
fn update_overwrites_unconditionally() {
    let mut s = DualChannelSignal::new(11, 22);
    s.update(33, 44);
    assert_eq!(s.high(), 33);
    assert_eq!(s.low(), 44);
    s.update(0, 0);
    assert_eq!(s.high(), 0);
    assert_eq!(s.low(), 0);
}

#[test]
fn grounded_needs_both_channels_at_or_below_threshold() {
    let mut s = DualChannelSignal::new(0, 0);
    assert!(s.is_grounded(0));
    s.update(0, 5);
    assert!(!s.is_grounded(0));
    s.update(5, 0);
    assert!(!s.is_grounded(0));
    s.update(3, 4);
    assert!(s.is_grounded(4));
    assert!(!s.is_grounded(2));
}

#[test]
fn bounded_value_accepts_the_full_range() {
    assert_eq!(BoundedAnalogValue::new(0).unwrap().val(), 0);
    assert_eq!(BoundedAnalogValue::new(4095).unwrap().val(), 4095);
    assert_eq!(ANALOG_VALUE_MAX, 4095);
}

#[test]
fn bounded_value_rejects_out_of_range() {
    assert!(matches!(BoundedAnalogValue::new(4096), Err(BoundedValueError::OutOfRange)));
    assert!(matches!(BoundedAnalogValue::new(65535), Err(BoundedValueError::OutOfRange)));
}

#[test]
fn latch_never_trips_before_the_window() {
    let mut h = HysteresisFault::new();
    assert!(!h.condition_exceeded_duration(true, 100, 0));
    assert!(!h.condition_exceeded_duration(true, 100, 50));
    assert!(!h.condition_exceeded_duration(true, 100, 99));
    assert!(h.condition_exceeded_duration(true, 100, 100));
    assert!(h.condition_exceeded_duration(true, 100, 5000));
}

#[test]
fn intermittent_condition_needs_a_fresh_full_window() {
    let mut h = HysteresisFault::new();
    assert!(!h.condition_exceeded_duration(true, 100, 0));
    assert!(!h.condition_exceeded_duration(true, 100, 90));
    // the condition drops out just before the window closes
    assert!(!h.condition_exceeded_duration(false, 100, 95));
    // a new streak starts from scratch
    assert!(!h.condition_exceeded_duration(true, 100, 96));
    assert!(!h.condition_exceeded_duration(true, 100, 190));
    assert!(h.condition_exceeded_duration(true, 100, 196));
}

#[test]
fn zero_duration_trips_on_the_first_true_sample() {
    let mut h = HysteresisFault::new();
    assert!(h.condition_exceeded_duration(true, 0, 7));
    assert!(!h.condition_exceeded_duration(false, 0, 8));
}

#[test]
fn cleared_needs_a_continuous_false_window() {
    let mut h = HysteresisFault::new();
    h.condition_exceeded_duration(true, 100, 0);
    assert!(!h.condition_cleared_duration(100, 50));
    h.condition_exceeded_duration(false, 100, 60);
    assert!(!h.condition_cleared_duration(100, 60));
    assert!(!h.condition_cleared_duration(100, 159));
    assert!(h.condition_cleared_duration(100, 160));
    // a true sample resets the clear window
    h.condition_exceeded_duration(true, 100, 170);
    assert!(!h.condition_cleared_duration(100, 500));
}
