use throttle_control::bounded::BoundedAnalogValue;
use throttle_control::dac::decode_frame_channel;
use throttle_control::dac::decode_frame_magnitude;
use throttle_control::dac::Channel;
use throttle_control::dac::Error;
use throttle_control::dac::LoopbackDacLink;
use throttle_control::dac::Mcp4922;
use throttle_control::dac::TransferError;
use throttle_control::dual_signal::DualChannelSignal;

#[test]
fn set_outputs_round_trips_magnitude_and_channel() {
    let mut dac = Mcp4922::new(LoopbackDacLink::new());
    let high = BoundedAnalogValue::new(1000).unwrap();
    let low = BoundedAnalogValue::new(500).unwrap();
    dac.set_outputs(high, low).unwrap();
    assert_eq!(dac.link.words.len(), 2);
    assert_eq!(decode_frame_magnitude(dac.link.words[0]), 1000);
    assert_eq!(decode_frame_channel(dac.link.words[0]), Channel::ChannelA);
    assert_eq!(decode_frame_magnitude(dac.link.words[1]), 500);
    assert_eq!(decode_frame_channel(dac.link.words[1]), Channel::ChannelB);
}

#[test]
fn round_trip_holds_at_the_range_edges() {
    let mut dac = Mcp4922::new(LoopbackDacLink::new());
    let high = BoundedAnalogValue::new(4095).unwrap();
    let low = BoundedAnalogValue::new(0).unwrap();
    dac.output_ab(high, low).unwrap();
    assert_eq!(decode_frame_magnitude(dac.link.words[0]), 4095);
    assert_eq!(decode_frame_channel(dac.link.words[0]), Channel::ChannelA);
    assert_eq!(decode_frame_magnitude(dac.link.words[1]), 0);
    assert_eq!(decode_frame_channel(dac.link.words[1]), Channel::ChannelB);
}

#[test]
fn frames_carry_the_device_active_flag() {
    let mut dac = Mcp4922::new(LoopbackDacLink::new());
    let value = BoundedAnalogValue::new(0).unwrap();
    dac.output(value, Channel::ChannelA).unwrap();
    dac.output(value, Channel::ChannelB).unwrap();
    // bit 12 set on every frame; bit 14 selects the channel
    assert_eq!(dac.link.words[0], 0x1000);
    assert_eq!(dac.link.words[1], 0x5000);
}

#[test]
fn failed_transfer_is_surfaced_and_leaves_no_frame() {
    let mut dac = Mcp4922::new(LoopbackDacLink::new());
    dac.link.fail_transfers = true;
    let value = BoundedAnalogValue::new(123).unwrap();
    let result = dac.output(value, Channel::ChannelA);
    assert_eq!(result, Err(Error::Spi(TransferError)));
    assert!(dac.link.words.is_empty());
    // the chip-select release path ran on the error exit too
    assert!(!dac.link.cs_asserted);
}

#[test]
fn chip_select_is_released_after_a_successful_transfer() {
    let mut dac = Mcp4922::new(LoopbackDacLink::new());
    let value = BoundedAnalogValue::new(77).unwrap();
    dac.output(value, Channel::ChannelB).unwrap();
    assert!(!dac.link.cs_asserted);
}

#[test]
fn rearm_writes_the_current_sampled_pair() {
    let mut dac = Mcp4922::new(LoopbackDacLink::new());
    let mut signal = DualChannelSignal::new(0, 0);
    signal.update(300, 150);
    dac.prevent_signal_discontinuity(&signal).unwrap();
    assert_eq!(dac.link.words.len(), 2);
    assert_eq!(decode_frame_magnitude(dac.link.words[0]), 300);
    assert_eq!(decode_frame_channel(dac.link.words[0]), Channel::ChannelA);
    assert_eq!(decode_frame_magnitude(dac.link.words[1]), 150);
    assert_eq!(decode_frame_channel(dac.link.words[1]), Channel::ChannelB);
}

#[test]
fn rearm_saturates_an_overrange_sample() {
    let mut dac = Mcp4922::new(LoopbackDacLink::new());
    let mut signal = DualChannelSignal::new(0, 0);
    signal.update(60000, 100);
    dac.prevent_signal_discontinuity(&signal).unwrap();
    assert_eq!(decode_frame_magnitude(dac.link.words[0]), 4095);
    assert_eq!(decode_frame_magnitude(dac.link.words[1]), 100);
}
