use throttle_control::dac::decode_frame_channel;
use throttle_control::dac::decode_frame_magnitude;
use throttle_control::dac::Channel;
use throttle_control::dac::Error;
use throttle_control::dac::LoopbackDacLink;
use throttle_control::dac::TransferError;
use throttle_control::protocol::CanDataFrame;
use throttle_control::protocol::CanFrame;
use throttle_control::protocol::CanRemoteFrame;
use throttle_control::protocol::FAULT_ORIGIN_BRAKE;
use throttle_control::protocol::FAULT_ORIGIN_THROTTLE;
use throttle_control::protocol::OSCC_FAULT_REPORT_CAN_ID;
use throttle_control::protocol::OSCC_THROTTLE_COMMAND_CAN_ID;
use throttle_control::protocol::OSCC_THROTTLE_DISABLE_CAN_ID;
use throttle_control::protocol::OSCC_THROTTLE_ENABLE_CAN_ID;
use throttle_control::protocol::OSCC_THROTTLE_REPORT_CAN_ID;
use throttle_control::throttle_module::ThrottleModule;

fn fresh_module() -> ThrottleModule<LoopbackDacLink> {
    ThrottleModule::new(LoopbackDacLink::new())
}

fn enable_frame() -> CanFrame {
    CanFrame::Data(CanDataFrame {
        id: OSCC_THROTTLE_ENABLE_CAN_ID,
        data: vec![0x05, 0xCC, 0, 0, 0, 0, 0, 0],
    })
}

fn disable_frame() -> CanFrame {
    CanFrame::Data(CanDataFrame {
        id: OSCC_THROTTLE_DISABLE_CAN_ID,
        data: vec![0x05, 0xCC, 0, 0, 0, 0, 0, 0],
    })
}

fn command_frame(target: i16) -> CanFrame {
    let raw: u16 = target as u16;
    CanFrame::Data(CanDataFrame {
        id: OSCC_THROTTLE_COMMAND_CAN_ID,
        data: vec![0x05, 0xCC, (raw & 0xFF) as u8, (raw >> 8) as u8, 0, 0, 0, 0],
    })
}

fn fault_frame(origin: u8, dtcs: u8) -> CanFrame {
    CanFrame::Data(CanDataFrame {
        id: OSCC_FAULT_REPORT_CAN_ID,
        data: vec![0x05, 0xCC, origin, dtcs, 0, 0, 0, 0],
    })
}

#[test]
fn enable_then_disable_rearms_twice_and_ends_low() {
    let mut m = fresh_module();
    m.enable_control();
    assert!(m.throttle_control_state.enabled);
    assert!(m.throttle_spoof_enable.high);
    // one re-arm: the neutral pair on both channels
    assert_eq!(m.dac.link.words, vec![0x1000, 0x5000]);
    m.disable_control();
    assert!(!m.throttle_control_state.enabled);
    assert!(!m.throttle_spoof_enable.high);
    // a second re-arm, and nothing else, reached the link
    assert_eq!(m.dac.link.words, vec![0x1000, 0x5000, 0x1000, 0x5000]);
}

#[test]
fn enable_twice_transitions_once() {
    let mut m = fresh_module();
    m.enable_control();
    m.enable_control();
    assert!(m.throttle_control_state.enabled);
    // exactly one re-arm: the second call was a no-op
    assert_eq!(m.dac.link.words.len(), 2);
}

#[test]
fn disable_is_idempotent() {
    let mut m = fresh_module();
    m.disable_control();
    assert!(!m.throttle_control_state.enabled);
    assert_eq!(m.dac.link.words.len(), 0);
    m.enable_control();
    m.disable_control();
    m.disable_control();
    assert_eq!(m.dac.link.words.len(), 4);
}

#[test]
fn enable_is_refused_while_operator_override() {
    let mut m = fresh_module();
    m.throttle_control_state.operator_override = true;
    m.enable_control();
    assert!(!m.throttle_control_state.enabled);
    assert!(!m.throttle_spoof_enable.high);
    assert!(m.dac.link.words.is_empty());
}

#[test]
fn enable_aborts_when_the_rearm_transfer_fails() {
    let mut m = fresh_module();
    m.dac.link.fail_transfers = true;
    m.enable_control();
    assert!(!m.throttle_control_state.enabled);
    assert!(!m.throttle_spoof_enable.high);
    assert!(m.dac.link.words.is_empty());
}

#[test]
fn grounded_sensor_trips_after_the_window_and_queues_a_fault_report() {
    let mut m = fresh_module();
    m.process_rx_frame(&enable_frame());
    assert!(m.throttle_control_state.enabled);
    assert_eq!(m.throttle_control_state.dtcs, 0);
    m.adc_input(0, 0);
    m.check_for_faults(0);
    // the window has not elapsed yet
    assert!(m.throttle_control_state.enabled);
    assert!(m.tx_queue.is_empty());
    m.check_for_faults(100);
    assert!(!m.throttle_control_state.enabled);
    assert!(!m.throttle_spoof_enable.high);
    assert_eq!(m.throttle_control_state.dtcs, 1 << 0);
    assert_eq!(m.tx_queue.len(), 1);
    match &m.tx_queue[0] {
        CanFrame::Data(f) => {
            assert_eq!(f.id, OSCC_FAULT_REPORT_CAN_ID);
            assert_eq!(f.data, vec![0x05, 0xCC, FAULT_ORIGIN_THROTTLE, 1 << 0, 0, 0, 0, 0]);
        }
        CanFrame::Remote(_) => panic!("fault report must be a data frame"),
    }
}

#[test]
fn operator_override_trips_then_recovers_after_a_clear_window() {
    let mut m = fresh_module();
    m.enable_control();
    m.adc_input(200, 200);
    m.check_for_faults(0);
    assert!(m.throttle_control_state.enabled);
    m.check_for_faults(100);
    assert!(!m.throttle_control_state.enabled);
    assert!(m.throttle_control_state.operator_override);
    assert_eq!(m.throttle_control_state.dtcs, 1 << 1);
    assert_eq!(m.tx_queue.len(), 1);
    // enabling is a no-op while the override flag is set
    m.process_rx_frame(&enable_frame());
    assert!(!m.throttle_control_state.enabled);
    // back below the threshold, but the clear window has not elapsed
    m.adc_input(100, 100);
    m.check_for_faults(200);
    assert_eq!(m.throttle_control_state.dtcs, 1 << 1);
    assert!(m.throttle_control_state.operator_override);
    // both conditions continuously clear for the full window
    m.check_for_faults(300);
    assert_eq!(m.throttle_control_state.dtcs, 0);
    assert!(!m.throttle_control_state.operator_override);
    // control stays off until a fresh enable arrives
    assert!(!m.throttle_control_state.enabled);
    m.process_rx_frame(&enable_frame());
    assert!(m.throttle_control_state.enabled);
}

#[test]
fn no_new_fault_is_raised_while_disabled() {
    let mut m = fresh_module();
    m.adc_input(0, 0);
    m.check_for_faults(0);
    m.check_for_faults(100);
    assert_eq!(m.throttle_control_state.dtcs, 0);
    assert!(m.tx_queue.is_empty());
}

#[test]
fn peer_fault_report_disables_without_new_dtc_or_echo() {
    let mut m = fresh_module();
    m.enable_control();
    m.process_rx_frame(&fault_frame(FAULT_ORIGIN_BRAKE, 0x01));
    assert!(!m.throttle_control_state.enabled);
    assert!(!m.throttle_spoof_enable.high);
    assert_eq!(m.throttle_control_state.dtcs, 0);
    assert!(m.tx_queue.is_empty());
}

#[test]
fn disable_frame_disables() {
    let mut m = fresh_module();
    m.enable_control();
    m.process_rx_frame(&disable_frame());
    assert!(!m.throttle_control_state.enabled);
}

#[test]
fn command_maps_through_both_transfer_functions() {
    let mut m = fresh_module();
    m.enable_control();
    m.process_rx_frame(&command_frame(500));
    assert_eq!(m.dac.link.words.len(), 4);
    // 500/1000 of full actuation: 2040 mV on the high channel, 1020 mV on
    // the low channel, converted against the 5 V, 4096-step reference
    assert_eq!(decode_frame_magnitude(m.dac.link.words[2]), 1671);
    assert_eq!(decode_frame_channel(m.dac.link.words[2]), Channel::ChannelA);
    assert_eq!(decode_frame_magnitude(m.dac.link.words[3]), 835);
    assert_eq!(decode_frame_channel(m.dac.link.words[3]), Channel::ChannelB);
}

#[test]
fn out_of_range_command_clamps_to_the_nearest_boundary() {
    let mut over = fresh_module();
    over.enable_control();
    over.process_rx_frame(&command_frame(2000));
    let mut at_max = fresh_module();
    at_max.enable_control();
    at_max.process_rx_frame(&command_frame(1000));
    assert_eq!(over.dac.link.words, at_max.dac.link.words);
    assert_eq!(decode_frame_magnitude(at_max.dac.link.words[2]), 2719);
    assert_eq!(decode_frame_magnitude(at_max.dac.link.words[3]), 1359);

    let mut under = fresh_module();
    under.enable_control();
    under.process_rx_frame(&command_frame(-5));
    let mut at_min = fresh_module();
    at_min.enable_control();
    at_min.process_rx_frame(&command_frame(0));
    assert_eq!(under.dac.link.words, at_min.dac.link.words);
    assert_eq!(decode_frame_magnitude(at_min.dac.link.words[2]), 622);
    assert_eq!(decode_frame_magnitude(at_min.dac.link.words[3]), 311);
}

#[test]
fn command_is_ignored_while_disabled() {
    let mut m = fresh_module();
    m.process_rx_frame(&command_frame(500));
    assert!(m.dac.link.words.is_empty());
}

#[test]
fn malformed_and_foreign_frames_are_dropped_silently() {
    let mut m = fresh_module();
    m.enable_control();
    let bad_magic = CanFrame::Data(CanDataFrame {
        id: OSCC_THROTTLE_COMMAND_CAN_ID,
        data: vec![0x00, 0x00, 10, 0, 0, 0, 0, 0],
    });
    m.process_rx_frame(&bad_magic);
    let short = CanFrame::Data(CanDataFrame {
        id: OSCC_THROTTLE_COMMAND_CAN_ID,
        data: vec![0x05, 0xCC],
    });
    m.process_rx_frame(&short);
    let remote = CanFrame::Remote(CanRemoteFrame { id: OSCC_THROTTLE_COMMAND_CAN_ID });
    m.process_rx_frame(&remote);
    let foreign = CanFrame::Data(CanDataFrame {
        id: 0x42,
        data: vec![0x05, 0xCC, 0, 0, 0, 0, 0, 0],
    });
    m.process_rx_frame(&foreign);
    // only the enable re-arm reached the link; state is untouched
    assert_eq!(m.dac.link.words.len(), 2);
    assert!(m.throttle_control_state.enabled);
    assert!(m.tx_queue.is_empty());
}

#[test]
fn update_throttle_clamps_each_channel_into_its_range() {
    let mut m = fresh_module();
    m.enable_control();
    m.update_throttle(5000, 5000).unwrap();
    assert_eq!(decode_frame_magnitude(m.dac.link.words[2]), 2719);
    assert_eq!(decode_frame_magnitude(m.dac.link.words[3]), 1359);
    m.update_throttle(0, 0).unwrap();
    assert_eq!(decode_frame_magnitude(m.dac.link.words[4]), 622);
    assert_eq!(decode_frame_magnitude(m.dac.link.words[5]), 311);
}

#[test]
fn update_throttle_does_nothing_while_disabled() {
    let mut m = fresh_module();
    assert_eq!(m.update_throttle(1000, 1000), Ok(()));
    assert!(m.dac.link.words.is_empty());
}

#[test]
fn failed_output_transfer_leaves_actuation_state_unchanged() {
    let mut m = fresh_module();
    m.enable_control();
    m.dac.link.fail_transfers = true;
    let result = m.update_throttle(1000, 1000);
    assert_eq!(result, Err(Error::Spi(TransferError)));
    assert!(m.throttle_control_state.enabled);
    assert!(m.throttle_spoof_enable.high);
    assert_eq!(m.dac.link.words.len(), 2);
}

#[test]
fn throttle_report_snapshots_the_control_state() {
    let mut m = fresh_module();
    m.enable_control();
    m.publish_throttle_report();
    assert_eq!(m.tx_queue.len(), 1);
    match &m.tx_queue[0] {
        CanFrame::Data(f) => {
            assert_eq!(f.id, OSCC_THROTTLE_REPORT_CAN_ID);
            assert_eq!(f.data, vec![0x05, 0xCC, 1, 0, 0, 0, 0, 0]);
        }
        CanFrame::Remote(_) => panic!("report must be a data frame"),
    }
    assert!(m.throttle_report.enabled);
    assert!(!m.throttle_report.operator_override);
    assert_eq!(m.throttle_report.dtcs, 0);
}

#[test]
fn incoming_message_dispatch_handles_the_empty_cycle() {
    let mut m = fresh_module();
    m.check_for_incoming_message(None);
    assert!(!m.throttle_control_state.enabled);
    m.check_for_incoming_message(Some(enable_frame()));
    assert!(m.throttle_control_state.enabled);
}
