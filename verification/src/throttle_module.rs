//! The orchestrating state machine of the throttle actuator.
//!
//! The module owns one fused sensor signal, two hysteresis fault latches,
//! the current diagnostic trouble codes, the spoof output driver and the
//! commanded level of the spoof enable line, and it fills an outgoing
//! frame queue that the surrounding loop drains onto the bus. Every entry
//! point is a plain synchronous call: the surrounding loop samples the
//! clock, receives frames and performs the queued transmissions.

use vstd::prelude::*;

use crate::bounded::ANALOG_VALUE_MAX;
use crate::dac::Channel;
use crate::dac::DacLink;
use crate::dac::DacOutput;
use crate::dac::Error;
use crate::dac::Mcp4922;
use crate::dac::TransferError;
use crate::dac::encode_word;
use crate::dac::rearm_words;
use crate::dual_signal::DualChannelSignal;
use crate::hysteresis::HysteresisFault;
use crate::protocol::CanFrame;
use crate::protocol::FAULT_ORIGIN_THROTTLE;
use crate::protocol::OSCC_FAULT_REPORT_CAN_ID;
use crate::protocol::OSCC_THROTTLE_COMMAND_CAN_ID;
use crate::protocol::OSCC_THROTTLE_DISABLE_CAN_ID;
use crate::protocol::OSCC_THROTTLE_DTC_INVALID_SENSOR_VAL;
use crate::protocol::OSCC_THROTTLE_DTC_OPERATOR_OVERRIDE;
use crate::protocol::OSCC_THROTTLE_ENABLE_CAN_ID;
use crate::protocol::OSCC_THROTTLE_REPORT_CAN_ID;
use crate::protocol::OsccFaultReport;
use crate::protocol::OsccThrottleCommand;
use crate::protocol::OsccThrottleReport;
use crate::protocol::build_fault_report_frame;
use crate::protocol::build_throttle_report_frame;
use crate::protocol::command_target_of;
use crate::protocol::fault_report_data;
use crate::protocol::parse_fault_report;
use crate::protocol::parse_throttle_command;
use crate::protocol::set_dtc;
use crate::protocol::throttle_report_data;
use crate::protocol::well_formed_command_data;
use crate::protocol::well_formed_fault_data;
use crate::protocol::with_dtc;
use crate::vehicle::ACCELERATOR_OVERRIDE_THRESHOLD;
use crate::vehicle::DAC_REFERENCE_MILLIVOLTS;
use crate::vehicle::DAC_STEPS;
use crate::vehicle::FAULT_HYSTERESIS;
use crate::vehicle::GROUNDED_SIGNAL_THRESHOLD;
use crate::vehicle::MAXIMUM_THROTTLE_COMMAND;
use crate::vehicle::MINIMUM_THROTTLE_COMMAND;
use crate::vehicle::THROTTLE_SPOOF_HIGH_SIGNAL_RANGE_MAX;
use crate::vehicle::THROTTLE_SPOOF_HIGH_SIGNAL_RANGE_MIN;
use crate::vehicle::THROTTLE_SPOOF_HIGH_SIGNAL_VOLTAGE_MAX;
use crate::vehicle::THROTTLE_SPOOF_HIGH_SIGNAL_VOLTAGE_MIN;
use crate::vehicle::THROTTLE_SPOOF_LOW_SIGNAL_RANGE_MAX;
use crate::vehicle::THROTTLE_SPOOF_LOW_SIGNAL_RANGE_MIN;
use crate::vehicle::THROTTLE_SPOOF_LOW_SIGNAL_VOLTAGE_MAX;
use crate::vehicle::THROTTLE_SPOOF_LOW_SIGNAL_VOLTAGE_MIN;

verus! {

/// The control state of one actuator module.
#[derive(Clone, Copy, Debug, PartialEq, Eq, Structural)]
pub struct ThrottleControlState {
    pub enabled: bool,
    pub operator_override: bool,
    pub dtcs: u8,
}

impl ThrottleControlState {
    pub fn new() -> (r: Self)
        ensures
            r == (ThrottleControlState { enabled: false, operator_override: false, dtcs: 0u8 }),
    {
        ThrottleControlState { enabled: false, operator_override: false, dtcs: 0 }
    }
}

/// The commanded level of the spoof enable output line. The surrounding
/// loop mirrors this level onto the physical push-pull pin.
#[derive(Clone, Copy, Debug, PartialEq, Eq, Structural)]
pub struct SpoofEnableLine {
    pub high: bool,
}

impl SpoofEnableLine {
    pub fn new() -> (r: Self)
        ensures
            !r.high,
    {
        SpoofEnableLine { high: false }
    }

    pub fn set_high(&mut self)
        ensures
            final(self).high,
    {
        self.high = true;
    }

    pub fn set_low(&mut self)
        ensures
            !final(self).high,
    {
        self.high = false;
    }

    pub fn is_high(&self) -> (r: bool)
        ensures
            r == self.high,
    {
        self.high
    }
}

/// A command value forced into a closed interval.
pub open spec fn spec_clamp(x: int, lo: int, hi: int) -> int {
    if x < lo {
        lo
    } else if x > hi {
        hi
    } else {
        x
    }
}

/// The low-channel transfer function: millivolts commanded for a position
/// given in thousandths of full actuation.
pub open spec fn position_to_volts_low(pos: int) -> int {
    THROTTLE_SPOOF_LOW_SIGNAL_VOLTAGE_MIN + pos * (THROTTLE_SPOOF_LOW_SIGNAL_VOLTAGE_MAX as int
        - THROTTLE_SPOOF_LOW_SIGNAL_VOLTAGE_MIN as int) / 1000
}

/// The high-channel transfer function.
pub open spec fn position_to_volts_high(pos: int) -> int {
    THROTTLE_SPOOF_HIGH_SIGNAL_VOLTAGE_MIN + pos * (THROTTLE_SPOOF_HIGH_SIGNAL_VOLTAGE_MAX as int
        - THROTTLE_SPOOF_HIGH_SIGNAL_VOLTAGE_MIN as int) / 1000
}

/// Millivolts converted to DAC codes against the 5 V reference.
pub open spec fn volts_to_dac_steps(mv: int) -> int {
    mv * (DAC_STEPS as int) / (DAC_REFERENCE_MILLIVOLTS as int)
}

/// The low-channel DAC code a target request commands: the request is
/// clamped into the valid command range, mapped to millivolts, clamped
/// again into the channel's voltage range, and converted to steps.
pub open spec fn spoof_steps_low(target: int) -> int {
    volts_to_dac_steps(
        spec_clamp(
            position_to_volts_low(
                spec_clamp(target, MINIMUM_THROTTLE_COMMAND as int, MAXIMUM_THROTTLE_COMMAND as int),
            ),
            THROTTLE_SPOOF_LOW_SIGNAL_VOLTAGE_MIN as int,
            THROTTLE_SPOOF_LOW_SIGNAL_VOLTAGE_MAX as int,
        ),
    )
}

/// The high-channel DAC code a target request commands.
pub open spec fn spoof_steps_high(target: int) -> int {
    volts_to_dac_steps(
        spec_clamp(
            position_to_volts_high(
                spec_clamp(target, MINIMUM_THROTTLE_COMMAND as int, MAXIMUM_THROTTLE_COMMAND as int),
            ),
            THROTTLE_SPOOF_HIGH_SIGNAL_VOLTAGE_MIN as int,
            THROTTLE_SPOOF_HIGH_SIGNAL_VOLTAGE_MAX as int,
        ),
    )
}

/// The two frames one output update transfers, after the per-channel range
/// clamp: the high target on channel A, the low target on channel B.
pub open spec fn command_words(spoof_high: u16, spoof_low: u16) -> Seq<u16> {
    seq![
        encode_word(
            spec_clamp(
                spoof_high as int,
                THROTTLE_SPOOF_HIGH_SIGNAL_RANGE_MIN as int,
                THROTTLE_SPOOF_HIGH_SIGNAL_RANGE_MAX as int,
            ) as u16,
            Channel::ChannelA,
        ),
        encode_word(
            spec_clamp(
                spoof_low as int,
                THROTTLE_SPOOF_LOW_SIGNAL_RANGE_MIN as int,
                THROTTLE_SPOOF_LOW_SIGNAL_RANGE_MAX as int,
            ) as u16,
            Channel::ChannelB,
        ),
    ]
}

/// The condition fed to the operator-override latch: the accelerator
/// average at or above the override threshold.
pub open spec fn spec_override_condition(sig: DualChannelSignal) -> bool {
    sig.spec_average() >= ACCELERATOR_OVERRIDE_THRESHOLD
}

/// The condition fed to the grounded-sensor latch: both raw channels at or
/// below the grounded threshold.
pub open spec fn spec_grounded_condition(sig: DualChannelSignal) -> bool {
    sig.spec_grounded(GROUNDED_SIGNAL_THRESHOLD)
}

/// A queued fault report frame carrying this module's origin and `dtcs`.
pub open spec fn is_fault_report_frame(frame: CanFrame, dtcs: u8) -> bool {
    frame matches CanFrame::Data(f) && f.id == OSCC_FAULT_REPORT_CAN_ID && f.data@
        == fault_report_data(FAULT_ORIGIN_THROTTLE, dtcs)
}

/// A queued status report frame carrying the given snapshot.
pub open spec fn is_throttle_report_frame(
    frame: CanFrame,
    enabled: bool,
    operator_override: bool,
    dtcs: u8,
) -> bool {
    frame matches CanFrame::Data(f) && f.id == OSCC_THROTTLE_REPORT_CAN_ID && f.data@
        == throttle_report_data(enabled, operator_override, dtcs)
}

/// `post` extends `pre` by exactly one frame.
pub open spec fn queue_extended(pre: Seq<CanFrame>, post: Seq<CanFrame>) -> bool {
    post.len() == pre.len() + 1 && post.subrange(0, pre.len() as int) == pre
}

/// The throttle actuator control module.
pub struct ThrottleModule<L: DacLink> {
    /// The fused accelerator position sensor pair.
    pub accelerator_position: DualChannelSignal,
    pub throttle_control_state: ThrottleControlState,
    /// Debounces the grounded-sensor fault on its own timeline.
    pub grounded_fault_state: HysteresisFault,
    /// Debounces the operator-override fault on its own timeline.
    pub operator_override_state: HysteresisFault,
    /// The last published status snapshot.
    pub throttle_report: OsccThrottleReport,
    /// The last published fault announcement.
    pub fault_report: OsccFaultReport,
    /// The spoof output driver.
    pub dac: Mcp4922<L>,
    /// The commanded spoof enable line level.
    pub throttle_spoof_enable: SpoofEnableLine,
    /// Frames awaiting transmission by the surrounding loop.
    pub tx_queue: Vec<CanFrame>,
}

/// The parts a control transition never touches: the sensor pair, the
/// fault latches, the report snapshots and the outgoing queue.
pub open spec fn sensors_and_reports_unchanged<L: DacLink>(
    pre: ThrottleModule<L>,
    post: ThrottleModule<L>,
) -> bool {
    &&& post.accelerator_position == pre.accelerator_position
    &&& post.grounded_fault_state == pre.grounded_fault_state
    &&& post.operator_override_state == pre.operator_override_state
    &&& post.throttle_report == pre.throttle_report
    &&& post.fault_report == pre.fault_report
    &&& post.tx_queue == pre.tx_queue
}

/// What `enable_control` leaves behind. The transition is permitted only
/// from the disabled state with no operator override and no raised codes;
/// otherwise the call is a no-op, not an error. A permitted transition
/// first re-arms the DAC with the signal's current pair; if that transfer
/// fails the module stays safely disabled and the line stays low.
pub open spec fn enable_post<L: DacLink>(pre: ThrottleModule<L>, post: ThrottleModule<L>) -> bool {
    if !(!pre.throttle_control_state.enabled && !pre.throttle_control_state.operator_override
        && pre.throttle_control_state.dtcs == 0) {
        post == pre
    } else {
        &&& sensors_and_reports_unchanged(pre, post)
        &&& post.dac.rearms@ == pre.dac.rearms@ + 1
        &&& post.dac.link.failing() == pre.dac.link.failing()
        &&& !post.dac.link.selected()
        &&& !post.throttle_control_state.operator_override
        &&& post.throttle_control_state.dtcs == 0
        &&& if pre.dac.link.failing() {
            &&& post.dac.link.frames() == pre.dac.link.frames()
            &&& !post.throttle_control_state.enabled
            &&& !post.throttle_spoof_enable.high
        } else {
            &&& post.dac.link.frames() == pre.dac.link.frames() + rearm_words(
                pre.accelerator_position,
            )
            &&& post.throttle_control_state.enabled
            &&& post.throttle_spoof_enable.high
        }
    }
}

/// What `disable_control` leaves behind. Disabling is always permitted and
/// idempotent; it re-arms the DAC first, and it deasserts the enable line
/// and leaves the enabled state even when that transfer fails, because
/// failing safe to disabled must never be refused.
pub open spec fn disable_post<L: DacLink>(pre: ThrottleModule<L>, post: ThrottleModule<L>) -> bool {
    if !pre.throttle_control_state.enabled {
        post == pre
    } else {
        &&& sensors_and_reports_unchanged(pre, post)
        &&& post.dac.rearms@ == pre.dac.rearms@ + 1
        &&& post.dac.link.failing() == pre.dac.link.failing()
        &&& !post.dac.link.selected()
        &&& !post.throttle_control_state.enabled
        &&& !post.throttle_spoof_enable.high
        &&& post.throttle_control_state.operator_override
            == pre.throttle_control_state.operator_override
        &&& post.throttle_control_state.dtcs == pre.throttle_control_state.dtcs
        &&& if pre.dac.link.failing() {
            post.dac.link.frames() == pre.dac.link.frames()
        } else {
            post.dac.link.frames() == pre.dac.link.frames() + rearm_words(
                pre.accelerator_position,
            )
        }
    }
}

/// What one output update leaves behind: nothing while disabled; while
/// enabled, the two range-clamped target codes reach the link unless the
/// transfer fails, and a failure changes no state at all beyond the link.
pub open spec fn throttle_output_effect<L: DacLink>(
    pre: ThrottleModule<L>,
    post: ThrottleModule<L>,
    spoof_high: u16,
    spoof_low: u16,
) -> bool {
    if !pre.throttle_control_state.enabled {
        post == pre
    } else {
        &&& sensors_and_reports_unchanged(pre, post)
        &&& post.throttle_control_state == pre.throttle_control_state
        &&& post.throttle_spoof_enable == pre.throttle_spoof_enable
        &&& post.dac.rearms == pre.dac.rearms
        &&& post.dac.link.failing() == pre.dac.link.failing()
        &&& !post.dac.link.selected()
        &&& if pre.dac.link.failing() {
            post.dac.link.frames() == pre.dac.link.frames()
        } else {
            post.dac.link.frames() == pre.dac.link.frames() + command_words(
                spoof_high,
                spoof_low,
            )
        }
    }
}

/// What `check_for_faults` leaves behind at time `now`. Both latches are
/// always fed the conditions drawn from the current sample; a tripped
/// fault acts only while the module is enabled, and recovery clears the
/// codes and the override flag only once both conditions have been
/// continuously clear for the full hysteresis window.
pub open spec fn check_post<L: DacLink>(
    pre: ThrottleModule<L>,
    post: ThrottleModule<L>,
    now: u64,
) -> bool {
    let gc = spec_grounded_condition(pre.accelerator_position);
    let oc = spec_override_condition(pre.accelerator_position);
    let g_state = pre.grounded_fault_state.spec_step(gc, now);
    let o_state = pre.operator_override_state.spec_step(oc, now);
    let g_trip = pre.grounded_fault_state.spec_trips(gc, FAULT_HYSTERESIS, now);
    let o_trip = pre.operator_override_state.spec_trips(oc, FAULT_HYSTERESIS, now);
    &&& post.accelerator_position == pre.accelerator_position
    &&& post.grounded_fault_state == g_state
    &&& post.operator_override_state == o_state
    &&& post.throttle_report == pre.throttle_report
    &&& post.dac.link.failing() == pre.dac.link.failing()
    &&& if pre.throttle_control_state.enabled && g_trip {
        // grounded sensor pair: disable, raise the code, announce the fault
        &&& !post.throttle_control_state.enabled
        &&& !post.throttle_spoof_enable.high
        &&& post.throttle_control_state.operator_override
            == pre.throttle_control_state.operator_override
        &&& post.throttle_control_state.dtcs == with_dtc(
            pre.throttle_control_state.dtcs,
            OSCC_THROTTLE_DTC_INVALID_SENSOR_VAL,
        )
        &&& post.dac.rearms@ == pre.dac.rearms@ + 1
        &&& post.fault_report == (OsccFaultReport {
            fault_origin_id: FAULT_ORIGIN_THROTTLE,
            dtcs: post.throttle_control_state.dtcs,
        })
        &&& queue_extended(pre.tx_queue@, post.tx_queue@)
        &&& is_fault_report_frame(post.tx_queue@.last(), post.throttle_control_state.dtcs)
        &&& if pre.dac.link.failing() {
            post.dac.link.frames() == pre.dac.link.frames()
        } else {
            post.dac.link.frames() == pre.dac.link.frames() + rearm_words(
                pre.accelerator_position,
            )
        }
    } else if pre.throttle_control_state.enabled && o_trip {
        // operator override: disable, raise the code, remember the override
        &&& !post.throttle_control_state.enabled
        &&& !post.throttle_spoof_enable.high
        &&& post.throttle_control_state.operator_override
        &&& post.throttle_control_state.dtcs == with_dtc(
            pre.throttle_control_state.dtcs,
            OSCC_THROTTLE_DTC_OPERATOR_OVERRIDE,
        )
        &&& post.dac.rearms@ == pre.dac.rearms@ + 1
        &&& post.fault_report == (OsccFaultReport {
            fault_origin_id: FAULT_ORIGIN_THROTTLE,
            dtcs: post.throttle_control_state.dtcs,
        })
        &&& queue_extended(pre.tx_queue@, post.tx_queue@)
        &&& is_fault_report_frame(post.tx_queue@.last(), post.throttle_control_state.dtcs)
        &&& if pre.dac.link.failing() {
            post.dac.link.frames() == pre.dac.link.frames()
        } else {
            post.dac.link.frames() == pre.dac.link.frames() + rearm_words(
                pre.accelerator_position,
            )
        }
    } else if !g_trip && !o_trip && g_state.spec_cleared(FAULT_HYSTERESIS, now)
        && o_state.spec_cleared(FAULT_HYSTERESIS, now) {
        // auto recovery: both conditions continuously clear for the window
        &&& post.throttle_control_state == (ThrottleControlState {
            enabled: pre.throttle_control_state.enabled,
            operator_override: false,
            dtcs: 0u8,
        })
        &&& post.throttle_spoof_enable == pre.throttle_spoof_enable
        &&& post.dac == pre.dac
        &&& post.fault_report == pre.fault_report
        &&& post.tx_queue == pre.tx_queue
    } else {
        &&& post.throttle_control_state == pre.throttle_control_state
        &&& post.throttle_spoof_enable == pre.throttle_spoof_enable
        &&& post.dac == pre.dac
        &&& post.fault_report == pre.fault_report
        &&& post.tx_queue == pre.tx_queue
    }
}

/// What processing one received frame leaves behind: a dispatch on the
/// frame identifier, with malformed payloads and foreign identifiers
/// dropped silently.
pub open spec fn rx_post<L: DacLink>(
    pre: ThrottleModule<L>,
    post: ThrottleModule<L>,
    frame: CanFrame,
) -> bool {
    let id = frame.spec_id();
    if id == OSCC_THROTTLE_ENABLE_CAN_ID {
        enable_post(pre, post)
    } else if id == OSCC_THROTTLE_DISABLE_CAN_ID {
        disable_post(pre, post)
    } else if id == OSCC_THROTTLE_COMMAND_CAN_ID {
        match frame {
            CanFrame::Data(f) => if well_formed_command_data(f.data@) {
                throttle_output_effect(
                    pre,
                    post,
                    spoof_steps_high(command_target_of(f.data@)) as u16,
                    spoof_steps_low(command_target_of(f.data@)) as u16,
                )
            } else {
                post == pre
            },
            CanFrame::Remote(_) => post == pre,
        }
    } else if id == OSCC_FAULT_REPORT_CAN_ID {
        // a fault anywhere on the bus disables this module too, raises no
        // code of its own and never answers with a report of its own
        match frame {
            CanFrame::Data(f) => if well_formed_fault_data(f.data@) {
                disable_post(pre, post)
            } else {
                post == pre
            },
            CanFrame::Remote(_) => post == pre,
        }
    } else {
        post == pre
    }
}

impl<L: DacLink> ThrottleModule<L> {
    /// The module invariant: the commanded line level tracks the enabled
    /// state, and the module is enabled only with no override active and
    /// no diagnostic codes raised.
    pub open spec fn wf(&self) -> bool {
        &&& self.throttle_spoof_enable.high == self.throttle_control_state.enabled
        &&& (self.throttle_control_state.enabled ==> !self.throttle_control_state.operator_override
            && self.throttle_control_state.dtcs == 0)
    }

    /// Every timestamp held by either fault latch was observed no later
    /// than `now`; the surrounding loop's clock is monotonic.
    pub open spec fn clocks_observed_by(&self, now: u64) -> bool {
        &&& self.grounded_fault_state.observed_by(now)
        &&& self.operator_override_state.observed_by(now)
    }

    /// A fresh module: disabled, no override, no codes, a neutral sensor
    /// pair, fresh latches, an empty outgoing queue, the line low.
    pub fn new(link: L) -> (r: Self)
        ensures
            r.wf(),
            r.accelerator_position.spec_high() == 0,
            r.accelerator_position.spec_low() == 0,
            r.throttle_control_state == (ThrottleControlState {
                enabled: false,
                operator_override: false,
                dtcs: 0u8,
            }),
            r.grounded_fault_state.condition_true_since is None,
            r.grounded_fault_state.condition_false_since is None,
            r.operator_override_state.condition_true_since is None,
            r.operator_override_state.condition_false_since is None,
            r.throttle_report == (OsccThrottleReport {
                enabled: false,
                operator_override: false,
                dtcs: 0u8,
            }),
            r.fault_report == (OsccFaultReport { fault_origin_id: 0u8, dtcs: 0u8 }),
            r.dac.link.frames() == link.frames(),
            !r.dac.link.selected(),
            r.dac.link.failing() == link.failing(),
            r.dac.rearms@ == 0,
            !r.throttle_spoof_enable.high,
            r.tx_queue@ == Seq::<CanFrame>::empty(),
            forall|now: u64| r.clocks_observed_by(now),
    {
        ThrottleModule {
            accelerator_position: DualChannelSignal::new(0, 0),
            throttle_control_state: ThrottleControlState::new(),
            grounded_fault_state: HysteresisFault::new(),
            operator_override_state: HysteresisFault::new(),
            throttle_report: OsccThrottleReport::new(),
            fault_report: OsccFaultReport::new(),
            dac: Mcp4922::new(link),
            throttle_spoof_enable: SpoofEnableLine::new(),
            tx_queue: Vec::new(),
        }
    }

    /// Power-on device state: the spoof enable line low.
    pub fn init_devices(&mut self)
        requires
            old(self).wf(),
            !old(self).throttle_control_state.enabled,
        ensures
            final(self).wf(),
            *final(self) == (ThrottleModule {
                throttle_spoof_enable: SpoofEnableLine { high: false },
                ..*old(self)
            }),
    {
        self.throttle_spoof_enable.set_low();
    }

    /// Turns actuation on, if permitted: only from the disabled state,
    /// with no operator override active and no diagnostic codes raised;
    /// otherwise a no-op, not an error. The DAC is re-armed with the
    /// signal's current pair strictly before the line is asserted, and a
    /// failed re-arm leaves the module disabled.
    pub fn enable_control(&mut self)
        requires
            old(self).wf(),
        ensures
            final(self).wf(),
            enable_post(*old(self), *final(self)),
    {
        if !self.throttle_control_state.enabled && !self.throttle_control_state.operator_override
            && self.throttle_control_state.dtcs == 0 {
            let armed = self.dac.prevent_signal_discontinuity(&self.accelerator_position);
            match armed {
                Ok(()) => {
                    self.throttle_spoof_enable.set_high();
                    self.throttle_control_state.enabled = true;
                },
                Err(_) => {
                    // output not updated: stay safely disabled
                },
            }
        }
    }

    /// Turns actuation off; always permitted and idempotent. The DAC is
    /// re-armed with the signal's current pair strictly before the line is
    /// deasserted; the line is deasserted even when the re-arm transfer
    /// fails, because failing safe to disabled must never be refused.
    pub fn disable_control(&mut self)
        requires
            old(self).wf(),
        ensures
            final(self).wf(),
            disable_post(*old(self), *final(self)),
    {
        if self.throttle_control_state.enabled {
            let _armed = self.dac.prevent_signal_discontinuity(&self.accelerator_position);
            self.throttle_spoof_enable.set_low();
            self.throttle_control_state.enabled = false;
        }
    }

    /// Ingests one freshly sampled pair; normally driven by the sampling
    /// interrupt, exposed as a plain synchronous call.
    pub fn adc_input(&mut self, high: u16, low: u16)
        requires
            old(self).wf(),
        ensures
            final(self).wf(),
            final(self).accelerator_position.spec_high() == high,
            final(self).accelerator_position.spec_low() == low,
            final(self).throttle_control_state == old(self).throttle_control_state,
            final(self).grounded_fault_state == old(self).grounded_fault_state,
            final(self).operator_override_state == old(self).operator_override_state,
            final(self).throttle_report == old(self).throttle_report,
            final(self).fault_report == old(self).fault_report,
            final(self).dac == old(self).dac,
            final(self).throttle_spoof_enable == old(self).throttle_spoof_enable,
            final(self).tx_queue == old(self).tx_queue,
    {
        self.accelerator_position.update(high, low);
    }

    /// Forwards the two spoof target codes to the DAC while enabled, each
    /// clamped into its channel's valid range first; a transfer failure is
    /// surfaced and leaves the actuation state unchanged, to be retried on
    /// the next cycle with a fresh sample.
    pub fn update_throttle(&mut self, spoof_command_high: u16, spoof_command_low: u16) -> (r:
        Result<(), Error>)
        requires
            old(self).wf(),
        ensures
            final(self).wf(),
            throttle_output_effect(*old(self), *final(self), spoof_command_high, spoof_command_low),
            r == if old(self).throttle_control_state.enabled && old(self).dac.link.failing() {
                Err::<(), Error>(Error::Spi(TransferError))
            } else {
                Ok::<(), Error>(())
            },
    {
        if self.throttle_control_state.enabled {
            let spoof_high: u16 = clamp_u16(
                spoof_command_high,
                THROTTLE_SPOOF_HIGH_SIGNAL_RANGE_MIN,
                THROTTLE_SPOOF_HIGH_SIGNAL_RANGE_MAX,
            );
            let spoof_low: u16 = clamp_u16(
                spoof_command_low,
                THROTTLE_SPOOF_LOW_SIGNAL_RANGE_MIN,
                THROTTLE_SPOOF_LOW_SIGNAL_RANGE_MAX,
            );
            let high = match DacOutput::new(spoof_high) {
                Ok(v) => v,
                Err(_) => {
                    proof {
                        assert(false);
                    }
                    return Err(Error::Spi(TransferError));
                },
            };
            let low = match DacOutput::new(spoof_low) {
                Ok(v) => v,
                Err(_) => {
                    proof {
                        assert(false);
                    }
                    return Err(Error::Spi(TransferError));
                },
            };
            let ghost pre_frames = self.dac.link.frames();
            let ghost pre_failing = self.dac.link.failing();
            let result = self.dac.set_outputs(high, low);
            proof {
                if !pre_failing {
                    assert(self.dac.link.frames() =~= pre_frames + command_words(
                        spoof_command_high,
                        spoof_command_low,
                    ));
                }
            }
            result
        } else {
            Ok(())
        }
    }

    /// Evaluates both fault conditions against the current sample at time
    /// `now`, feeding each latch on its own timeline. A tripped fault
    /// disables control, raises its code and queues a fault report; once
    /// both conditions have stayed clear for the full window the codes and
    /// the override flag are cleared again (control stays off until a
    /// fresh enable arrives).
    pub fn check_for_faults(&mut self, now: u64)
        requires
            old(self).wf(),
            old(self).clocks_observed_by(now),
        ensures
            final(self).wf(),
            final(self).clocks_observed_by(now),
            check_post(*old(self), *final(self), now),
    {
        let average: u16 = self.accelerator_position.average();
        let operator_overridden: bool = self.operator_override_state.condition_exceeded_duration(
            average >= ACCELERATOR_OVERRIDE_THRESHOLD,
            FAULT_HYSTERESIS,
            now,
        );
        let grounded_now: bool = self.accelerator_position.is_grounded(GROUNDED_SIGNAL_THRESHOLD);
        let inputs_grounded: bool = self.grounded_fault_state.condition_exceeded_duration(
            grounded_now,
            FAULT_HYSTERESIS,
            now,
        );
        // sensor pins tied to ground - a value of zero indicates disconnection
        if self.throttle_control_state.enabled && inputs_grounded {
            self.disable_control();
            self.throttle_control_state.dtcs = set_dtc(
                self.throttle_control_state.dtcs,
                OSCC_THROTTLE_DTC_INVALID_SENSOR_VAL,
            );
            self.publish_fault_report();
        } else if self.throttle_control_state.enabled && operator_overridden {
            self.disable_control();
            self.throttle_control_state.dtcs = set_dtc(
                self.throttle_control_state.dtcs,
                OSCC_THROTTLE_DTC_OPERATOR_OVERRIDE,
            );
            self.throttle_control_state.operator_override = true;
            self.publish_fault_report();
        } else {
            let grounded_clear: bool = self.grounded_fault_state.condition_cleared_duration(
                FAULT_HYSTERESIS,
                now,
            );
            let override_clear: bool = self.operator_override_state.condition_cleared_duration(
                FAULT_HYSTERESIS,
                now,
            );
            if !inputs_grounded && !operator_overridden && grounded_clear && override_clear {
                self.throttle_control_state.dtcs = 0;
                if self.throttle_control_state.operator_override {
                    self.throttle_control_state.operator_override = false;
                }
            }
        }
    }

    /// Snapshots the control state into the periodic status report and
    /// queues it for transmission.
    pub fn publish_throttle_report(&mut self)
        requires
            old(self).wf(),
        ensures
            final(self).wf(),
            final(self).throttle_report == (OsccThrottleReport {
                enabled: old(self).throttle_control_state.enabled,
                operator_override: old(self).throttle_control_state.operator_override,
                dtcs: old(self).throttle_control_state.dtcs,
            }),
            queue_extended(old(self).tx_queue@, final(self).tx_queue@),
            is_throttle_report_frame(
                final(self).tx_queue@.last(),
                old(self).throttle_control_state.enabled,
                old(self).throttle_control_state.operator_override,
                old(self).throttle_control_state.dtcs,
            ),
            final(self).accelerator_position == old(self).accelerator_position,
            final(self).throttle_control_state == old(self).throttle_control_state,
            final(self).grounded_fault_state == old(self).grounded_fault_state,
            final(self).operator_override_state == old(self).operator_override_state,
            final(self).fault_report == old(self).fault_report,
            final(self).dac == old(self).dac,
            final(self).throttle_spoof_enable == old(self).throttle_spoof_enable,
    {
        self.throttle_report = OsccThrottleReport {
            enabled: self.throttle_control_state.enabled,
            operator_override: self.throttle_control_state.operator_override,
            dtcs: self.throttle_control_state.dtcs,
        };
        let frame = build_throttle_report_frame(
            self.throttle_report.enabled,
            self.throttle_report.operator_override,
            self.throttle_report.dtcs,
        );
        let ghost pre_queue = self.tx_queue@;
        self.tx_queue.push(frame);
        proof {
            assert(self.tx_queue@.subrange(0, pre_queue.len() as int) =~= pre_queue);
        }
    }

    /// Snapshots this module's origin and current codes into the fault
    /// report and queues it for transmission.
    pub fn publish_fault_report(&mut self)
        requires
            old(self).wf(),
        ensures
            final(self).wf(),
            final(self).fault_report == (OsccFaultReport {
                fault_origin_id: FAULT_ORIGIN_THROTTLE,
                dtcs: old(self).throttle_control_state.dtcs,
            }),
            queue_extended(old(self).tx_queue@, final(self).tx_queue@),
            is_fault_report_frame(
                final(self).tx_queue@.last(),
                old(self).throttle_control_state.dtcs,
            ),
            final(self).accelerator_position == old(self).accelerator_position,
            final(self).throttle_control_state == old(self).throttle_control_state,
            final(self).grounded_fault_state == old(self).grounded_fault_state,
            final(self).operator_override_state == old(self).operator_override_state,
            final(self).throttle_report == old(self).throttle_report,
            final(self).dac == old(self).dac,
            final(self).throttle_spoof_enable == old(self).throttle_spoof_enable,
    {
        self.fault_report = OsccFaultReport {
            fault_origin_id: FAULT_ORIGIN_THROTTLE,
            dtcs: self.throttle_control_state.dtcs,
        };
        let frame = build_fault_report_frame(
            self.fault_report.fault_origin_id,
            self.fault_report.dtcs,
        );
        let ghost pre_queue = self.tx_queue@;
        self.tx_queue.push(frame);
        proof {
            assert(self.tx_queue@.subrange(0, pre_queue.len() as int) =~= pre_queue);
        }
    }

    /// Hands a frame received by the surrounding loop to the dispatcher,
    /// if one arrived this cycle.
    pub fn check_for_incoming_message(&mut self, rx_frame: Option<CanFrame>)
        requires
            old(self).wf(),
        ensures
            final(self).wf(),
            match rx_frame {
                Some(frame) => rx_post(*old(self), *final(self), frame),
                None => *final(self) == *old(self),
            },
    {
        match rx_frame {
            Some(frame) => self.process_rx_frame(&frame),
            None => (),
        }
    }

    /// Dispatches one received frame on its bus identifier: enable,
    /// disable, command, or a peer's fault report. Foreign identifiers,
    /// remote frames and malformed payloads are dropped silently.
    pub fn process_rx_frame(&mut self, frame: &CanFrame)
        requires
            old(self).wf(),
        ensures
            final(self).wf(),
            rx_post(*old(self), *final(self), *frame),
    {
        let id: u32 = frame.id();
        if id == OSCC_THROTTLE_ENABLE_CAN_ID {
            self.enable_control();
        } else if id == OSCC_THROTTLE_DISABLE_CAN_ID {
            self.disable_control();
        } else if id == OSCC_THROTTLE_COMMAND_CAN_ID {
            match frame {
                CanFrame::Data(f) => {
                    match parse_throttle_command(f) {
                        Some(command) => {
                            let _ = self.process_throttle_command(&command);
                        },
                        None => (),
                    }
                },
                CanFrame::Remote(_) => (),
            }
        } else if id == OSCC_FAULT_REPORT_CAN_ID {
            match frame {
                CanFrame::Data(f) => {
                    match parse_fault_report(f) {
                        Some(report) => self.process_fault_report(&report),
                        None => (),
                    }
                },
                CanFrame::Remote(_) => (),
            }
        }
    }

    /// A fault reported by any actuator module disables this one too; no
    /// new code is raised here and no report is sent in response, so fault
    /// reports never echo across the bus. The surrounding loop logs the
    /// remote origin and codes.
    pub fn process_fault_report(&mut self, _fault_report: &OsccFaultReport)
        requires
            old(self).wf(),
        ensures
            final(self).wf(),
            disable_post(*old(self), *final(self)),
    {
        self.disable_control();
    }

    /// Clamps the requested target into the valid command range, maps it
    /// through the two per-channel transfer functions into voltages,
    /// clamps each voltage into its channel's range, converts to DAC codes
    /// and forwards them to the output stage.
    pub fn process_throttle_command(&mut self, command: &OsccThrottleCommand) -> (r: Result<
        (),
        Error,
    >)
        requires
            old(self).wf(),
        ensures
            final(self).wf(),
            throttle_output_effect(
                *old(self),
                *final(self),
                spoof_steps_high(command.target_request as int) as u16,
                spoof_steps_low(command.target_request as int) as u16,
            ),
            r == if old(self).throttle_control_state.enabled && old(self).dac.link.failing() {
                Err::<(), Error>(Error::Spi(TransferError))
            } else {
                Ok::<(), Error>(())
            },
    {
        let clamped_position: i32 = clamp_i32(
            command.target_request,
            MINIMUM_THROTTLE_COMMAND,
            MAXIMUM_THROTTLE_COMMAND,
        );
        let position: u32 = clamped_position as u32;
        let spoof_voltage_low: u32 = clamp_u32(
            self.throttle_position_to_volts_low(position),
            THROTTLE_SPOOF_LOW_SIGNAL_VOLTAGE_MIN,
            THROTTLE_SPOOF_LOW_SIGNAL_VOLTAGE_MAX,
        );
        let spoof_voltage_high: u32 = clamp_u32(
            self.throttle_position_to_volts_high(position),
            THROTTLE_SPOOF_HIGH_SIGNAL_VOLTAGE_MIN,
            THROTTLE_SPOOF_HIGH_SIGNAL_VOLTAGE_MAX,
        );
        let spoof_value_low: u16 = millivolts_to_dac_steps(spoof_voltage_low);
        let spoof_value_high: u16 = millivolts_to_dac_steps(spoof_voltage_high);
        self.update_throttle(spoof_value_high, spoof_value_low)
    }

    /// The low-channel transfer function in exact millivolts.
    pub fn throttle_position_to_volts_low(&self, pos: u32) -> (r: u32)
        requires
            pos <= MAXIMUM_THROTTLE_COMMAND as u32,
        ensures
            r == position_to_volts_low(pos as int),
    {
        let delta: u32 = THROTTLE_SPOOF_LOW_SIGNAL_VOLTAGE_MAX
            - THROTTLE_SPOOF_LOW_SIGNAL_VOLTAGE_MIN;
        proof {
            assert(pos * delta <= 1000 * 1280) by (nonlinear_arith)
                requires
                    pos <= 1000,
                    delta == 1280,
            ;
        }
        let scaled: u32 = pos * delta;
        THROTTLE_SPOOF_LOW_SIGNAL_VOLTAGE_MIN + scaled / 1000
    }

    /// The high-channel transfer function in exact millivolts.
    pub fn throttle_position_to_volts_high(&self, pos: u32) -> (r: u32)
        requires
            pos <= MAXIMUM_THROTTLE_COMMAND as u32,
        ensures
            r == position_to_volts_high(pos as int),
    {
        let delta: u32 = THROTTLE_SPOOF_HIGH_SIGNAL_VOLTAGE_MAX
            - THROTTLE_SPOOF_HIGH_SIGNAL_VOLTAGE_MIN;
        proof {
            assert(pos * delta <= 1000 * 2560) by (nonlinear_arith)
                requires
                    pos <= 1000,
                    delta == 2560,
            ;
        }
        let scaled: u32 = pos * delta;
        THROTTLE_SPOOF_HIGH_SIGNAL_VOLTAGE_MIN + scaled / 1000
    }
}

/// A value forced into a closed `u16` interval.
pub fn clamp_u16(x: u16, lo: u16, hi: u16) -> (r: u16)
    requires
        lo <= hi,
    ensures
        r == spec_clamp(x as int, lo as int, hi as int),
{
    if x < lo {
        lo
    } else if x > hi {
        hi
    } else {
        x
    }
}

/// A value forced into a closed `u32` interval.
pub fn clamp_u32(x: u32, lo: u32, hi: u32) -> (r: u32)
    requires
        lo <= hi,
    ensures
        r == spec_clamp(x as int, lo as int, hi as int),
{
    if x < lo {
        lo
    } else if x > hi {
        hi
    } else {
        x
    }
}

/// A value forced into a closed `i32` interval.
pub fn clamp_i32(x: i32, lo: i32, hi: i32) -> (r: i32)
    requires
        lo <= hi,
    ensures
        r == spec_clamp(x as int, lo as int, hi as int),
{
    if x < lo {
        lo
    } else if x > hi {
        hi
    } else {
        x
    }
}

/// Millivolts converted to DAC codes against the 5 V reference; the
/// result always fits the 12-bit range.
pub fn millivolts_to_dac_steps(mv: u32) -> (r: u16)
    requires
        mv < DAC_REFERENCE_MILLIVOLTS,
    ensures
        r == volts_to_dac_steps(mv as int),
        r <= ANALOG_VALUE_MAX,
{
    let scaled: u32 = mv * DAC_STEPS;
    let steps: u32 = scaled / DAC_REFERENCE_MILLIVOLTS;
    proof {
        assert(steps <= 4095) by (nonlinear_arith)
            requires
                steps == mv * 4096 / 5000,
                mv < 5000,
        ;
    }
    steps as u16
}

/// Turning actuation on and then immediately off re-arms the DAC exactly
/// twice — once strictly before the line is asserted and once strictly
/// before it is deasserted — and leaves the enable line low.
pub proof fn lemma_enable_then_disable<L: DacLink>(
    m0: ThrottleModule<L>,
    m1: ThrottleModule<L>,
    m2: ThrottleModule<L>,
)
    requires
        m0.wf(),
        !m0.throttle_control_state.enabled,
        !m0.throttle_control_state.operator_override,
        m0.throttle_control_state.dtcs == 0,
        !m0.dac.link.failing(),
        enable_post(m0, m1),
        disable_post(m1, m2),
    ensures
        m2.dac.rearms@ == m0.dac.rearms@ + 2,
        !m2.throttle_spoof_enable.high,
        !m2.throttle_control_state.enabled,
{
}

/// Turning actuation on twice in a row produces exactly one ramp and one
/// enable-line transition: the second call changes nothing at all.
pub proof fn lemma_enable_idempotent<L: DacLink>(
    m0: ThrottleModule<L>,
    m1: ThrottleModule<L>,
    m2: ThrottleModule<L>,
)
    requires
        m0.wf(),
        !m0.throttle_control_state.enabled,
        !m0.throttle_control_state.operator_override,
        m0.throttle_control_state.dtcs == 0,
        !m0.dac.link.failing(),
        enable_post(m0, m1),
        enable_post(m1, m2),
    ensures
        m2 == m1,
        m1.dac.rearms@ == m0.dac.rearms@ + 1,
        m1.throttle_control_state.enabled,
        m1.throttle_spoof_enable.high,
{
}

/// While the operator override flag is set, enabling control is a no-op:
/// the module state, the line and the DAC are left exactly as they were.
pub proof fn lemma_enable_noop_under_override<L: DacLink>(
    m0: ThrottleModule<L>,
    m1: ThrottleModule<L>,
)
    requires
        m0.throttle_control_state.operator_override,
        enable_post(m0, m1),
    ensures
        m1 == m0,
{
}

/// A command outside the valid clamp range produces exactly the output of
/// the nearest in-range boundary value: out-of-range requests clamp, they
/// never error and never wrap.
pub proof fn lemma_command_clamps_to_boundary(target: int)
    ensures
        target > MAXIMUM_THROTTLE_COMMAND as int ==> spoof_steps_high(target) == spoof_steps_high(
            MAXIMUM_THROTTLE_COMMAND as int,
        ) && spoof_steps_low(target) == spoof_steps_low(MAXIMUM_THROTTLE_COMMAND as int),
        target < MINIMUM_THROTTLE_COMMAND as int ==> spoof_steps_high(target) == spoof_steps_high(
            MINIMUM_THROTTLE_COMMAND as int,
        ) && spoof_steps_low(target) == spoof_steps_low(MINIMUM_THROTTLE_COMMAND as int),
{
}

} // verus!
