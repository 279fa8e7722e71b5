//! Calibration constants for the vehicle's throttle domain.
//!
//! Commands arrive as thousandths of full actuation and map through two
//! independent linear transfer functions, one per redundant spoof channel,
//! into millivolt targets; millivolts convert to 12-bit DAC codes against a
//! 5 V reference. Every constant is integer so the whole command path
//! stays in exact fixed-point arithmetic.

use vstd::prelude::*;

verus! {

/// Smallest accepted command, in thousandths of full actuation.
pub const MINIMUM_THROTTLE_COMMAND: i32 = 0;

/// Largest accepted command, in thousandths of full actuation.
pub const MAXIMUM_THROTTLE_COMMAND: i32 = 1000;

/// Low spoof channel transfer function range, millivolts.
pub const THROTTLE_SPOOF_LOW_SIGNAL_VOLTAGE_MIN: u32 = 380;

pub const THROTTLE_SPOOF_LOW_SIGNAL_VOLTAGE_MAX: u32 = 1660;

/// High spoof channel transfer function range, millivolts.
pub const THROTTLE_SPOOF_HIGH_SIGNAL_VOLTAGE_MIN: u32 = 760;

pub const THROTTLE_SPOOF_HIGH_SIGNAL_VOLTAGE_MAX: u32 = 3320;

/// The DAC has 4096 steps over a 5000 mV reference.
pub const DAC_STEPS: u32 = 4096;

pub const DAC_REFERENCE_MILLIVOLTS: u32 = 5000;

/// Low spoof channel range in DAC steps: the voltage bounds above times
/// `DAC_STEPS / DAC_REFERENCE_MILLIVOLTS`, rounded down.
pub const THROTTLE_SPOOF_LOW_SIGNAL_RANGE_MIN: u16 = 311;

pub const THROTTLE_SPOOF_LOW_SIGNAL_RANGE_MAX: u16 = 1359;

/// High spoof channel range in DAC steps, derived the same way.
pub const THROTTLE_SPOOF_HIGH_SIGNAL_RANGE_MIN: u16 = 622;

pub const THROTTLE_SPOOF_HIGH_SIGNAL_RANGE_MAX: u16 = 2719;

/// Accelerator average at or above which the operator is taken to be
/// retaking manual control, in raw 12-bit sample counts.
pub const ACCELERATOR_OVERRIDE_THRESHOLD: u16 = 185;

/// Raw sample at or below which a channel counts as grounded.
pub const GROUNDED_SIGNAL_THRESHOLD: u16 = 0;

/// How long a fault condition must hold continuously before it trips, and
/// how long it must stay clear before it recovers, in milliseconds.
pub const FAULT_HYSTERESIS: u64 = 100;

} // verus!
