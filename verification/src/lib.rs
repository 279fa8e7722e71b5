//! Actuator-control core for a drive-by-wire retrofit.
//!
//! The library fuses a redundant pair of analog sensor channels, debounces
//! fault conditions with time-based hysteresis, arbitrates between operator
//! input and bus commands, and drives a bounded 12-bit DAC output through a
//! chip-select-gated serial link. Peripheral bring-up, the physical bus
//! transceiver and the logging sink stay outside the library; the core takes
//! plain values (samples, frames, timestamps) and narrow capability
//! interfaces instead.

pub mod bounded;
pub mod dac;
pub mod dual_signal;
pub mod hysteresis;
pub mod protocol;
pub mod throttle_module;
pub mod vehicle;
