//! A raw analog sample constrained to the 12-bit converter range.

use vstd::prelude::*;

verus! {

/// Largest value a 12-bit analog channel can carry.
pub const ANALOG_VALUE_MAX: u16 = 4095;

/// Error raised when a raw value does not fit the 12-bit range.
///
/// Construction rejects out-of-range values instead of clamping them:
/// silently clamping an actuator output would mask a sensor failure.
#[derive(Clone, Copy, Debug, PartialEq, Eq, Structural)]
pub enum BoundedValueError {
    OutOfRange,
}

/// A scalar known to lie in `[0, ANALOG_VALUE_MAX]`.
#[derive(Clone, Copy, Debug)]
pub struct BoundedAnalogValue {
    value: u16,
}

impl BoundedAnalogValue {
    /// Every constructed value stays within the 12-bit range.
    #[verifier::type_invariant]
    pub closed spec fn inv(self) -> bool {
        self.value <= ANALOG_VALUE_MAX
    }

    /// The value carried, for use in contracts.
    pub closed spec fn spec_val(&self) -> u16 {
        self.value
    }

    /// Accepts `raw` only when it fits the 12-bit range.
    pub fn new(raw: u16) -> (r: Result<Self, BoundedValueError>)
        ensures
            raw <= ANALOG_VALUE_MAX ==> (r matches Ok(v) && v.spec_val() == raw),
            raw > ANALOG_VALUE_MAX ==> r == Err::<Self, BoundedValueError>(BoundedValueError::OutOfRange),
    {
        if raw <= ANALOG_VALUE_MAX {
            Ok(BoundedAnalogValue { value: raw })
        } else {
            Err(BoundedValueError::OutOfRange)
        }
    }

    /// The carried value; always within the 12-bit range.
    pub fn val(&self) -> (r: u16)
        ensures
            r == self.spec_val(),
            r <= ANALOG_VALUE_MAX,
    {
        proof {
            use_type_invariant(self);
        }
        self.value
    }
}

} // verus!
