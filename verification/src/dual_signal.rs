//! A redundant pair of analog readings for one logical sensor.

use vstd::prelude::*;

verus! {

/// The two most recent samples of a redundantly wired sensor.
///
/// `update` keeps only the latest pair; no history is held. The average is
/// the operator-intent signal, while the grounded check looks at the raw
/// channels, because averaging a grounded channel with a valid one could
/// mask the fault.
#[derive(Clone, Copy, Debug)]
pub struct DualChannelSignal {
    high: u16,
    low: u16,
}

impl DualChannelSignal {
    /// The latest sample on the high channel, for use in contracts.
    pub closed spec fn spec_high(&self) -> u16 {
        self.high
    }

    /// The latest sample on the low channel, for use in contracts.
    pub closed spec fn spec_low(&self) -> u16 {
        self.low
    }

    /// The arithmetic mean of the two latest samples.
    pub open spec fn spec_average(&self) -> u16 {
        (((self.spec_high() as u32) + (self.spec_low() as u32)) / 2) as u16
    }

    /// Both channels at or below `threshold`, the signature of a
    /// disconnected or shorted sensor pair.
    pub open spec fn spec_grounded(&self, threshold: u16) -> bool {
        self.spec_high() <= threshold && self.spec_low() <= threshold
    }

    pub fn new(high: u16, low: u16) -> (r: Self)
        ensures
            r.spec_high() == high,
            r.spec_low() == low,
    {
        DualChannelSignal { high, low }
    }

    /// Overwrites the pair unconditionally; validation is the fault
    /// component's job.
    pub fn update(&mut self, high: u16, low: u16)
        ensures
            final(self).spec_high() == high,
            final(self).spec_low() == low,
    {
        self.high = high;
        self.low = low;
    }

    pub fn high(&self) -> (r: u16)
        ensures
            r == self.spec_high(),
    {
        self.high
    }

    pub fn low(&self) -> (r: u16)
        ensures
            r == self.spec_low(),
    {
        self.low
    }

    /// The arithmetic mean of the latest pair.
    pub fn average(&self) -> (r: u16)
        ensures
            r == self.spec_average(),
    {
        let sum: u32 = (self.high as u32) + (self.low as u32);
        (sum / 2) as u16
    }

    /// Whatever pair the signal holds — every pair written through
    /// `update` included — its reported average is the exact arithmetic
    /// mean of the two channels: the widened sum never truncates.
    pub proof fn lemma_average_is_arithmetic_mean(&self)
        ensures
            self.spec_average() as int == (self.spec_high() + self.spec_low()) / 2,
    {
    }

    /// Whether both channels read at or below `threshold`.
    pub fn is_grounded(&self, threshold: u16) -> (r: bool)
        ensures
            r == self.spec_grounded(threshold),
    {
        self.high <= threshold && self.low <= threshold
    }
}

} // verus!
