//! The spoof output driver: a 12-bit, dual-channel DAC reached over a
//! chip-select-gated serial link.
//!
//! Each output value travels as one fixed 16-bit frame, most significant
//! byte first: bits 0-11 carry the magnitude, bit 12 is the device-active
//! flag (always set for normal operation) and bit 14 selects the channel
//! (0 for channel A, driving the high output; 1 for channel B, driving the
//! low output). Latching, gain and reference-voltage configuration are not
//! modelled.

use vstd::prelude::*;

use crate::bounded::ANALOG_VALUE_MAX;
use crate::bounded::BoundedAnalogValue;
use crate::dual_signal::DualChannelSignal;

verus! {

/// A 12-bit DAC accepts codes bounded the same way as a 12-bit ADC sample.
pub type DacOutput = BoundedAnalogValue;

/// DAC channel selector.
#[derive(Copy, Clone, Debug, PartialEq, Eq, Structural)]
pub enum Channel {
    ChannelA,
    ChannelB,
}

/// A failed transfer on the serial link.
#[derive(Copy, Clone, Debug, PartialEq, Eq, Structural)]
pub struct TransferError;

/// DAC driver errors.
#[derive(Copy, Clone, Debug, PartialEq, Eq, Structural)]
pub enum Error {
    /// The serial transfer failed; the output was not updated.
    Spi(TransferError),
}

impl From<TransferError> for Error {
    fn from(e: TransferError) -> (r: Error) {
        Error::Spi(e)
    }
}

impl vstd::std_specs::convert::FromSpecImpl<TransferError> for Error {
    open spec fn obeys_from_spec() -> bool {
        true
    }

    open spec fn from_spec(e: TransferError) -> Error {
        Error::Spi(e)
    }
}

/// The channel-select bit of the frame: 0 for A, 1 for B.
pub open spec fn channel_select_bit(channel: Channel) -> u16 {
    match channel {
        Channel::ChannelA => 0,
        Channel::ChannelB => 1,
    }
}

/// The 16-bit frame that commands `data` on `channel`.
pub open spec fn encode_word(data: u16, channel: Channel) -> u16 {
    (data & 0x0FFF) | 0x1000 | (channel_select_bit(channel) << 14)
}

/// The 12-bit magnitude a frame carries.
pub open spec fn decode_magnitude(word: u16) -> u16 {
    word & 0x0FFF
}

/// The channel a frame selects.
pub open spec fn decode_channel(word: u16) -> Channel {
    if word & 0x4000 != 0 {
        Channel::ChannelB
    } else {
        Channel::ChannelA
    }
}

impl From<Channel> for u8 {
    fn from(c: Channel) -> (r: u8) {
        match c {
            Channel::ChannelA => 0b0,
            Channel::ChannelB => 0b1,
        }
    }
}

impl vstd::std_specs::convert::FromSpecImpl<Channel> for u8 {
    open spec fn obeys_from_spec() -> bool {
        true
    }

    open spec fn from_spec(c: Channel) -> u8 {
        channel_select_bit(c) as u8
    }
}

/// The serial link a DAC hangs on: a chip-select line and a byte-pair
/// transfer. The link records every completed 16-bit frame, so the driver
/// can promise exactly what reached the device; whether a transfer fails is
/// determined by the link's own state, never by the driver.
pub trait DacLink {
    /// Every 16-bit frame transferred so far, oldest first.
    spec fn frames(&self) -> Seq<u16>;

    /// Whether the chip-select line is asserted.
    spec fn selected(&self) -> bool;

    /// Whether the link is currently in a failing state.
    spec fn failing(&self) -> bool;

    /// Asserts the chip-select line.
    fn select(&mut self)
        ensures
            final(self).frames() == old(self).frames(),
            final(self).selected(),
            final(self).failing() == old(self).failing(),
    ;

    /// Releases the chip-select line.
    fn deselect(&mut self)
        ensures
            final(self).frames() == old(self).frames(),
            !final(self).selected(),
            final(self).failing() == old(self).failing(),
    ;

    /// Transfers one 16-bit frame, most significant byte first, while the
    /// chip-select line is asserted. On failure nothing reaches the device.
    fn transfer(&mut self, msb: u8, lsb: u8) -> (r: Result<(), TransferError>)
        requires
            old(self).selected(),
        ensures
            final(self).selected() == old(self).selected(),
            final(self).failing() == old(self).failing(),
            if old(self).failing() {
                r == Err::<(), TransferError>(TransferError)
                    && final(self).frames() == old(self).frames()
            } else {
                r == Ok::<(), TransferError>(())
                    && final(self).frames() == old(self).frames().push(
                    ((msb as u16) << 8) | (lsb as u16),
                )
            },
    ;
}

/// An in-memory link that loops every frame back: the test double for the
/// physical SPI bus, and the decode end of a loopback round trip.
pub struct LoopbackDacLink {
    /// Completed frames, oldest first.
    pub words: Vec<u16>,
    /// Chip-select line level.
    pub cs_asserted: bool,
    /// When set, every transfer fails.
    pub fail_transfers: bool,
}

impl LoopbackDacLink {
    pub fn new() -> (r: Self)
        ensures
            r.frames() == Seq::<u16>::empty(),
            !r.selected(),
            !r.failing(),
    {
        LoopbackDacLink { words: Vec::new(), cs_asserted: false, fail_transfers: false }
    }
}

impl DacLink for LoopbackDacLink {
    open spec fn frames(&self) -> Seq<u16> {
        self.words@
    }

    open spec fn selected(&self) -> bool {
        self.cs_asserted
    }

    open spec fn failing(&self) -> bool {
        self.fail_transfers
    }

    fn select(&mut self) {
        self.cs_asserted = true;
    }

    fn deselect(&mut self) {
        self.cs_asserted = false;
    }

    fn transfer(&mut self, msb: u8, lsb: u8) -> (r: Result<(), TransferError>) {
        if self.fail_transfers {
            Err(TransferError)
        } else {
            self.words.push(((msb as u16) << 8) | (lsb as u16));
            Ok(())
        }
    }
}

/// MCP4922 driver: writes bounded 12-bit codes to the two output channels
/// of the DAC over a `DacLink`.
pub struct Mcp4922<L: DacLink> {
    /// The serial link the device hangs on.
    pub link: L,
    /// How many times the driver has re-armed the device with a sampled
    /// signal value to avoid an output discontinuity.
    pub rearms: Ghost<nat>,
}

/// A raw sample forced into the 12-bit DAC range.
pub open spec fn clamp_to_dac_range(x: u16) -> u16 {
    if x > ANALOG_VALUE_MAX {
        ANALOG_VALUE_MAX
    } else {
        x
    }
}

/// The two frames a re-arm with the signal's current pair produces.
pub open spec fn rearm_words(signal: DualChannelSignal) -> Seq<u16> {
    seq![
        encode_word(clamp_to_dac_range(signal.spec_high()), Channel::ChannelA),
        encode_word(clamp_to_dac_range(signal.spec_low()), Channel::ChannelB),
    ]
}

impl<L: DacLink> Mcp4922<L> {
    /// Creates a new driver on `link`, releasing the chip-select line.
    pub fn new(link: L) -> (r: Self)
        ensures
            r.link.frames() == link.frames(),
            !r.link.selected(),
            r.link.failing() == link.failing(),
            r.rearms@ == 0,
    {
        let mut link = link;
        // unselect the device
        link.deselect();
        Mcp4922 { link, rearms: Ghost(0nat) }
    }

    /// Writes a bounded value `data` to the output `channel` of the DAC.
    ///
    /// The chip-select line is asserted for the duration of the transfer
    /// and released on every exit, the error path included. A failed
    /// transfer is surfaced and leaves the device's frame history
    /// untouched.
    pub fn output(&mut self, data: DacOutput, channel: Channel) -> (r: Result<(), Error>)
        ensures
            final(self).rearms == old(self).rearms,
            !final(self).link.selected(),
            final(self).link.failing() == old(self).link.failing(),
            if old(self).link.failing() {
                r == Err::<(), Error>(Error::Spi(TransferError))
                    && final(self).link.frames() == old(self).link.frames()
            } else {
                r == Ok::<(), Error>(())
                    && final(self).link.frames() == old(self).link.frames().push(
                    encode_word(data.spec_val(), channel),
                )
            },
    {
        let value: u16 = data.val();
        let select_bit: u16 = u8::from(channel) as u16;
        // bits 11 through 0: data
        let lsb_word: u16 = value & 0x00FF;
        let msb_word: u16 = ((value >> 8) & 0x000F)
            // bit 12: device active flag, always set for normal operation
            | 0x0010
            // bit 14: channel select, 0 for channel A, 1 for channel B
            | (select_bit << 6);
        proof {
            assert(select_bit == channel_select_bit(channel));
            assert(lsb_word <= 0x00FF) by (bit_vector)
                requires
                    lsb_word == value & 0x00FF,
            ;
            assert(msb_word <= 0x00FF) by (bit_vector)
                requires
                    msb_word == ((value >> 8) & 0x000F) | 0x0010 | (select_bit << 6),
                    select_bit <= 1,
            ;
        }
        self.link.select();
        let result = self.link.transfer(msb_word as u8, lsb_word as u8);
        // the release path runs on every exit
        self.link.deselect();
        match result {
            Ok(()) => {
                proof {
                    assert((((msb_word as u8) as u16) << 8) | ((lsb_word as u8) as u16) == ((value
                        & 0x0FFF) | 0x1000 | (select_bit << 14))) by (bit_vector)
                        requires
                            msb_word == ((value >> 8) & 0x000F) | 0x0010 | (select_bit << 6),
                            lsb_word == value & 0x00FF,
                            select_bit <= 1,
                    ;
                }
                Ok(())
            },
            Err(e) => Err(Error::from(e)),
        }
    }

    /// Writes the two output values to the two output channels of the DAC.
    pub fn output_ab(&mut self, output_a: DacOutput, output_b: DacOutput) -> (r: Result<(), Error>)
        ensures
            final(self).rearms == old(self).rearms,
            !final(self).link.selected(),
            final(self).link.failing() == old(self).link.failing(),
            if old(self).link.failing() {
                r == Err::<(), Error>(Error::Spi(TransferError))
                    && final(self).link.frames() == old(self).link.frames()
            } else {
                r == Ok::<(), Error>(())
                    && final(self).link.frames() == old(self).link.frames().push(
                    encode_word(output_a.spec_val(), Channel::ChannelA),
                ).push(encode_word(output_b.spec_val(), Channel::ChannelB))
            },
    {
        match self.output(output_a, Channel::ChannelA) {
            Ok(()) => self.output(output_b, Channel::ChannelB),
            Err(e) => Err(e),
        }
    }

    /// Writes the high target to channel A and the low target to channel B.
    pub fn set_outputs(&mut self, high: DacOutput, low: DacOutput) -> (r: Result<(), Error>)
        ensures
            final(self).rearms == old(self).rearms,
            !final(self).link.selected(),
            final(self).link.failing() == old(self).link.failing(),
            if old(self).link.failing() {
                r == Err::<(), Error>(Error::Spi(TransferError))
                    && final(self).link.frames() == old(self).link.frames()
            } else {
                r == Ok::<(), Error>(())
                    && final(self).link.frames() == old(self).link.frames().push(
                    encode_word(high.spec_val(), Channel::ChannelA),
                ).push(encode_word(low.spec_val(), Channel::ChannelB))
            },
    {
        self.output_ab(high, low)
    }

    /// Re-arms the DAC with the signal's current sampled pair, so the
    /// actuator sees no step change when the enable line toggles. Must run
    /// strictly before the enable line is asserted or deasserted.
    pub fn prevent_signal_discontinuity(&mut self, current: &DualChannelSignal) -> (r: Result<
        (),
        Error,
    >)
        ensures
            final(self).rearms@ == old(self).rearms@ + 1,
            !final(self).link.selected(),
            final(self).link.failing() == old(self).link.failing(),
            if old(self).link.failing() {
                r == Err::<(), Error>(Error::Spi(TransferError))
                    && final(self).link.frames() == old(self).link.frames()
            } else {
                r == Ok::<(), Error>(())
                    && final(self).link.frames() == old(self).link.frames() + rearm_words(*current)
            },
    {
        let ghost pre_frames = self.link.frames();
        let ghost pre_failing = self.link.failing();
        self.rearms = Ghost(self.rearms@ + 1);
        let high_raw: u16 = current.high();
        let low_raw: u16 = current.low();
        let high_clamped: u16 = if high_raw > ANALOG_VALUE_MAX {
            ANALOG_VALUE_MAX
        } else {
            high_raw
        };
        let low_clamped: u16 = if low_raw > ANALOG_VALUE_MAX {
            ANALOG_VALUE_MAX
        } else {
            low_raw
        };
        let high = match DacOutput::new(high_clamped) {
            Ok(v) => v,
            Err(_) => {
                proof {
                    assert(false);
                }
                return Err(Error::Spi(TransferError));
            },
        };
        let low = match DacOutput::new(low_clamped) {
            Ok(v) => v,
            Err(_) => {
                proof {
                    assert(false);
                }
                return Err(Error::Spi(TransferError));
            },
        };
        let result = self.set_outputs(high, low);
        proof {
            if !pre_failing {
                assert(self.link.frames() =~= pre_frames + rearm_words(*current));
            }
        }
        result
    }
}

/// Encoding a bounded magnitude and a channel selector into a frame and
/// decoding the frame returns the same magnitude and the same channel.
pub proof fn lemma_encode_decode_roundtrip(data: u16, channel: Channel)
    requires
        data <= ANALOG_VALUE_MAX,
    ensures
        decode_magnitude(encode_word(data, channel)) == data,
        decode_channel(encode_word(data, channel)) == channel,
{
    let b = channel_select_bit(channel);
    assert(data <= 4095 && b <= 1 ==> ((data & 0x0FFF) | 0x1000 | (b << 14)) & 0x0FFF == data)
        by (bit_vector);
    assert((((data & 0x0FFF) | 0x1000 | (0u16 << 14)) & 0x4000) == 0) by (bit_vector);
    assert((((data & 0x0FFF) | 0x1000 | (1u16 << 14)) & 0x4000) != 0) by (bit_vector);
}

/// The 12-bit magnitude a frame carries.
pub fn decode_frame_magnitude(word: u16) -> (r: u16)
    ensures
        r == decode_magnitude(word),
{
    word & 0x0FFF
}

/// The channel a frame selects.
pub fn decode_frame_channel(word: u16) -> (r: Channel)
    ensures
        r == decode_channel(word),
{
    if word & 0x4000 != 0 {
        Channel::ChannelB
    } else {
        Channel::ChannelA
    }
}

} // verus!
