//! The transport abstraction and one poll cycle's reads.
//!
//! A transport is anything that can read a run of 16-bit registers from a
//! connected device. The library states nothing about what an arbitrary
//! transport returns — a real one answers from the wire — so the exact
//! contracts sit on the functions that take the transport's answers as
//! arguments and turn them into a sample.

use vstd::prelude::*;
use crate::codec;
use crate::errors::TransportError;
use crate::reading::RawSample;

verus! {

/// Register address of the power channel.
pub const REG_WATTS: u16 = 0x383;

/// Register address of the voltage channel.
pub const REG_VOLTS: u16 = 0x03ED;

/// Register address of the frequency channel.
pub const REG_FREQ: u16 = 0x0401;

/// Every channel value spans two consecutive registers.
pub const REGS_PER_VALUE: u16 = 2;

/// The fixed unit identifier the meter is addressed with.
pub const DEVICE_ID: u8 = 1;

/// Capability to read registers from an established, stateful session.
///
/// A failure is connection-fatal to the caller: there is no retry at this
/// layer. The trait carries no postconditions — what a session answers is
/// the wire's business — so the verified logic must handle every possible
/// answer, and does.
pub trait Transport {
    /// Read `count` consecutive 16-bit registers starting at
    /// `start_address`.
    fn read_registers(&mut self, start_address: u16, count: u16) -> Result<Vec<u16>, TransportError>;
}

/// Decode one channel's response: exactly two registers carry one value;
/// any other length is a malformed response.
pub fn decode_pair(words: &Vec<u16>) -> (r: Result<u32, TransportError>)
    ensures
        words@.len() == 2 ==> r == Ok::<u32, TransportError>(
            codec::concat_words(words@[0], words@[1]),
        ),
        words@.len() != 2 ==> r == Err::<u32, TransportError>(TransportError::MalformedResponse),
{
    if words.len() == 2 {
        Ok(codec::decode_bits(words[0], words[1]))
    } else {
        Err(TransportError::MalformedResponse)
    }
}

/// Assemble one sample from the three responses of a poll cycle, in the
/// fixed channel order: power, voltage, frequency. Succeeds exactly when
/// every response carries its two registers.
pub fn sample_from_words(watts: &Vec<u16>, volts: &Vec<u16>, freq: &Vec<u16>) -> (r: Result<
    RawSample,
    TransportError,
>)
    ensures
        watts@.len() == 2 && volts@.len() == 2 && freq@.len() == 2 ==> r == Ok::<
            RawSample,
            TransportError,
        >(
            RawSample {
                watts_bits: codec::concat_words(watts@[0], watts@[1]),
                volts_bits: codec::concat_words(volts@[0], volts@[1]),
                frequency_bits: codec::concat_words(freq@[0], freq@[1]),
            },
        ),
        !(watts@.len() == 2 && volts@.len() == 2 && freq@.len() == 2) ==> r == Err::<
            RawSample,
            TransportError,
        >(TransportError::MalformedResponse),
{
    let w = decode_pair(watts)?;
    let v = decode_pair(volts)?;
    let f = decode_pair(freq)?;
    Ok(RawSample { watts_bits: w, volts_bits: v, frequency_bits: f })
}

/// One poll cycle's reads: the three channels in fixed order, each two
/// registers wide, decoded into a sample.
///
/// The first failing read ends the cycle with its error; what a
/// successful cycle returns is pinned down by [`sample_from_words`],
/// which this function applies to whatever the transport answered.
pub fn read_sample<T: Transport>(t: &mut T) -> Result<RawSample, TransportError> {
    let watts = t.read_registers(REG_WATTS, REGS_PER_VALUE)?;
    let volts = t.read_registers(REG_VOLTS, REGS_PER_VALUE)?;
    let freq = t.read_registers(REG_FREQ, REGS_PER_VALUE)?;
    sample_from_words(&watts, &volts, &freq)
}

} // verus!
