//! Register codec: two adjacent big-endian 16-bit registers encode one
//! 32-bit IEEE-754 bit pattern. The library works on the bit pattern as a
//! `u32`; the reinterpretation as a float is a cast the caller performs.

use vstd::prelude::*;

verus! {

/// The 32-bit pattern whose high half is `hi` and whose low half is `lo`.
pub open spec fn concat_words(hi: u16, lo: u16) -> u32 {
    ((hi as u32) << 16) | (lo as u32)
}

/// High 16 bits of a 32-bit pattern.
pub open spec fn hi_word(bits: u32) -> u16 {
    (bits >> 16) as u16
}

/// Low 16 bits of a 32-bit pattern.
pub open spec fn lo_word(bits: u32) -> u16 {
    bits as u16
}

/// Concatenating two words and splitting the result gives the words back:
/// the codec loses nothing.
pub proof fn lemma_concat_words_round_trip(hi: u16, lo: u16)
    ensures
        hi_word(concat_words(hi, lo)) == hi,
        lo_word(concat_words(hi, lo)) == lo,
{
    assert((((((hi as u32) << 16) | (lo as u32)) >> 16) as u16) == hi) by (bit_vector);
    assert(((((hi as u32) << 16) | (lo as u32)) as u16) == lo) by (bit_vector);
}

/// Decode one register pair into the 32-bit pattern it carries.
pub fn decode_bits(hi: u16, lo: u16) -> (r: u32)
    ensures
        r == concat_words(hi, lo),
{
    ((hi as u32) << 16) | (lo as u32)
}

} // verus!
