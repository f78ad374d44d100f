//! Big-endian 16-bit word codec shared by every response decoder.

use vstd::prelude::*;

verus! {

/// The 16-bit value that a big-endian byte pair denotes.
pub open spec fn be_word(hi: u8, lo: u8) -> u16 {
    (hi * 256 + lo) as u16
}

/// The high byte of the big-endian encoding of `value`.
pub open spec fn be_hi(value: u16) -> u8 {
    (value / 256) as u8
}

/// The low byte of the big-endian encoding of `value`.
pub open spec fn be_lo(value: u16) -> u8 {
    (value % 256) as u8
}

/// Encoder/decoder for 16-bit register words in network (big-endian) order.
pub struct WordCodec;

impl WordCodec {
    /// Split a 16-bit value into its big-endian byte pair.
    pub fn encode_be(value: u16) -> (r: (u8, u8))
        ensures
            r.0 == be_hi(value),
            r.1 == be_lo(value),
            be_word(r.0, r.1) == value,
    {
        let hi = (value / 256) as u8;
        let lo = (value % 256) as u8;
        (hi, lo)
    }

    /// Join a big-endian byte pair back into a 16-bit value.
    pub fn decode_be(hi: u8, lo: u8) -> (r: u16)
        ensures
            r == be_word(hi, lo),
    {
        (hi as u16) * 256 + (lo as u16)
    }
}

/// Splitting a word and joining the pieces gives the word back, and splitting
/// the result of a join gives the original pair back.
pub proof fn lemma_be_word_round_trip(value: u16, hi: u8, lo: u8)
    ensures
        be_word(be_hi(value), be_lo(value)) == value,
        be_hi(be_word(hi, lo)) == hi,
        be_lo(be_word(hi, lo)) == lo,
{
}

} // verus!
