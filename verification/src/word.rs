//! Sixteen-bit words as the sensors send them, high byte first, and what they
//! stand for.

use fixed::types::extra::U16;
use fixed::FixedU16;
use vstd::prelude::*;

verus! {

/// The number of steps into which a [`Fraction`] divides the unit interval.
pub const FRACTION_STEPS: i64 = 65536;

/// The unsigned value of the big-endian word whose bytes are `hi`, then `lo`.
pub open spec fn be_word(hi: u8, lo: u8) -> int {
    hi as int * 256 + lo as int
}

/// The value of the big-endian word `hi`, `lo` read as a two's-complement
/// number.
pub open spec fn be_signed(hi: u8, lo: u8) -> int {
    if be_word(hi, lo) < 32768 {
        be_word(hi, lo)
    } else {
        be_word(hi, lo) - 65536
    }
}

/// Calls `fixed::FixedU16::<U16>::from_be_bytes` on the two bytes and hands
/// back the bits of the fixed-point number, as `to_bits` gives them.
///
/// Trusted: the crate builds the number from `u16::from_be_bytes` of the
/// array and stores it unchanged, so the bits are the value of the big-endian
/// word.
#[verifier::external_body]
fn fraction_bits(hi: u8, lo: u8) -> (bits: u16)
    ensures
        bits == be_word(hi, lo),
{
    FixedU16::<U16>::from_be_bytes([hi, lo]).to_bits()
}

/// A number in `[0, 1)`, held as its numerator over 65536.
#[derive(Clone, Copy, Debug, PartialEq, Eq, Structural)]
pub struct Fraction {
    pub bits: u16,
}

impl Fraction {
    /// The fraction that a sensor sent as the big-endian word `hi`, `lo`.
    pub fn from_be_bytes(hi: u8, lo: u8) -> (f: Fraction)
        ensures
            f.bits == be_word(hi, lo),
    {
        Fraction { bits: fraction_bits(hi, lo) }
    }

    /// The point to which the fraction maps in the range that starts at
    /// `offset` and is `span` wide, `offset + span * self`, in units of
    /// 1/65536.
    pub open spec fn spec_scale(self, offset: int, span: int) -> int {
        offset * FRACTION_STEPS + span * self.bits
    }

    /// The point to which the fraction maps in the range that starts at
    /// `offset` and is `span` wide, `offset + span * self`, in units of
    /// 1/65536.
    pub fn scale(self, offset: i16, span: u16) -> (scaled: i64)
        ensures
            scaled == self.spec_scale(offset as int, span as int),
    {
        assert(0 <= span as int * self.bits as int <= 65535 * 65535) by (nonlinear_arith)
            requires
                0 <= span as int <= 65535,
                0 <= self.bits as int <= 65535,
        ;
        let base: i64 = offset as i64 * FRACTION_STEPS;
        let rise: i64 = span as i64 * self.bits as i64;
        base + rise
    }
}

/// The two's-complement value of the big-endian word `hi`, `lo`.
pub fn signed_word(hi: u8, lo: u8) -> (value: i16)
    ensures
        value == be_signed(hi, lo),
{
    let word: u16 = hi as u16 * 256 + lo as u16;
    if word < 32768 {
        word as i16
    } else {
        (word as i32 - 65536) as i16
    }
}

} // verus!
