//! Bit reversal (mirroring the bit order) for the fixed unsigned and signed
//! integer widths, offered through five interchangeable strategies with
//! identical observable semantics: byte composition, lane-wise masking,
//! table lookup, iterative shift-accumulate, and a naive textual round trip.
use vstd::prelude::*;

pub mod bytes;
pub mod iterative;
pub mod lanes;
pub mod mirror;
pub mod naive;
pub mod table;

verus! {

/// The value a width's bit reversal must produce, shared by every strategy:
/// each implementing type fixes it to the mirror model of its width.
pub trait BitMirror: Sized {
    /// The value with its bit order mirrored.
    spec fn bit_mirrored(self) -> Self;
}

/// Bit reversal by byte composition: the byte sequence is reversed, then
/// the bit order within each byte.
pub trait ReverseBits: BitMirror {
    fn reverse_bits(self) -> (r: Self)
        ensures
            r == self.bit_mirrored(),
    ;
}

/// Bit reversal through a textual round trip: the value is rendered as a
/// zero-padded binary digit string, the digits are reversed, and the
/// reversed string is parsed back. The deliberately slow reference route.
pub trait ReverseBitsNaive: BitMirror {
    fn reverse_bits_naive(self) -> (r: Self)
        ensures
            r == self.bit_mirrored(),
    ;
}

/// Bit reversal by lane-wise masking: all bytes of the value are handled
/// at once with broadcast masks, shifts and ORs instead of a byte loop.
pub trait ReverseBitsSimd: BitMirror {
    fn reverse_bits_simd(self) -> (r: Self)
        ensures
            r == self.bit_mirrored(),
    ;
}

/// Bit reversal by iterative shift-accumulate: the input is consumed one
/// bit (or one nibble) at a time and accumulated into the mirrored result.
pub trait ReverseBitsGpt: BitMirror {
    fn reverse_bits_gpt(self) -> (r: Self)
        ensures
            r == self.bit_mirrored(),
    ;
}

/// Bit reversal through the 256-entry byte lookup table.
pub trait ReverseBitsLut: BitMirror {
    fn reverse_bits_lut(self) -> (r: Self)
        ensures
            r == self.bit_mirrored(),
    ;
}

/// Cross-strategy equivalence: every strategy's contract returns
/// `bit_mirrored`, so any two results computed for the same input by any
/// two of the strategies are the same value.
pub proof fn lemma_strategies_agree<T: BitMirror>(x: T, a: T, b: T)
    requires
        a == x.bit_mirrored(),
        b == x.bit_mirrored(),
    ensures
        a == b,
{
}

impl BitMirror for u8 {
    open spec fn bit_mirrored(self) -> u8 {
        mirror::rev8(self)
    }
}

impl BitMirror for u16 {
    open spec fn bit_mirrored(self) -> u16 {
        mirror::rev16(self)
    }
}

impl BitMirror for u32 {
    open spec fn bit_mirrored(self) -> u32 {
        mirror::rev32(self)
    }
}

impl BitMirror for u64 {
    open spec fn bit_mirrored(self) -> u64 {
        mirror::rev64(self)
    }
}

impl BitMirror for u128 {
    open spec fn bit_mirrored(self) -> u128 {
        mirror::rev128(self)
    }
}

impl BitMirror for i8 {
    open spec fn bit_mirrored(self) -> i8 {
        mirror::rev8(self as u8) as i8
    }
}

impl BitMirror for i16 {
    open spec fn bit_mirrored(self) -> i16 {
        mirror::rev16(self as u16) as i16
    }
}

impl BitMirror for i32 {
    open spec fn bit_mirrored(self) -> i32 {
        mirror::rev32(self as u32) as i32
    }
}

impl BitMirror for i64 {
    open spec fn bit_mirrored(self) -> i64 {
        mirror::rev64(self as u64) as i64
    }
}

impl BitMirror for i128 {
    open spec fn bit_mirrored(self) -> i128 {
        mirror::rev128(self as u128) as i128
    }
}

} // verus!
