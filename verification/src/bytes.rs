//! The byte-composition strategy: decompose the value into bytes, reverse
//! the byte sequence, reverse the bit order within each byte with the
//! scalar byte reverser, and recompose. Signed widths reuse the unsigned
//! reversal of the same width on their bit pattern.
use vstd::prelude::*;

use crate::mirror::lemma_compose_mirrored_u128;
use crate::mirror::lemma_compose_mirrored_u16;
use crate::mirror::lemma_compose_mirrored_u32;
use crate::mirror::lemma_compose_mirrored_u64;
use crate::mirror::rev8;
use crate::BitMirror;
use crate::ReverseBits;

verus! {

/// The scalar byte reverser: mirrors the bit order of one byte by swapping
/// its nibbles and reversing each nibble with four mask-and-shift pairs.
pub fn reverse_byte(x: u8) -> (r: u8)
    ensures
        r == rev8(x),
{
    let top = (x & 0b1111_0000) >> 4;
    let bot = x & 0b0000_1111;
    let rt = ((top & 0b1000) >> 3) | ((top & 0b0100) >> 1) | ((top & 0b0010) << 1) | ((top
        & 0b0001) << 3);
    let rb = ((bot & 0b1000) >> 3) | ((bot & 0b0100) >> 1) | ((bot & 0b0010) << 1) | ((bot
        & 0b0001) << 3);
    let r = (rb << 4) | rt;
    proof {
        assert(r == rev8(x)) by (bit_vector)
            requires
                top == (x & 0b1111_0000) >> 4,
                bot == x & 0b0000_1111,
                rt == ((top & 0b1000) >> 3) | ((top & 0b0100) >> 1) | ((top & 0b0010) << 1) | ((top
                    & 0b0001) << 3),
                rb == ((bot & 0b1000) >> 3) | ((bot & 0b0100) >> 1) | ((bot & 0b0010) << 1) | ((bot
                    & 0b0001) << 3),
                r == (rb << 4) | rt,
        ;
    }
    r
}

/// Reverses a byte sequence and the bit order within each byte: the byte
/// vector form of bit reversal that the multi-byte widths compose.
pub fn reverse_bit_order_bytes(v: &Vec<u8>) -> (r: Vec<u8>)
    ensures
        r@.len() == v@.len(),
        forall|j: int| 0 <= j < v@.len() ==> r@[j] == rev8(v@[v@.len() - 1 - j]),
{
    let n = v.len();
    let mut r: Vec<u8> = Vec::new();
    let mut j: usize = 0;
    while j < n
        invariant
            j <= n,
            n == v@.len(),
            r@.len() == j,
            forall|k: int| 0 <= k < j ==> r@[k] == rev8(v@[n - 1 - k]),
        decreases n - j,
    {
        r.push(reverse_byte(v[n - 1 - j]));
        j += 1;
    }
    r
}

impl ReverseBits for u8 {
    fn reverse_bits(self) -> (r: u8) {
        reverse_byte(self)
    }
}

impl ReverseBits for u16 {
    fn reverse_bits(self) -> (r: u16) {
        let b0 = #[verifier::truncate] (self as u8);
        let b1 = #[verifier::truncate] ((self >> 8) as u8);
        let c0 = reverse_byte(b1);
        let c1 = reverse_byte(b0);
        proof {
            lemma_compose_mirrored_u16(self, c0, c1);
        }
        (c0 as u16) | ((c1 as u16) << 8)
    }
}

impl ReverseBits for u32 {
    fn reverse_bits(self) -> (r: u32) {
        let b0 = #[verifier::truncate] (self as u8);
        let b1 = #[verifier::truncate] ((self >> 8) as u8);
        let b2 = #[verifier::truncate] ((self >> 16) as u8);
        let b3 = #[verifier::truncate] ((self >> 24) as u8);
        let c0 = reverse_byte(b3);
        let c1 = reverse_byte(b2);
        let c2 = reverse_byte(b1);
        let c3 = reverse_byte(b0);
        proof {
            lemma_compose_mirrored_u32(self, c0, c1, c2, c3);
        }
        (c0 as u32) | ((c1 as u32) << 8) | ((c2 as u32) << 16) | ((c3 as u32) << 24)
    }
}

impl ReverseBits for u64 {
    fn reverse_bits(self) -> (r: u64) {
        let mut bs: Vec<u8> = Vec::new();
        bs.push(#[verifier::truncate] (self as u8));
        bs.push(#[verifier::truncate] ((self >> 8) as u8));
        bs.push(#[verifier::truncate] ((self >> 16) as u8));
        bs.push(#[verifier::truncate] ((self >> 24) as u8));
        bs.push(#[verifier::truncate] ((self >> 32) as u8));
        bs.push(#[verifier::truncate] ((self >> 40) as u8));
        bs.push(#[verifier::truncate] ((self >> 48) as u8));
        bs.push(#[verifier::truncate] ((self >> 56) as u8));
        let m = reverse_bit_order_bytes(&bs);
        let c0 = m[0];
        let c1 = m[1];
        let c2 = m[2];
        let c3 = m[3];
        let c4 = m[4];
        let c5 = m[5];
        let c6 = m[6];
        let c7 = m[7];
        proof {
            lemma_compose_mirrored_u64(self, c0, c1, c2, c3, c4, c5, c6, c7);
        }
        (c0 as u64) | ((c1 as u64) << 8) | ((c2 as u64) << 16) | ((c3 as u64) << 24) | ((c4
            as u64) << 32) | ((c5 as u64) << 40) | ((c6 as u64) << 48) | ((c7 as u64) << 56)
    }
}

impl ReverseBits for u128 {
    fn reverse_bits(self) -> (r: u128) {
        let mut bs: Vec<u8> = Vec::new();
        bs.push(#[verifier::truncate] (self as u8));
        bs.push(#[verifier::truncate] ((self >> 8) as u8));
        bs.push(#[verifier::truncate] ((self >> 16) as u8));
        bs.push(#[verifier::truncate] ((self >> 24) as u8));
        bs.push(#[verifier::truncate] ((self >> 32) as u8));
        bs.push(#[verifier::truncate] ((self >> 40) as u8));
        bs.push(#[verifier::truncate] ((self >> 48) as u8));
        bs.push(#[verifier::truncate] ((self >> 56) as u8));
        bs.push(#[verifier::truncate] ((self >> 64) as u8));
        bs.push(#[verifier::truncate] ((self >> 72) as u8));
        bs.push(#[verifier::truncate] ((self >> 80) as u8));
        bs.push(#[verifier::truncate] ((self >> 88) as u8));
        bs.push(#[verifier::truncate] ((self >> 96) as u8));
        bs.push(#[verifier::truncate] ((self >> 104) as u8));
        bs.push(#[verifier::truncate] ((self >> 112) as u8));
        bs.push(#[verifier::truncate] ((self >> 120) as u8));
        let m = reverse_bit_order_bytes(&bs);
        let c0 = m[0];
        let c1 = m[1];
        let c2 = m[2];
        let c3 = m[3];
        let c4 = m[4];
        let c5 = m[5];
        let c6 = m[6];
        let c7 = m[7];
        let c8 = m[8];
        let c9 = m[9];
        let c10 = m[10];
        let c11 = m[11];
        let c12 = m[12];
        let c13 = m[13];
        let c14 = m[14];
        let c15 = m[15];
        proof {
            lemma_compose_mirrored_u128(
                self,
                c0,
                c1,
                c2,
                c3,
                c4,
                c5,
                c6,
                c7,
                c8,
                c9,
                c10,
                c11,
                c12,
                c13,
                c14,
                c15,
            );
        }
        (c0 as u128) | ((c1 as u128) << 8) | ((c2 as u128) << 16) | ((c3 as u128) << 24) | ((c4
            as u128) << 32) | ((c5 as u128) << 40) | ((c6 as u128) << 48) | ((c7 as u128) << 56)
            | ((c8 as u128) << 64) | ((c9 as u128) << 72) | ((c10 as u128) << 80) | ((c11
            as u128) << 88) | ((c12 as u128) << 96) | ((c13 as u128) << 104) | ((c14 as u128)
            << 112) | ((c15 as u128) << 120)
    }
}

impl ReverseBits for i8 {
    fn reverse_bits(self) -> (r: i8) {
        let u = #[verifier::truncate] (self as u8);
        let m = ReverseBits::reverse_bits(u);
        #[verifier::truncate] (m as i8)
    }
}

impl ReverseBits for i16 {
    fn reverse_bits(self) -> (r: i16) {
        let u = #[verifier::truncate] (self as u16);
        let m = ReverseBits::reverse_bits(u);
        #[verifier::truncate] (m as i16)
    }
}

impl ReverseBits for i32 {
    fn reverse_bits(self) -> (r: i32) {
        let u = #[verifier::truncate] (self as u32);
        let m = ReverseBits::reverse_bits(u);
        #[verifier::truncate] (m as i32)
    }
}

impl ReverseBits for i64 {
    fn reverse_bits(self) -> (r: i64) {
        let u = #[verifier::truncate] (self as u64);
        let m = ReverseBits::reverse_bits(u);
        #[verifier::truncate] (m as i64)
    }
}

impl ReverseBits for i128 {
    fn reverse_bits(self) -> (r: i128) {
        let u = #[verifier::truncate] (self as u128);
        let m = ReverseBits::reverse_bits(u);
        #[verifier::truncate] (m as i128)
    }
}

} // verus!
