//! The iterative shift-accumulate strategy. The 8- and 16-bit widths pull
//! the lowest bit off a shrinking copy of the input and write it at a
//! decreasing offset, stopping early once the copy is zero (sound because
//! the unwritten positions of the zero-initialized accumulator are exactly
//! the mirrored leading zeros). The 64- and 128-bit widths run the full
//! width, shifting the accumulator left and ORing in the lowest bit. The
//! 32-bit width consumes a nibble at a time through the 16-entry
//! nibble-reversal table.
use vstd::prelude::*;

use crate::mirror::rev128;
use crate::mirror::rev16;
use crate::mirror::rev32;
use crate::mirror::rev4;
use crate::mirror::rev64;
use crate::mirror::rev8;
use crate::BitMirror;
use crate::ReverseBitsGpt;

verus! {

/// Reverses the low 4 bits of a nibble by mask and shift.
fn reverse_nibble(x: u32) -> (r: u32)
    requires
        x < 16,
    ensures
        r == rev4(x),
{
    ((x & 0x1) << 3) | ((x & 0x2) << 1) | ((x & 0x4) >> 1) | ((x & 0x8) >> 3)
}

/// The nibble-reversal lookup table: entry j holds the 4-bit reversal of j.
pub fn nibble_table() -> (t: Vec<u32>)
    ensures
        t@.len() == 16,
        forall|j: int| 0 <= j < 16 ==> t@[j] == rev4(j as u32),
{
    let mut t: Vec<u32> = Vec::new();
    let mut j: u32 = 0;
    while j < 16
        invariant
            j <= 16,
            t@.len() == j,
            forall|k: int| 0 <= k < j ==> t@[k] == rev4(k as u32),
        decreases 16 - j,
    {
        t.push(reverse_nibble(j));
        j += 1;
    }
    t
}

impl ReverseBitsGpt for u8 {
    fn reverse_bits_gpt(self) -> (r: u8) {
        let mut n = self;
        let mut result: u8 = 0;
        let mut k: u8 = 0;
        while n != 0
            invariant
                k <= 8,
                k == 0 ==> n == self && result == 0,
                0 < k < 8 ==> n == self >> k,
                k == 8 ==> n == 0,
                0 < k ==> result == (rev8(self) >> ((8 - k) as u8)) << ((8 - k) as u8),
            decreases 8 - k,
        {
            proof {
                assert(k < 8) by {
                    if k == 8 {
                        assert(n == 0);
                    }
                }
            }
            let shift = 7 - k;
            let r0 = result;
            let n0 = n;
            result = result | ((n & 1) << shift);
            n = n >> 1;
            k = k + 1;
            proof {
                assert((0 < k < 8 ==> n == self >> k) && (k == 8 ==> n == 0) && result == (rev8(
                    self,
                ) >> ((8 - k) as u8)) << ((8 - k) as u8)) by (bit_vector)
                    requires
                        k <= 8,
                        0 < k,
                        (k - 1) as u8 == 0 ==> n0 == self && r0 == 0,
                        0 < (k - 1) as u8 ==> r0 == (rev8(self) >> ((9 - k) as u8)) << ((9
                            - k) as u8),
                        0 < (k - 1) as u8 ==> n0 == self >> ((k - 1) as u8),
                        n0 != 0,
                        result == r0 | ((n0 & 1) << ((8 - k) as u8)),
                        n == n0 >> 1,
                ;
            }
        }
        proof {
            assert(result == rev8(self)) by (bit_vector)
                requires
                    n == 0,
                    k <= 8,
                    k == 0 ==> n == self && result == 0,
                    0 < k < 8 ==> n == self >> k,
                    0 < k ==> result == (rev8(self) >> ((8 - k) as u8)) << ((8 - k) as u8),
            ;
        }
        result
    }
}

impl ReverseBitsGpt for u16 {
    fn reverse_bits_gpt(self) -> (r: u16) {
        let mut input = self;
        let mut result: u16 = 0;
        let mut k: u16 = 0;
        while input != 0
            invariant
                k <= 16,
                k == 0 ==> input == self && result == 0,
                0 < k < 16 ==> input == self >> k,
                k == 16 ==> input == 0,
                0 < k ==> result == (rev16(self) >> ((16 - k) as u16)) << ((16 - k) as u16),
            decreases 16 - k,
        {
            proof {
                assert(k < 16) by {
                    if k == 16 {
                        assert(input == 0);
                    }
                }
            }
            let shift = 15 - k;
            let r0 = result;
            let n0 = input;
            result = result | ((input & 1) << shift);
            input = input >> 1;
            k = k + 1;
            proof {
                assert((0 < k < 16 ==> input == self >> k) && (k == 16 ==> input == 0) && result
                    == (rev16(self) >> ((16 - k) as u16)) << ((16 - k) as u16)) by (bit_vector)
                    requires
                        k <= 16,
                        0 < k,
                        (k - 1) as u16 == 0 ==> n0 == self && r0 == 0,
                        0 < (k - 1) as u16 ==> r0 == (rev16(self) >> ((17 - k) as u16)) << ((17
                            - k) as u16),
                        0 < (k - 1) as u16 ==> n0 == self >> ((k - 1) as u16),
                        n0 != 0,
                        result == r0 | ((n0 & 1) << ((16 - k) as u16)),
                        input == n0 >> 1,
                ;
            }
        }
        proof {
            assert(result == rev16(self)) by (bit_vector)
                requires
                    input == 0,
                    k <= 16,
                    k == 0 ==> input == self && result == 0,
                    0 < k < 16 ==> input == self >> k,
                    0 < k ==> result == (rev16(self) >> ((16 - k) as u16)) << ((16 - k) as u16),
            ;
        }
        result
    }
}

impl ReverseBitsGpt for u32 {
    fn reverse_bits_gpt(self) -> (r: u32) {
        let tbl = nibble_table();
        let mut reversed: u32 = 0;
        let mut i: u8 = 0;
        while i < 8
            invariant
                i <= 8,
                tbl@.len() == 16,
                forall|j: int| 0 <= j < 16 ==> tbl@[j] == rev4(j as u32),
                i == 0 ==> reversed == 0,
                0 < i < 8 ==> reversed == (rev32(self) >> ((32 - 4 * i) as u32)) << ((32 - 4
                    * i) as u32),
                i == 8 ==> reversed == rev32(self),
            decreases 8 - i,
        {
            let sh: u32 = 4 * (i as u32);
            let bits = (self >> sh) & 0xF;
            proof {
                assert(bits < 16) by (bit_vector)
                    requires
                        bits == (self >> sh) & 0xF,
                ;
            }
            let looked = tbl[bits as usize];
            let r0 = reversed;
            reversed = reversed | (looked << (28 - sh));
            i = i + 1;
            proof {
                assert((0 < i < 8 ==> reversed == (rev32(self) >> ((32 - 4 * i) as u32)) << ((32 - 4
                    * i) as u32)) && (i == 8 ==> reversed == rev32(self))) by (bit_vector)
                    requires
                        0 < i <= 8,
                        sh == 4 * ((i - 1) as u32),
                        bits == (self >> sh) & 0xF,
                        looked == rev4(bits),
                        (i - 1) as u8 == 0 ==> r0 == 0,
                        0 < (i - 1) as u8 ==> r0 == (rev32(self) >> ((36 - 4 * i) as u32)) << ((36
                            - 4 * i) as u32),
                        reversed == r0 | (looked << ((28 - sh) as u32)),
                ;
            }
        }
        reversed
    }
}

impl ReverseBitsGpt for u64 {
    fn reverse_bits_gpt(self) -> (r: u64) {
        let mut value = self;
        let mut result: u64 = 0;
        let mut k: u8 = 0;
        while k < 64
            invariant
                k <= 64,
                k == 0 ==> value == self && result == 0,
                0 < k < 64 ==> value == self >> (k as u64),
                0 < k < 64 ==> result == rev64(self) >> ((64 - k) as u64),
                k == 64 ==> result == rev64(self),
            decreases 64 - k,
        {
            let r0 = result;
            let v0 = value;
            result = (result << 1) | (value & 1);
            value = value >> 1;
            k = k + 1;
            proof {
                assert((0 < k < 64 ==> value == self >> (k as u64)) && (0 < k < 64 ==> result
                    == rev64(self) >> ((64 - k) as u64)) && (k == 64 ==> result == rev64(
                    self,
                ))) by (bit_vector)
                    requires
                        0 < k <= 64,
                        (k - 1) as u8 == 0 ==> v0 == self && r0 == 0,
                        0 < (k - 1) as u8 ==> r0 == rev64(self) >> ((65 - k) as u64),
                        0 < (k - 1) as u8 ==> v0 == self >> (((k - 1) as u8) as u64),
                        result == (r0 << 1) | (v0 & 1),
                        value == v0 >> 1,
                ;
            }
        }
        result
    }
}

impl ReverseBitsGpt for u128 {
    #[verifier::rlimit(100)]
    fn reverse_bits_gpt(self) -> (r: u128) {
        let mut value = self;
        let mut result: u128 = 0;
        let mut k: u8 = 0;
        while k < 128
            invariant
                k <= 128,
                k == 0 ==> value == self && result == 0,
                0 < k < 128 ==> value == self >> (k as u128),
                0 < k < 128 ==> result == rev128(self) >> ((128 - k) as u128),
                k == 128 ==> result == rev128(self),
            decreases 128 - k,
        {
            let r0 = result;
            let v0 = value;
            result = (result << 1) | (value & 1);
            value = value >> 1;
            k = k + 1;
            proof {
                assert((0 < k < 128 ==> value == self >> (k as u128)) && (0 < k < 128 ==> result
                    == rev128(self) >> ((128 - k) as u128)) && (k == 128 ==> result == rev128(
                    self,
                ))) by (bit_vector)
                    requires
                        0 < k <= 128,
                        (k - 1) as u8 == 0 ==> v0 == self && r0 == 0,
                        0 < (k - 1) as u8 ==> r0 == rev128(self) >> ((129 - k) as u128),
                        0 < (k - 1) as u8 ==> v0 == self >> (((k - 1) as u8) as u128),
                        result == (r0 << 1) | (v0 & 1),
                        value == v0 >> 1,
                ;
            }
        }
        result
    }
}

} // verus!
