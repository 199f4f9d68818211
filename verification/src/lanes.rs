//! The lane-wise strategy: the whole value is treated as a row of byte
//! lanes. The byte sequence is reversed with shift-and-mask byte swaps,
//! then for each of the 8 bit positions one broadcast mask isolates that
//! bit in every lane at once, the isolated bits are shifted to their
//! mirrored position inside their lane, and the eight results are ORed.
//! No per-byte loop runs; every operation spans all lanes of the value.
use vstd::prelude::*;

use crate::mirror::rev128;
use crate::mirror::rev16;
use crate::mirror::rev32;
use crate::mirror::rev64;
use crate::mirror::rev8;
use crate::BitMirror;
use crate::ReverseBitsSimd;

verus! {

impl ReverseBitsSimd for u8 {
    fn reverse_bits_simd(self) -> (r: u8) {
        let a = self & 0b1000_0000;
        let b = self & 0b0100_0000;
        let c = self & 0b0010_0000;
        let d = self & 0b0001_0000;
        let e = self & 0b0000_1000;
        let f = self & 0b0000_0100;
        let g = self & 0b0000_0010;
        let h = self & 0b0000_0001;
        let r = (a >> 7) | (b >> 5) | (c >> 3) | (d >> 1) | (e << 1) | (f << 3) | (g << 5) | (h
            << 7);
        proof {
            assert(r == rev8(self)) by (bit_vector)
                requires
                    r == ((self & 0x80) >> 7) | ((self & 0x40) >> 5) | ((self & 0x20) >> 3) | ((self
                        & 0x10) >> 1) | ((self & 0x08) << 1) | ((self & 0x04) << 3) | ((self
                        & 0x02) << 5) | ((self & 0x01) << 7),
            ;
        }
        r
    }
}

impl ReverseBitsSimd for u16 {
    fn reverse_bits_simd(self) -> (r: u16) {
        let s = (self >> 8) | (self << 8);
        let a = s & 0x8080;
        let b = s & 0x4040;
        let c = s & 0x2020;
        let d = s & 0x1010;
        let e = s & 0x0808;
        let f = s & 0x0404;
        let g = s & 0x0202;
        let h = s & 0x0101;
        let r = (a >> 7) | (b >> 5) | (c >> 3) | (d >> 1) | (e << 1) | (f << 3) | (g << 5) | (h
            << 7);
        proof {
            assert(r == rev16(self)) by (bit_vector)
                requires
                    s == (self >> 8) | (self << 8),
                    r == ((s & 0x8080) >> 7) | ((s & 0x4040) >> 5) | ((s & 0x2020) >> 3) | ((s
                        & 0x1010) >> 1) | ((s & 0x0808) << 1) | ((s & 0x0404) << 3) | ((s
                        & 0x0202) << 5) | ((s & 0x0101) << 7),
            ;
        }
        r
    }
}

impl ReverseBitsSimd for u32 {
    fn reverse_bits_simd(self) -> (r: u32) {
        let s = (self >> 24) | ((self >> 8) & 0x0000_FF00) | ((self << 8) & 0x00FF_0000) | (self
            << 24);
        let a = s & 0x8080_8080;
        let b = s & 0x4040_4040;
        let c = s & 0x2020_2020;
        let d = s & 0x1010_1010;
        let e = s & 0x0808_0808;
        let f = s & 0x0404_0404;
        let g = s & 0x0202_0202;
        let h = s & 0x0101_0101;
        let r = (a >> 7) | (b >> 5) | (c >> 3) | (d >> 1) | (e << 1) | (f << 3) | (g << 5) | (h
            << 7);
        proof {
            assert(r == rev32(self)) by (bit_vector)
                requires
                    s == (self >> 24) | ((self >> 8) & 0x0000_FF00) | ((self << 8) & 0x00FF_0000)
                        | (self << 24),
                    r == ((s & 0x8080_8080) >> 7) | ((s & 0x4040_4040) >> 5) | ((s & 0x2020_2020)
                        >> 3) | ((s & 0x1010_1010) >> 1) | ((s & 0x0808_0808) << 1) | ((s
                        & 0x0404_0404) << 3) | ((s & 0x0202_0202) << 5) | ((s & 0x0101_0101) << 7),
            ;
        }
        r
    }
}

impl ReverseBitsSimd for u64 {
    fn reverse_bits_simd(self) -> (r: u64) {
        let s = (self >> 56) | ((self >> 40) & 0x0000_0000_0000_FF00) | ((self >> 24)
            & 0x0000_0000_00FF_0000) | ((self >> 8) & 0x0000_0000_FF00_0000) | ((self << 8)
            & 0x0000_00FF_0000_0000) | ((self << 24) & 0x0000_FF00_0000_0000) | ((self << 40)
            & 0x00FF_0000_0000_0000) | (self << 56);
        let a = s & 0x8080_8080_8080_8080;
        let b = s & 0x4040_4040_4040_4040;
        let c = s & 0x2020_2020_2020_2020;
        let d = s & 0x1010_1010_1010_1010;
        let e = s & 0x0808_0808_0808_0808;
        let f = s & 0x0404_0404_0404_0404;
        let g = s & 0x0202_0202_0202_0202;
        let h = s & 0x0101_0101_0101_0101;
        let r = (a >> 7) | (b >> 5) | (c >> 3) | (d >> 1) | (e << 1) | (f << 3) | (g << 5) | (h
            << 7);
        proof {
            assert(r == rev64(self)) by (bit_vector)
                requires
                    s == (self >> 56) | ((self >> 40) & 0x0000_0000_0000_FF00) | ((self >> 24)
                        & 0x0000_0000_00FF_0000) | ((self >> 8) & 0x0000_0000_FF00_0000) | ((self
                        << 8) & 0x0000_00FF_0000_0000) | ((self << 24) & 0x0000_FF00_0000_0000) | ((
                    self << 40) & 0x00FF_0000_0000_0000) | (self << 56),
                    r == ((s & 0x8080_8080_8080_8080) >> 7) | ((s & 0x4040_4040_4040_4040) >> 5) | (
                    (s & 0x2020_2020_2020_2020) >> 3) | ((s & 0x1010_1010_1010_1010) >> 1) | ((s
                        & 0x0808_0808_0808_0808) << 1) | ((s & 0x0404_0404_0404_0404) << 3) | ((s
                        & 0x0202_0202_0202_0202) << 5) | ((s & 0x0101_0101_0101_0101) << 7),
            ;
        }
        r
    }
}

impl ReverseBitsSimd for u128 {
    #[verifier::rlimit(60)]
    fn reverse_bits_simd(self) -> (r: u128) {
        let s = (self >> 120) | ((self >> 104) & 0x0000_0000_0000_0000_0000_0000_0000_FF00) | ((
        self >> 88) & 0x0000_0000_0000_0000_0000_0000_00FF_0000) | ((self >> 72)
            & 0x0000_0000_0000_0000_0000_0000_FF00_0000) | ((self >> 56)
            & 0x0000_0000_0000_0000_0000_00FF_0000_0000) | ((self >> 40)
            & 0x0000_0000_0000_0000_0000_FF00_0000_0000) | ((self >> 24)
            & 0x0000_0000_0000_0000_00FF_0000_0000_0000) | ((self >> 8)
            & 0x0000_0000_0000_0000_FF00_0000_0000_0000) | ((self << 8)
            & 0x0000_0000_0000_00FF_0000_0000_0000_0000) | ((self << 24)
            & 0x0000_0000_0000_FF00_0000_0000_0000_0000) | ((self << 40)
            & 0x0000_0000_00FF_0000_0000_0000_0000_0000) | ((self << 56)
            & 0x0000_0000_FF00_0000_0000_0000_0000_0000) | ((self << 72)
            & 0x0000_00FF_0000_0000_0000_0000_0000_0000) | ((self << 88)
            & 0x0000_FF00_0000_0000_0000_0000_0000_0000) | ((self << 104)
            & 0x00FF_0000_0000_0000_0000_0000_0000_0000) | (self << 120);
        let a = s & 0x8080_8080_8080_8080_8080_8080_8080_8080;
        let b = s & 0x4040_4040_4040_4040_4040_4040_4040_4040;
        let c = s & 0x2020_2020_2020_2020_2020_2020_2020_2020;
        let d = s & 0x1010_1010_1010_1010_1010_1010_1010_1010;
        let e = s & 0x0808_0808_0808_0808_0808_0808_0808_0808;
        let f = s & 0x0404_0404_0404_0404_0404_0404_0404_0404;
        let g = s & 0x0202_0202_0202_0202_0202_0202_0202_0202;
        let h = s & 0x0101_0101_0101_0101_0101_0101_0101_0101;
        let r = (a >> 7) | (b >> 5) | (c >> 3) | (d >> 1) | (e << 1) | (f << 3) | (g << 5) | (h
            << 7);
        proof {
            assert(r == rev128(self)) by (bit_vector)
                requires
                    s == (self >> 120) | ((self >> 104)
                        & 0x0000_0000_0000_0000_0000_0000_0000_FF00) | ((self >> 88)
                        & 0x0000_0000_0000_0000_0000_0000_00FF_0000) | ((self >> 72)
                        & 0x0000_0000_0000_0000_0000_0000_FF00_0000) | ((self >> 56)
                        & 0x0000_0000_0000_0000_0000_00FF_0000_0000) | ((self >> 40)
                        & 0x0000_0000_0000_0000_0000_FF00_0000_0000) | ((self >> 24)
                        & 0x0000_0000_0000_0000_00FF_0000_0000_0000) | ((self >> 8)
                        & 0x0000_0000_0000_0000_FF00_0000_0000_0000) | ((self << 8)
                        & 0x0000_0000_0000_00FF_0000_0000_0000_0000) | ((self << 24)
                        & 0x0000_0000_0000_FF00_0000_0000_0000_0000) | ((self << 40)
                        & 0x0000_0000_00FF_0000_0000_0000_0000_0000) | ((self << 56)
                        & 0x0000_0000_FF00_0000_0000_0000_0000_0000) | ((self << 72)
                        & 0x0000_00FF_0000_0000_0000_0000_0000_0000) | ((self << 88)
                        & 0x0000_FF00_0000_0000_0000_0000_0000_0000) | ((self << 104)
                        & 0x00FF_0000_0000_0000_0000_0000_0000_0000) | (self << 120),
                    r == ((s & 0x8080_8080_8080_8080_8080_8080_8080_8080) >> 7) | ((s
                        & 0x4040_4040_4040_4040_4040_4040_4040_4040) >> 5) | ((s
                        & 0x2020_2020_2020_2020_2020_2020_2020_2020) >> 3) | ((s
                        & 0x1010_1010_1010_1010_1010_1010_1010_1010) >> 1) | ((s
                        & 0x0808_0808_0808_0808_0808_0808_0808_0808) << 1) | ((s
                        & 0x0404_0404_0404_0404_0404_0404_0404_0404) << 3) | ((s
                        & 0x0202_0202_0202_0202_0202_0202_0202_0202) << 5) | ((s
                        & 0x0101_0101_0101_0101_0101_0101_0101_0101) << 7),
            ;
        }
        r
    }
}

} // verus!
