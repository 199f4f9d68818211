//! The naive reference strategy: render the value as a zero-padded binary
//! digit string, reverse the digit sequence, and parse the reversed string
//! back in base 2. The rendering and the reversal are verified loops; the
//! re-parse is the one outside call of the crate, trusted with the exact
//! contract that base-2 parsing gives the positional value of the digits.
use vstd::prelude::*;

use vstd::arithmetic::div_mod::lemma_div_basics;
use vstd::arithmetic::div_mod::lemma_div_denominator;
use vstd::arithmetic::div_mod::lemma_fundamental_div_mod;
use vstd::arithmetic::power2::lemma2_to64;
use vstd::arithmetic::power2::lemma_pow2_adds;
use vstd::arithmetic::power2::lemma_pow2_pos;
use vstd::arithmetic::power2::lemma_pow2_unfold;
use vstd::arithmetic::power2::pow2;
use vstd::bits::lemma_u128_shr_is_div;
use vstd::bits::lemma_u16_shr_is_div;
use vstd::bits::lemma_u32_shr_is_div;
use vstd::bits::lemma_u64_shr_is_div;
use vstd::bits::lemma_u8_shr_is_div;

use crate::mirror::bit128;
use crate::mirror::bit16;
use crate::mirror::bit32;
use crate::mirror::bit64;
use crate::mirror::bit8;
use crate::mirror::lemma_rev128_mirror;
use crate::mirror::lemma_rev16_mirror;
use crate::mirror::lemma_rev32_mirror;
use crate::mirror::lemma_rev64_mirror;
use crate::mirror::lemma_rev8_mirror;
use crate::mirror::rev128;
use crate::mirror::rev16;
use crate::mirror::rev32;
use crate::mirror::rev64;
use crate::mirror::rev8;
use crate::BitMirror;
use crate::ReverseBitsNaive;

verus! {

/// The number a sequence of ASCII binary digits denotes, most significant
/// digit first: 49 is the digit 1, 48 the digit 0.
pub open spec fn binary_value(s: Seq<u8>) -> nat
    decreases s.len(),
{
    if s.len() == 0 {
        0
    } else {
        2 * binary_value(s.drop_last()) + (if s.last() == 49 {
            1nat
        } else {
            0nat
        })
    }
}

/// The zero-padded binary rendering of a byte: digit j is bit 7 - j.
pub open spec fn bin_digits8(x: u8) -> Seq<u8> {
    Seq::new(
        8,
        |j: int|
            if bit8(x, (7 - j) as u8) {
                49u8
            } else {
                48u8
            },
    )
}

/// The zero-padded binary rendering of a 16-bit value.
pub open spec fn bin_digits16(x: u16) -> Seq<u8> {
    Seq::new(
        16,
        |j: int|
            if bit16(x, (15 - j) as u16) {
                49u8
            } else {
                48u8
            },
    )
}

/// The zero-padded binary rendering of a 32-bit value.
pub open spec fn bin_digits32(x: u32) -> Seq<u8> {
    Seq::new(
        32,
        |j: int|
            if bit32(x, (31 - j) as u32) {
                49u8
            } else {
                48u8
            },
    )
}

/// The zero-padded binary rendering of a 64-bit value.
pub open spec fn bin_digits64(x: u64) -> Seq<u8> {
    Seq::new(
        64,
        |j: int|
            if bit64(x, (63 - j) as u64) {
                49u8
            } else {
                48u8
            },
    )
}

/// The zero-padded binary rendering of a 128-bit value.
pub open spec fn bin_digits128(x: u128) -> Seq<u8> {
    Seq::new(
        128,
        |j: int|
            if bit128(x, (127 - j) as u128) {
                49u8
            } else {
                48u8
            },
    )
}

/// A sequence of binary digits whose digit j says whether bit
/// len - 1 - j of y is set denotes exactly y.
proof fn lemma_binary_value_of_bits(s: Seq<u8>, y: nat)
    requires
        y < pow2(s.len()),
        forall|j: int|
            0 <= j < s.len() ==> ((#[trigger] s[j]) == 49 <==> (y / pow2(
                (s.len() - 1 - j) as nat,
            ) % 2 == 1)),
    ensures
        binary_value(s) == y,
    decreases s.len(),
{
    lemma2_to64();
    if s.len() == 0 {
        assert(y == 0);
    } else {
        let n = s.len() as int;
        let s2 = s.drop_last();
        let y2 = y / 2;
        lemma_pow2_unfold(s.len());
        lemma_fundamental_div_mod(y as int, 2);
        assert(y2 < pow2((n - 1) as nat));
        assert forall|j: int| 0 <= j < n - 1 implies ((#[trigger] s2[j]) == 49 <==> (y2 / pow2(
            (s2.len() - 1 - j) as nat,
        ) % 2 == 1)) by {
            let e = (n - 2 - j) as nat;
            lemma_pow2_pos(e);
            lemma_div_denominator(y as int, 2, pow2(e) as int);
            lemma_pow2_unfold((e + 1) as nat);
            assert(y2 / pow2(e) == y / pow2((n - 1 - j) as nat));
            assert(s2[j] == s[j]);
        };
        lemma_binary_value_of_bits(s2, y2);
        lemma_div_basics(y as int);
        assert(s.last() == s[n - 1]);
        assert(y / pow2(0) == y);
        assert(binary_value(s) == 2 * binary_value(s2) + (if s.last() == 49 {
            1nat
        } else {
            0nat
        }));
    }
}

/// Bit i of a byte is the parity of the quotient by 2^i.
proof fn lemma_bit_nat_u8(y: u8, i: u8)
    requires
        i < 8,
    ensures
        bit8(y, i) <==> ((y as nat) / pow2(i as nat) % 2 == 1),
{
    lemma_u8_shr_is_div(y, i);
    assert(((y >> i) & 1 == 1) <==> ((y >> i) % 2 == 1)) by (bit_vector);
}

/// Bit i of a 16-bit value is the parity of the quotient by 2^i.
proof fn lemma_bit_nat_u16(y: u16, i: u16)
    requires
        i < 16,
    ensures
        bit16(y, i) <==> ((y as nat) / pow2(i as nat) % 2 == 1),
{
    lemma_u16_shr_is_div(y, i);
    assert(((y >> i) & 1 == 1) <==> ((y >> i) % 2 == 1)) by (bit_vector);
}

/// Bit i of a 32-bit value is the parity of the quotient by 2^i.
proof fn lemma_bit_nat_u32(y: u32, i: u32)
    requires
        i < 32,
    ensures
        bit32(y, i) <==> ((y as nat) / pow2(i as nat) % 2 == 1),
{
    lemma_u32_shr_is_div(y, i);
    assert(((y >> i) & 1 == 1) <==> ((y >> i) % 2 == 1)) by (bit_vector);
}

/// Bit i of a 64-bit value is the parity of the quotient by 2^i.
proof fn lemma_bit_nat_u64(y: u64, i: u64)
    requires
        i < 64,
    ensures
        bit64(y, i) <==> ((y as nat) / pow2(i as nat) % 2 == 1),
{
    lemma_u64_shr_is_div(y, i);
    assert(((y >> i) & 1 == 1) <==> ((y >> i) % 2 == 1)) by (bit_vector);
}

/// Bit i of a 128-bit value is the parity of the quotient by 2^i.
proof fn lemma_bit_nat_u128(y: u128, i: u128)
    requires
        i < 128,
    ensures
        bit128(y, i) <==> ((y as nat) / pow2(i as nat) % 2 == 1),
{
    lemma_u128_shr_is_div(y, i);
    assert(((y >> i) & 1 == 1) <==> ((y >> i) % 2 == 1)) by (bit_vector);
}

/// Bit mirroring in its textual form: the 8-character binary rendering of
/// the reversed byte is the reversed rendering of the byte.
pub proof fn lemma_mirror_digits_u8(x: u8)
    ensures
        bin_digits8(rev8(x)) =~= bin_digits8(x).reverse(),
{
    lemma_rev8_mirror(x);
    assert forall|j: int| 0 <= j < 8 implies bin_digits8(rev8(x))[j] == bin_digits8(x).reverse()[j] by {
        assert(bin_digits8(x).reverse()[j] == bin_digits8(x)[7 - j]);
        assert(bit8(rev8(x), (7 - j) as u8) == bit8(x, j as u8));
    };
}

/// Bit mirroring in its textual form for 16-bit values.
pub proof fn lemma_mirror_digits_u16(x: u16)
    ensures
        bin_digits16(rev16(x)) =~= bin_digits16(x).reverse(),
{
    lemma_rev16_mirror(x);
    assert forall|j: int| 0 <= j < 16 implies bin_digits16(rev16(x))[j] == bin_digits16(
        x,
    ).reverse()[j] by {
        assert(bin_digits16(x).reverse()[j] == bin_digits16(x)[15 - j]);
        assert(bit16(rev16(x), (15 - j) as u16) == bit16(x, j as u16));
    };
}

/// Bit mirroring in its textual form for 32-bit values.
pub proof fn lemma_mirror_digits_u32(x: u32)
    ensures
        bin_digits32(rev32(x)) =~= bin_digits32(x).reverse(),
{
    lemma_rev32_mirror(x);
    assert forall|j: int| 0 <= j < 32 implies bin_digits32(rev32(x))[j] == bin_digits32(
        x,
    ).reverse()[j] by {
        assert(bin_digits32(x).reverse()[j] == bin_digits32(x)[31 - j]);
        assert(bit32(rev32(x), (31 - j) as u32) == bit32(x, j as u32));
    };
}

/// Bit mirroring in its textual form for 64-bit values.
pub proof fn lemma_mirror_digits_u64(x: u64)
    ensures
        bin_digits64(rev64(x)) =~= bin_digits64(x).reverse(),
{
    lemma_rev64_mirror(x);
    assert forall|j: int| 0 <= j < 64 implies bin_digits64(rev64(x))[j] == bin_digits64(
        x,
    ).reverse()[j] by {
        assert(bin_digits64(x).reverse()[j] == bin_digits64(x)[63 - j]);
        assert(bit64(rev64(x), (63 - j) as u64) == bit64(x, j as u64));
    };
}

/// Bit mirroring in its textual form for 128-bit values.
pub proof fn lemma_mirror_digits_u128(x: u128)
    ensures
        bin_digits128(rev128(x)) =~= bin_digits128(x).reverse(),
{
    lemma_rev128_mirror(x);
    assert forall|j: int| 0 <= j < 128 implies bin_digits128(rev128(x))[j] == bin_digits128(
        x,
    ).reverse()[j] by {
        assert(bin_digits128(x).reverse()[j] == bin_digits128(x)[127 - j]);
        assert(bit128(rev128(x), (127 - j) as u128) == bit128(x, j as u128));
    };
}

/// Relies on `num::Num::from_str_radix` at `u8` with radix 2, which is
/// std's `u8::from_str_radix`: a nonempty string of binary digits that
/// fits the width parses to the value the digits denote in base 2.
#[verifier::external_body]
fn parse_binary_u8(digits: &Vec<u8>) -> (r: Option<u8>)
    requires
        1 <= digits@.len() <= 8,
        forall|j: int| 0 <= j < digits@.len() ==> digits@[j] == 48 || digits@[j] == 49,
    ensures
        r is Some,
        r->Some_0 as nat == binary_value(digits@),
{
    let s: String = digits.iter().map(|b| *b as char).collect();
    <u8 as num::Num>::from_str_radix(&s, 2).ok()
}

/// Relies on `num::Num::from_str_radix` at `u16` with radix 2, which is
/// std's `u16::from_str_radix`: a nonempty string of binary digits that
/// fits the width parses to the value the digits denote in base 2.
#[verifier::external_body]
fn parse_binary_u16(digits: &Vec<u8>) -> (r: Option<u16>)
    requires
        1 <= digits@.len() <= 16,
        forall|j: int| 0 <= j < digits@.len() ==> digits@[j] == 48 || digits@[j] == 49,
    ensures
        r is Some,
        r->Some_0 as nat == binary_value(digits@),
{
    let s: String = digits.iter().map(|b| *b as char).collect();
    <u16 as num::Num>::from_str_radix(&s, 2).ok()
}

/// Relies on `num::Num::from_str_radix` at `u32` with radix 2, which is
/// std's `u32::from_str_radix`: a nonempty string of binary digits that
/// fits the width parses to the value the digits denote in base 2.
#[verifier::external_body]
fn parse_binary_u32(digits: &Vec<u8>) -> (r: Option<u32>)
    requires
        1 <= digits@.len() <= 32,
        forall|j: int| 0 <= j < digits@.len() ==> digits@[j] == 48 || digits@[j] == 49,
    ensures
        r is Some,
        r->Some_0 as nat == binary_value(digits@),
{
    let s: String = digits.iter().map(|b| *b as char).collect();
    <u32 as num::Num>::from_str_radix(&s, 2).ok()
}

/// Relies on `num::Num::from_str_radix` at `u64` with radix 2, which is
/// std's `u64::from_str_radix`: a nonempty string of binary digits that
/// fits the width parses to the value the digits denote in base 2.
#[verifier::external_body]
fn parse_binary_u64(digits: &Vec<u8>) -> (r: Option<u64>)
    requires
        1 <= digits@.len() <= 64,
        forall|j: int| 0 <= j < digits@.len() ==> digits@[j] == 48 || digits@[j] == 49,
    ensures
        r is Some,
        r->Some_0 as nat == binary_value(digits@),
{
    let s: String = digits.iter().map(|b| *b as char).collect();
    <u64 as num::Num>::from_str_radix(&s, 2).ok()
}

/// Relies on `num::Num::from_str_radix` at `u128` with radix 2, which is
/// std's `u128::from_str_radix`: a nonempty string of binary digits that
/// fits the width parses to the value the digits denote in base 2.
#[verifier::external_body]
fn parse_binary_u128(digits: &Vec<u8>) -> (r: Option<u128>)
    requires
        1 <= digits@.len() <= 128,
        forall|j: int| 0 <= j < digits@.len() ==> digits@[j] == 48 || digits@[j] == 49,
    ensures
        r is Some,
        r->Some_0 as nat == binary_value(digits@),
{
    let s: String = digits.iter().map(|b| *b as char).collect();
    <u128 as num::Num>::from_str_radix(&s, 2).ok()
}

impl ReverseBitsNaive for u8 {
    fn reverse_bits_naive(self) -> (r: u8) {
        let mut digits: Vec<u8> = Vec::new();
        let mut j: usize = 0;
        while j < 8
            invariant
                j <= 8,
                digits@.len() == j,
                forall|k: int| 0 <= k < j ==> digits@[k] == bin_digits8(self)[k],
            decreases 8 - j,
        {
            let sh: u8 = 7 - (j as u8);
            let d: u8 = if (self >> sh) & 1 == 1 {
                49
            } else {
                48
            };
            digits.push(d);
            j += 1;
        }
        let mut rd: Vec<u8> = Vec::new();
        let mut q: usize = 0;
        while q < 8
            invariant
                q <= 8,
                rd@.len() == q,
                digits@.len() == 8,
                forall|k: int| 0 <= k < 8 ==> digits@[k] == bin_digits8(self)[k],
                forall|k: int| 0 <= k < q ==> rd@[k] == digits@[7 - k],
            decreases 8 - q,
        {
            rd.push(digits[7 - q]);
            q += 1;
        }
        let p = parse_binary_u8(&rd);
        proof {
            let y: u8 = rev8(self);
            lemma_rev8_mirror(self);
            assert forall|k: int| 0 <= k < 8 implies ((#[trigger] rd@[k]) == 49 <==> ((y as nat)
                / pow2((7 - k) as nat) % 2 == 1)) by {
                assert(rd@[k] == bin_digits8(self)[7 - k]);
                assert(bit8(y, (7 - k) as u8) == bit8(self, k as u8));
                lemma_bit_nat_u8(y, (7 - k) as u8);
            };
            lemma2_to64();
            lemma_binary_value_of_bits(rd@, y as nat);
        }
        match p {
            Some(v) => v,
            None => vstd::pervasive::unreached(),
        }
    }
}

impl ReverseBitsNaive for u16 {
    fn reverse_bits_naive(self) -> (r: u16) {
        let mut digits: Vec<u8> = Vec::new();
        let mut j: usize = 0;
        while j < 16
            invariant
                j <= 16,
                digits@.len() == j,
                forall|k: int| 0 <= k < j ==> digits@[k] == bin_digits16(self)[k],
            decreases 16 - j,
        {
            let sh: u16 = 15 - (j as u16);
            let d: u8 = if (self >> sh) & 1 == 1 {
                49
            } else {
                48
            };
            digits.push(d);
            j += 1;
        }
        let mut rd: Vec<u8> = Vec::new();
        let mut q: usize = 0;
        while q < 16
            invariant
                q <= 16,
                rd@.len() == q,
                digits@.len() == 16,
                forall|k: int| 0 <= k < 16 ==> digits@[k] == bin_digits16(self)[k],
                forall|k: int| 0 <= k < q ==> rd@[k] == digits@[15 - k],
            decreases 16 - q,
        {
            rd.push(digits[15 - q]);
            q += 1;
        }
        let p = parse_binary_u16(&rd);
        proof {
            let y: u16 = rev16(self);
            lemma_rev16_mirror(self);
            assert forall|k: int| 0 <= k < 16 implies ((#[trigger] rd@[k]) == 49 <==> ((y as nat)
                / pow2((15 - k) as nat) % 2 == 1)) by {
                assert(rd@[k] == bin_digits16(self)[15 - k]);
                assert(bit16(y, (15 - k) as u16) == bit16(self, k as u16));
                lemma_bit_nat_u16(y, (15 - k) as u16);
            };
            lemma2_to64();
            lemma_binary_value_of_bits(rd@, y as nat);
        }
        match p {
            Some(v) => v,
            None => vstd::pervasive::unreached(),
        }
    }
}

impl ReverseBitsNaive for u32 {
    fn reverse_bits_naive(self) -> (r: u32) {
        let mut digits: Vec<u8> = Vec::new();
        let mut j: usize = 0;
        while j < 32
            invariant
                j <= 32,
                digits@.len() == j,
                forall|k: int| 0 <= k < j ==> digits@[k] == bin_digits32(self)[k],
            decreases 32 - j,
        {
            let sh: u32 = 31 - (j as u32);
            let d: u8 = if (self >> sh) & 1 == 1 {
                49
            } else {
                48
            };
            digits.push(d);
            j += 1;
        }
        let mut rd: Vec<u8> = Vec::new();
        let mut q: usize = 0;
        while q < 32
            invariant
                q <= 32,
                rd@.len() == q,
                digits@.len() == 32,
                forall|k: int| 0 <= k < 32 ==> digits@[k] == bin_digits32(self)[k],
                forall|k: int| 0 <= k < q ==> rd@[k] == digits@[31 - k],
            decreases 32 - q,
        {
            rd.push(digits[31 - q]);
            q += 1;
        }
        let p = parse_binary_u32(&rd);
        proof {
            let y: u32 = rev32(self);
            lemma_rev32_mirror(self);
            assert forall|k: int| 0 <= k < 32 implies ((#[trigger] rd@[k]) == 49 <==> ((y as nat)
                / pow2((31 - k) as nat) % 2 == 1)) by {
                assert(rd@[k] == bin_digits32(self)[31 - k]);
                assert(bit32(y, (31 - k) as u32) == bit32(self, k as u32));
                lemma_bit_nat_u32(y, (31 - k) as u32);
            };
            lemma2_to64();
            lemma_binary_value_of_bits(rd@, y as nat);
        }
        match p {
            Some(v) => v,
            None => vstd::pervasive::unreached(),
        }
    }
}

impl ReverseBitsNaive for u64 {
    fn reverse_bits_naive(self) -> (r: u64) {
        let mut digits: Vec<u8> = Vec::new();
        let mut j: usize = 0;
        while j < 64
            invariant
                j <= 64,
                digits@.len() == j,
                forall|k: int| 0 <= k < j ==> digits@[k] == bin_digits64(self)[k],
            decreases 64 - j,
        {
            let sh: u64 = 63 - (j as u64);
            let d: u8 = if (self >> sh) & 1 == 1 {
                49
            } else {
                48
            };
            digits.push(d);
            j += 1;
        }
        let mut rd: Vec<u8> = Vec::new();
        let mut q: usize = 0;
        while q < 64
            invariant
                q <= 64,
                rd@.len() == q,
                digits@.len() == 64,
                forall|k: int| 0 <= k < 64 ==> digits@[k] == bin_digits64(self)[k],
                forall|k: int| 0 <= k < q ==> rd@[k] == digits@[63 - k],
            decreases 64 - q,
        {
            rd.push(digits[63 - q]);
            q += 1;
        }
        let p = parse_binary_u64(&rd);
        proof {
            let y: u64 = rev64(self);
            lemma_rev64_mirror(self);
            assert forall|k: int| 0 <= k < 64 implies ((#[trigger] rd@[k]) == 49 <==> ((y as nat)
                / pow2((63 - k) as nat) % 2 == 1)) by {
                assert(rd@[k] == bin_digits64(self)[63 - k]);
                assert(bit64(y, (63 - k) as u64) == bit64(self, k as u64));
                lemma_bit_nat_u64(y, (63 - k) as u64);
            };
            lemma2_to64();
            lemma_binary_value_of_bits(rd@, y as nat);
        }
        match p {
            Some(v) => v,
            None => vstd::pervasive::unreached(),
        }
    }
}

impl ReverseBitsNaive for u128 {
    fn reverse_bits_naive(self) -> (r: u128) {
        let mut digits: Vec<u8> = Vec::new();
        let mut j: usize = 0;
        while j < 128
            invariant
                j <= 128,
                digits@.len() == j,
                forall|k: int| 0 <= k < j ==> digits@[k] == bin_digits128(self)[k],
            decreases 128 - j,
        {
            let sh: u128 = 127 - (j as u128);
            let d: u8 = if (self >> sh) & 1 == 1 {
                49
            } else {
                48
            };
            digits.push(d);
            j += 1;
        }
        let mut rd: Vec<u8> = Vec::new();
        let mut q: usize = 0;
        while q < 128
            invariant
                q <= 128,
                rd@.len() == q,
                digits@.len() == 128,
                forall|k: int| 0 <= k < 128 ==> digits@[k] == bin_digits128(self)[k],
                forall|k: int| 0 <= k < q ==> rd@[k] == digits@[127 - k],
            decreases 128 - q,
        {
            rd.push(digits[127 - q]);
            q += 1;
        }
        let p = parse_binary_u128(&rd);
        proof {
            let y: u128 = rev128(self);
            lemma_rev128_mirror(self);
            assert forall|k: int| 0 <= k < 128 implies ((#[trigger] rd@[k]) == 49 <==> ((y as nat)
                / pow2((127 - k) as nat) % 2 == 1)) by {
                assert(rd@[k] == bin_digits128(self)[127 - k]);
                assert(bit128(y, (127 - k) as u128) == bit128(self, k as u128));
                lemma_bit_nat_u128(y, (127 - k) as u128);
            };
            lemma2_to64();
            lemma_pow2_adds(64, 64);
            assert(pow2(128) == 0x100000000000000000000000000000000);
            lemma_binary_value_of_bits(rd@, y as nat);
        }
        match p {
            Some(v) => v,
            None => vstd::pervasive::unreached(),
        }
    }
}

} // verus!
