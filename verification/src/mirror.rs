//! The mathematical model of bit reversal: one spec function per width,
//! defined by composing half-width reversals down to an explicit 8-bit
//! bit permutation, together with the lemmas every strategy is proved
//! against (bit-mirror characterization and involution).
use vstd::prelude::*;

verus! {

/// Reversal of the low 4 bits of a nibble (the high 4 bits must be zero):
/// bit 0 trades places with bit 3, bit 1 with bit 2.
pub open spec fn rev4(x: u32) -> u32 {
    ((x & 0x1) << 3) | ((x & 0x2) << 1) | ((x & 0x4) >> 1) | ((x & 0x8) >> 3)
}

/// Reversal of the bit order of a byte: bit k moves to position 7 - k.
pub open spec fn rev8(x: u8) -> u8 {
    ((x & 0x01) << 7) | ((x & 0x02) << 5) | ((x & 0x04) << 3) | ((x & 0x08) << 1)
        | ((x & 0x10) >> 1) | ((x & 0x20) >> 3) | ((x & 0x40) >> 5) | ((x & 0x80) >> 7)
}

/// Reversal of a 16-bit value: the low byte, bit-reversed, becomes the
/// high byte, and the high byte, bit-reversed, becomes the low byte.
pub open spec fn rev16(x: u16) -> u16 {
    ((rev8((x & 0xFF) as u8) as u16) << 8) | (rev8((x >> 8) as u8) as u16)
}

/// Reversal of a 32-bit value through its two 16-bit halves.
pub open spec fn rev32(x: u32) -> u32 {
    ((rev16((x & 0xFFFF) as u16) as u32) << 16) | (rev16((x >> 16) as u16) as u32)
}

/// Reversal of a 64-bit value through its two 32-bit halves.
pub open spec fn rev64(x: u64) -> u64 {
    ((rev32((x & 0xFFFF_FFFF) as u32) as u64) << 32) | (rev32((x >> 32) as u32) as u64)
}

/// Reversal of a 128-bit value through its two 64-bit halves.
pub open spec fn rev128(x: u128) -> u128 {
    ((rev64((x & 0xFFFF_FFFF_FFFF_FFFF) as u64) as u128) << 64)
        | (rev64((x >> 64) as u64) as u128)
}

/// Bit i of a byte, as a boolean.
pub open spec fn bit8(x: u8, i: u8) -> bool {
    (x >> i) & 1 == 1
}

/// Bit i of a 16-bit value, as a boolean.
pub open spec fn bit16(x: u16, i: u16) -> bool {
    (x >> i) & 1 == 1
}

/// Bit i of a 32-bit value, as a boolean.
pub open spec fn bit32(x: u32, i: u32) -> bool {
    (x >> i) & 1 == 1
}

/// Bit i of a 64-bit value, as a boolean.
pub open spec fn bit64(x: u64, i: u64) -> bool {
    (x >> i) & 1 == 1
}

/// Bit i of a 128-bit value, as a boolean.
pub open spec fn bit128(x: u128, i: u128) -> bool {
    (x >> i) & 1 == 1
}

/// Bit-mirror characterization: bit i of `rev8(x)` is bit 7 - i of x.
pub proof fn lemma_rev8_mirror(x: u8)
    by (bit_vector)
    ensures
        forall|i: u8| i < 8 ==> #[trigger] bit8(rev8(x), i) == bit8(x, (7 - i) as u8),
{
}

/// Reversing a byte twice gives the byte back.
pub proof fn lemma_rev8_involution(x: u8)
    by (bit_vector)
    ensures
        rev8(rev8(x)) == x,
{
}

/// Bit-mirror characterization: bit i of `rev16(x)` is bit 15 - i of x.
pub proof fn lemma_rev16_mirror(x: u16)
    by (bit_vector)
    ensures
        forall|i: u16| i < 16 ==> #[trigger] bit16(rev16(x), i) == bit16(x, (15 - i) as u16),
{
}

/// Reversing a 16-bit value twice gives the value back.
pub proof fn lemma_rev16_involution(x: u16)
    by (bit_vector)
    ensures
        rev16(rev16(x)) == x,
{
}

/// Bit-mirror characterization: bit i of `rev32(x)` is bit 31 - i of x.
pub proof fn lemma_rev32_mirror(x: u32)
    by (bit_vector)
    ensures
        forall|i: u32| i < 32 ==> #[trigger] bit32(rev32(x), i) == bit32(x, (31 - i) as u32),
{
}

/// Reversing a 32-bit value twice gives the value back.
pub proof fn lemma_rev32_involution(x: u32)
    by (bit_vector)
    ensures
        rev32(rev32(x)) == x,
{
}

/// Bit-mirror characterization: bit i of `rev64(x)` is bit 63 - i of x.
pub proof fn lemma_rev64_mirror(x: u64)
    by (bit_vector)
    ensures
        forall|i: u64| i < 64 ==> #[trigger] bit64(rev64(x), i) == bit64(x, (63 - i) as u64),
{
}

/// Reversing a 64-bit value twice gives the value back.
pub proof fn lemma_rev64_involution(x: u64)
    by (bit_vector)
    ensures
        rev64(rev64(x)) == x,
{
}

/// Bit-mirror characterization: bit i of `rev128(x)` is bit 127 - i of x.
pub proof fn lemma_rev128_mirror(x: u128)
    by (bit_vector)
    ensures
        forall|i: u128| i < 128 ==> #[trigger] bit128(rev128(x), i) == bit128(x, (127 - i) as u128),
{
}

/// Reversing a 128-bit value twice gives the value back.
pub proof fn lemma_rev128_involution(x: u128)
    by (bit_vector)
    ensures
        rev128(rev128(x)) == x,
{
}

/// Reversing a signed 8-bit value twice, through its unsigned bit
/// pattern, gives the value back.
pub proof fn lemma_rev_i8_involution(x: i8)
    by (bit_vector)
    ensures
        (rev8(((rev8((x as u8)) as i8) as u8)) as i8) == x,
{
}

/// Reversing a signed 16-bit value twice gives the value back.
pub proof fn lemma_rev_i16_involution(x: i16)
    by (bit_vector)
    ensures
        (rev16(((rev16((x as u16)) as i16) as u16)) as i16) == x,
{
}

/// Reversing a signed 32-bit value twice gives the value back.
pub proof fn lemma_rev_i32_involution(x: i32)
    by (bit_vector)
    ensures
        (rev32(((rev32((x as u32)) as i32) as u32)) as i32) == x,
{
}

/// Reversing a signed 64-bit value twice gives the value back.
pub proof fn lemma_rev_i64_involution(x: i64)
    by (bit_vector)
    ensures
        (rev64(((rev64((x as u64)) as i64) as u64)) as i64) == x,
{
}

/// Reversing a signed 128-bit value twice gives the value back.
pub proof fn lemma_rev_i128_involution(x: i128)
    by (bit_vector)
    ensures
        (rev128(((rev128((x as u128)) as i128) as u128)) as i128) == x,
{
}

/// Recomposing the bytes of a 16-bit value in reversed byte order, each
/// byte itself bit-reversed, yields the full bit reversal. Byte j of the
/// result must be the bit-reversed byte 1 - j of the input.
pub proof fn lemma_compose_mirrored_u16(x: u16, c0: u8, c1: u8)
    by (bit_vector)
    requires
        c0 == rev8((x >> 8) as u8),
        c1 == rev8(x as u8),
    ensures
        (c0 as u16) | ((c1 as u16) << 8) == rev16(x),
{
}

/// Byte recomposition for 32-bit values: byte j of the result is the
/// bit-reversed byte 3 - j of the input.
pub proof fn lemma_compose_mirrored_u32(x: u32, c0: u8, c1: u8, c2: u8, c3: u8)
    by (bit_vector)
    requires
        c0 == rev8((x >> 24) as u8),
        c1 == rev8((x >> 16) as u8),
        c2 == rev8((x >> 8) as u8),
        c3 == rev8(x as u8),
    ensures
        (c0 as u32) | ((c1 as u32) << 8) | ((c2 as u32) << 16) | ((c3 as u32) << 24) == rev32(x),
{
}

/// Byte recomposition for 64-bit values: byte j of the result is the
/// bit-reversed byte 7 - j of the input.
pub proof fn lemma_compose_mirrored_u64(
    x: u64,
    c0: u8,
    c1: u8,
    c2: u8,
    c3: u8,
    c4: u8,
    c5: u8,
    c6: u8,
    c7: u8,
)
    by (bit_vector)
    requires
        c0 == rev8((x >> 56) as u8),
        c1 == rev8((x >> 48) as u8),
        c2 == rev8((x >> 40) as u8),
        c3 == rev8((x >> 32) as u8),
        c4 == rev8((x >> 24) as u8),
        c5 == rev8((x >> 16) as u8),
        c6 == rev8((x >> 8) as u8),
        c7 == rev8(x as u8),
    ensures
        (c0 as u64) | ((c1 as u64) << 8) | ((c2 as u64) << 16) | ((c3 as u64) << 24)
            | ((c4 as u64) << 32) | ((c5 as u64) << 40) | ((c6 as u64) << 48) | (
        (c7 as u64) << 56) == rev64(x),
{
}

/// Byte recomposition for 128-bit values: byte j of the result is the
/// bit-reversed byte 15 - j of the input.
pub proof fn lemma_compose_mirrored_u128(
    x: u128,
    c0: u8,
    c1: u8,
    c2: u8,
    c3: u8,
    c4: u8,
    c5: u8,
    c6: u8,
    c7: u8,
    c8: u8,
    c9: u8,
    c10: u8,
    c11: u8,
    c12: u8,
    c13: u8,
    c14: u8,
    c15: u8,
)
    by (bit_vector)
    requires
        c0 == rev8((x >> 120) as u8),
        c1 == rev8((x >> 112) as u8),
        c2 == rev8((x >> 104) as u8),
        c3 == rev8((x >> 96) as u8),
        c4 == rev8((x >> 88) as u8),
        c5 == rev8((x >> 80) as u8),
        c6 == rev8((x >> 72) as u8),
        c7 == rev8((x >> 64) as u8),
        c8 == rev8((x >> 56) as u8),
        c9 == rev8((x >> 48) as u8),
        c10 == rev8((x >> 40) as u8),
        c11 == rev8((x >> 32) as u8),
        c12 == rev8((x >> 24) as u8),
        c13 == rev8((x >> 16) as u8),
        c14 == rev8((x >> 8) as u8),
        c15 == rev8(x as u8),
    ensures
        (c0 as u128) | ((c1 as u128) << 8) | ((c2 as u128) << 16) | ((c3 as u128) << 24)
            | ((c4 as u128) << 32) | ((c5 as u128) << 40) | ((c6 as u128) << 48)
            | ((c7 as u128) << 56) | ((c8 as u128) << 64) | ((c9 as u128) << 72)
            | ((c10 as u128) << 80) | ((c11 as u128) << 88) | ((c12 as u128) << 96)
            | ((c13 as u128) << 104) | ((c14 as u128) << 112) | ((c15 as u128) << 120) == rev128(
            x,
        ),
{
}

} // verus!
