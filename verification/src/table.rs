//! The lookup-table strategy: a 256-entry table maps every byte to its
//! bit-reversed form. An 8-bit value is one table read; wider values
//! reverse their byte sequence and replace each byte through the table.
//! The table is built once per call from the scalar byte reverser, which
//! establishes its soundness at construction.
use vstd::prelude::*;

use crate::bytes::reverse_byte;
use crate::mirror::lemma_compose_mirrored_u128;
use crate::mirror::lemma_compose_mirrored_u16;
use crate::mirror::lemma_compose_mirrored_u32;
use crate::mirror::lemma_compose_mirrored_u64;
use crate::mirror::rev8;
use crate::BitMirror;
use crate::ReverseBitsLut;

verus! {

/// The byte-reversal lookup table: entry i holds the bit reversal of the
/// byte i, for every i in 0..256.
pub fn reverse_table() -> (t: Vec<u8>)
    ensures
        t@.len() == 256,
        forall|i: int| 0 <= i < 256 ==> t@[i] == rev8(i as u8),
{
    let mut t: Vec<u8> = Vec::new();
    let mut k: u16 = 0;
    while k < 256
        invariant
            k <= 256,
            t@.len() == k,
            forall|i: int| 0 <= i < k ==> t@[i] == rev8(i as u8),
        decreases 256 - k,
    {
        t.push(reverse_byte(k as u8));
        k += 1;
    }
    t
}

/// Table soundness, second half: a table whose entry i is the bit
/// reversal of i maps every entry back to its index when applied twice.
/// (The first half, that entry i bit-reverses i, is the contract of
/// `reverse_table` itself.)
pub proof fn lemma_reverse_table_involution(t: Seq<u8>)
    requires
        t.len() == 256,
        forall|i: int| 0 <= i < 256 ==> t[i] == rev8(i as u8),
    ensures
        forall|i: int| 0 <= i < 256 ==> t[(#[trigger] t[i]) as int] == i as u8,
{
    assert forall|i: int| 0 <= i < 256 implies t[(#[trigger] t[i]) as int] == i as u8 by {
        crate::mirror::lemma_rev8_involution(i as u8);
        assert(t[rev8(i as u8) as int] == rev8(rev8(i as u8)));
    };
}

/// Reverses a byte sequence and replaces each byte by its table entry:
/// the byte-vector step the wide table-lookup widths share.
fn table_mirror_bytes(v: &Vec<u8>, t: &Vec<u8>) -> (r: Vec<u8>)
    requires
        t@.len() == 256,
        forall|i: int| 0 <= i < 256 ==> t@[i] == rev8(i as u8),
    ensures
        r@.len() == v@.len(),
        forall|j: int| 0 <= j < v@.len() ==> r@[j] == rev8(v@[v@.len() - 1 - j]),
{
    let n = v.len();
    let mut r: Vec<u8> = Vec::new();
    let mut j: usize = 0;
    while j < n
        invariant
            j <= n,
            n == v@.len(),
            r@.len() == j,
            t@.len() == 256,
            forall|i: int| 0 <= i < 256 ==> t@[i] == rev8(i as u8),
            forall|k: int| 0 <= k < j ==> r@[k] == rev8(v@[n - 1 - k]),
        decreases n - j,
    {
        let b = v[n - 1 - j];
        r.push(t[b as usize]);
        j += 1;
    }
    r
}

impl ReverseBitsLut for u8 {
    fn reverse_bits_lut(self) -> (r: u8) {
        let t = reverse_table();
        t[self as usize]
    }
}

impl ReverseBitsLut for u16 {
    fn reverse_bits_lut(self) -> (r: u16) {
        let t = reverse_table();
        let b0 = #[verifier::truncate] (self as u8);
        let b1 = #[verifier::truncate] ((self >> 8) as u8);
        let c0 = t[b1 as usize];
        let c1 = t[b0 as usize];
        proof {
            lemma_compose_mirrored_u16(self, c0, c1);
        }
        (c0 as u16) | ((c1 as u16) << 8)
    }
}

impl ReverseBitsLut for u32 {
    fn reverse_bits_lut(self) -> (r: u32) {
        let t = reverse_table();
        let b0 = #[verifier::truncate] (self as u8);
        let b1 = #[verifier::truncate] ((self >> 8) as u8);
        let b2 = #[verifier::truncate] ((self >> 16) as u8);
        let b3 = #[verifier::truncate] ((self >> 24) as u8);
        let c0 = t[b3 as usize];
        let c1 = t[b2 as usize];
        let c2 = t[b1 as usize];
        let c3 = t[b0 as usize];
        proof {
            lemma_compose_mirrored_u32(self, c0, c1, c2, c3);
        }
        (c0 as u32) | ((c1 as u32) << 8) | ((c2 as u32) << 16) | ((c3 as u32) << 24)
    }
}

impl ReverseBitsLut for u64 {
    fn reverse_bits_lut(self) -> (r: u64) {
        let t = reverse_table();
        let mut bs: Vec<u8> = Vec::new();
        bs.push(#[verifier::truncate] (self as u8));
        bs.push(#[verifier::truncate] ((self >> 8) as u8));
        bs.push(#[verifier::truncate] ((self >> 16) as u8));
        bs.push(#[verifier::truncate] ((self >> 24) as u8));
        bs.push(#[verifier::truncate] ((self >> 32) as u8));
        bs.push(#[verifier::truncate] ((self >> 40) as u8));
        bs.push(#[verifier::truncate] ((self >> 48) as u8));
        bs.push(#[verifier::truncate] ((self >> 56) as u8));
        let m = table_mirror_bytes(&bs, &t);
        let c0 = m[0];
        let c1 = m[1];
        let c2 = m[2];
        let c3 = m[3];
        let c4 = m[4];
        let c5 = m[5];
        let c6 = m[6];
        let c7 = m[7];
        proof {
            lemma_compose_mirrored_u64(self, c0, c1, c2, c3, c4, c5, c6, c7);
        }
        (c0 as u64) | ((c1 as u64) << 8) | ((c2 as u64) << 16) | ((c3 as u64) << 24) | ((c4
            as u64) << 32) | ((c5 as u64) << 40) | ((c6 as u64) << 48) | ((c7 as u64) << 56)
    }
}

impl ReverseBitsLut for u128 {
    fn reverse_bits_lut(self) -> (r: u128) {
        let t = reverse_table();
        let mut bs: Vec<u8> = Vec::new();
        bs.push(#[verifier::truncate] (self as u8));
        bs.push(#[verifier::truncate] ((self >> 8) as u8));
        bs.push(#[verifier::truncate] ((self >> 16) as u8));
        bs.push(#[verifier::truncate] ((self >> 24) as u8));
        bs.push(#[verifier::truncate] ((self >> 32) as u8));
        bs.push(#[verifier::truncate] ((self >> 40) as u8));
        bs.push(#[verifier::truncate] ((self >> 48) as u8));
        bs.push(#[verifier::truncate] ((self >> 56) as u8));
        bs.push(#[verifier::truncate] ((self >> 64) as u8));
        bs.push(#[verifier::truncate] ((self >> 72) as u8));
        bs.push(#[verifier::truncate] ((self >> 80) as u8));
        bs.push(#[verifier::truncate] ((self >> 88) as u8));
        bs.push(#[verifier::truncate] ((self >> 96) as u8));
        bs.push(#[verifier::truncate] ((self >> 104) as u8));
        bs.push(#[verifier::truncate] ((self >> 112) as u8));
        bs.push(#[verifier::truncate] ((self >> 120) as u8));
        let m = table_mirror_bytes(&bs, &t);
        let c0 = m[0];
        let c1 = m[1];
        let c2 = m[2];
        let c3 = m[3];
        let c4 = m[4];
        let c5 = m[5];
        let c6 = m[6];
        let c7 = m[7];
        let c8 = m[8];
        let c9 = m[9];
        let c10 = m[10];
        let c11 = m[11];
        let c12 = m[12];
        let c13 = m[13];
        let c14 = m[14];
        let c15 = m[15];
        proof {
            lemma_compose_mirrored_u128(
                self,
                c0,
                c1,
                c2,
                c3,
                c4,
                c5,
                c6,
                c7,
                c8,
                c9,
                c10,
                c11,
                c12,
                c13,
                c14,
                c15,
            );
        }
        (c0 as u128) | ((c1 as u128) << 8) | ((c2 as u128) << 16) | ((c3 as u128) << 24) | ((c4
            as u128) << 32) | ((c5 as u128) << 40) | ((c6 as u128) << 48) | ((c7 as u128) << 56)
            | ((c8 as u128) << 64) | ((c9 as u128) << 72) | ((c10 as u128) << 80) | ((c11
            as u128) << 88) | ((c12 as u128) << 96) | ((c13 as u128) << 104) | ((c14 as u128)
            << 112) | ((c15 as u128) << 120)
    }
}

} // verus!
