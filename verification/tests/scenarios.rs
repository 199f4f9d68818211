use bitrev::bytes::reverse_bit_order_bytes;
use bitrev::iterative::nibble_table;
use bitrev::table::reverse_table;

#[test]
fn byte_scenarios() {
    let cases: [(u8, u8); 4] = [(0b0000_0001, 0b1000_0000), (0b1111_0000, 0b0000_1111), (0, 0), (
        255,
        255,
    )];
    for (x, want) in cases {
        assert_eq!(<u8 as bitrev::ReverseBits>::reverse_bits(x), want);
        assert_eq!(<u8 as bitrev::ReverseBitsSimd>::reverse_bits_simd(x), want);
        assert_eq!(<u8 as bitrev::ReverseBitsNaive>::reverse_bits_naive(x), want);
        assert_eq!(<u8 as bitrev::ReverseBitsGpt>::reverse_bits_gpt(x), want);
        assert_eq!(<u8 as bitrev::ReverseBitsLut>::reverse_bits_lut(x), want);
    }
}

#[test]
fn sixteen_bit_scenario() {
    let x: u16 = 0x00FF;
    let want: u16 = 0xFF00;
    assert_eq!(<u16 as bitrev::ReverseBits>::reverse_bits(x), want);
    assert_eq!(<u16 as bitrev::ReverseBitsSimd>::reverse_bits_simd(x), want);
    assert_eq!(<u16 as bitrev::ReverseBitsNaive>::reverse_bits_naive(x), want);
    assert_eq!(<u16 as bitrev::ReverseBitsGpt>::reverse_bits_gpt(x), want);
    assert_eq!(<u16 as bitrev::ReverseBitsLut>::reverse_bits_lut(x), want);
}

#[test]
fn thirty_two_bit_nibble_scenario() {
    assert_eq!(<u32 as bitrev::ReverseBitsGpt>::reverse_bits_gpt(0x0000_0001), 0x8000_0000);
}

#[test]
fn nibble_table_entries() {
    let expected: [u32; 16] = [
        0x0,
        0x8,
        0x4,
        0xC,
        0x2,
        0xA,
        0x6,
        0xE,
        0x1,
        0x9,
        0x5,
        0xD,
        0x3,
        0xB,
        0x7,
        0xF,
    ];
    let t = nibble_table();
    assert_eq!(t.len(), 16);
    for i in 0..16 {
        assert_eq!(t[i], expected[i]);
    }
}

#[test]
fn table_soundness() {
    let t = reverse_table();
    assert_eq!(t.len(), 256);
    for i in 0..256usize {
        // entry i bit-reverses i
        assert_eq!(t[i], (i as u8).reverse_bits());
        // the table applied twice gives the index back
        assert_eq!(t[t[i] as usize], i as u8);
    }
}

#[test]
fn naive_matches_oracle_on_edges() {
    for x in [0u8, 1, 0x5A, u8::MAX] {
        assert_eq!(<u8 as bitrev::ReverseBitsNaive>::reverse_bits_naive(x), x.reverse_bits());
    }
    for x in [0u16, 1, 0xA5F0, u16::MAX] {
        assert_eq!(<u16 as bitrev::ReverseBitsNaive>::reverse_bits_naive(x), x.reverse_bits());
    }
    for x in [0u32, 1, 0xDEAD_BEEF, u32::MAX] {
        assert_eq!(<u32 as bitrev::ReverseBitsNaive>::reverse_bits_naive(x), x.reverse_bits());
    }
    for x in [0u64, 1, 0x0123_4567_89AB_CDEF, u64::MAX] {
        assert_eq!(<u64 as bitrev::ReverseBitsNaive>::reverse_bits_naive(x), x.reverse_bits());
    }
    for x in [0u128, 1, 0x0123_4567_89AB_CDEF_FEDC_BA98_7654_3210, u128::MAX] {
        assert_eq!(<u128 as bitrev::ReverseBitsNaive>::reverse_bits_naive(x), x.reverse_bits());
    }
}

#[test]
fn signed_widths_match_oracle() {
    for x in [i8::MIN, -1, 0, 1, 0x3C, i8::MAX] {
        assert_eq!(<i8 as bitrev::ReverseBits>::reverse_bits(x), x.reverse_bits());
    }
    for x in [i16::MIN, -1, 0, 1, 0x2B3C, i16::MAX] {
        assert_eq!(<i16 as bitrev::ReverseBits>::reverse_bits(x), x.reverse_bits());
    }
    for x in [i32::MIN, -1, 0, 1, -0x1234_5678, i32::MAX] {
        assert_eq!(<i32 as bitrev::ReverseBits>::reverse_bits(x), x.reverse_bits());
    }
    for x in [i64::MIN, -1, 0, 1, -0x0123_4567_89AB_CDEF, i64::MAX] {
        assert_eq!(<i64 as bitrev::ReverseBits>::reverse_bits(x), x.reverse_bits());
    }
    for x in [i128::MIN, -1, 0, 1, i128::MAX] {
        assert_eq!(<i128 as bitrev::ReverseBits>::reverse_bits(x), x.reverse_bits());
    }
}

#[test]
fn byte_vector_reversal() {
    let v: Vec<u8> = vec![0x01, 0xFF, 0x00];
    let r = reverse_bit_order_bytes(&v);
    assert_eq!(r, vec![0x00, 0xFF, 0x80]);
    let empty: Vec<u8> = Vec::new();
    assert_eq!(reverse_bit_order_bytes(&empty), Vec::<u8>::new());
}

#[test]
fn textual_mirror_property_samples() {
    // the binary rendering of the reversed value is the reversed rendering
    let x8: u8 = 0b1011_0010;
    let r8 = <u8 as bitrev::ReverseBits>::reverse_bits(x8);
    let s: String = format!("{:08b}", x8).chars().rev().collect();
    assert_eq!(format!("{:08b}", r8), s);

    let x16: u16 = 0x3C5A;
    let r16 = <u16 as bitrev::ReverseBitsLut>::reverse_bits_lut(x16);
    let s: String = format!("{:016b}", x16).chars().rev().collect();
    assert_eq!(format!("{:016b}", r16), s);

    let x32: u32 = 0xDEAD_BEEF;
    let r32 = <u32 as bitrev::ReverseBitsGpt>::reverse_bits_gpt(x32);
    let s: String = format!("{:032b}", x32).chars().rev().collect();
    assert_eq!(format!("{:032b}", r32), s);

    let x64: u64 = 0x0123_4567_89AB_CDEF;
    let r64 = <u64 as bitrev::ReverseBitsSimd>::reverse_bits_simd(x64);
    let s: String = format!("{:064b}", x64).chars().rev().collect();
    assert_eq!(format!("{:064b}", r64), s);

    let x128: u128 = 0x0123_4567_89AB_CDEF_0F1E_2D3C_4B5A_6978;
    let r128 = <u128 as bitrev::ReverseBitsNaive>::reverse_bits_naive(x128);
    let s: String = format!("{:0128b}", x128).chars().rev().collect();
    assert_eq!(format!("{:0128b}", r128), s);
}
