// Randomized property tests: for a stream of pseudorandom values per
// width, every strategy agrees with every other, agrees with the
// standard library's native bit reversal, and is an involution.

fn splitmix(state: &mut u64) -> u64 {
    *state = state.wrapping_add(0x9E37_79B9_7F4A_7C15);
    let mut z = *state;
    z = (z ^ (z >> 30)).wrapping_mul(0xBF58_476D_1CE4_E5B9);
    z = (z ^ (z >> 27)).wrapping_mul(0x94D0_49BB_1331_11EB);
    z ^ (z >> 31)
}

#[test]
fn randomized_u8() {
    let mut state: u64 = 0x1234_5678;
    for _ in 0..10_000 {
        let x = splitmix(&mut state) as u8;
        let a = <u8 as bitrev::ReverseBits>::reverse_bits(x);
        let b = <u8 as bitrev::ReverseBitsSimd>::reverse_bits_simd(x);
        let c = <u8 as bitrev::ReverseBitsNaive>::reverse_bits_naive(x);
        let d = <u8 as bitrev::ReverseBitsGpt>::reverse_bits_gpt(x);
        let e = <u8 as bitrev::ReverseBitsLut>::reverse_bits_lut(x);
        assert_eq!(a, x.reverse_bits());
        assert_eq!(a, b);
        assert_eq!(a, c);
        assert_eq!(a, d);
        assert_eq!(a, e);
        assert_eq!(<u8 as bitrev::ReverseBits>::reverse_bits(a), x);
        assert_eq!(<u8 as bitrev::ReverseBitsSimd>::reverse_bits_simd(b), x);
        assert_eq!(<u8 as bitrev::ReverseBitsNaive>::reverse_bits_naive(c), x);
        assert_eq!(<u8 as bitrev::ReverseBitsGpt>::reverse_bits_gpt(d), x);
        assert_eq!(<u8 as bitrev::ReverseBitsLut>::reverse_bits_lut(e), x);
    }
}

#[test]
fn randomized_u16() {
    let mut state: u64 = 0x9E00_11AA;
    for _ in 0..10_000 {
        let x = splitmix(&mut state) as u16;
        let a = <u16 as bitrev::ReverseBits>::reverse_bits(x);
        let b = <u16 as bitrev::ReverseBitsSimd>::reverse_bits_simd(x);
        let c = <u16 as bitrev::ReverseBitsNaive>::reverse_bits_naive(x);
        let d = <u16 as bitrev::ReverseBitsGpt>::reverse_bits_gpt(x);
        let e = <u16 as bitrev::ReverseBitsLut>::reverse_bits_lut(x);
        assert_eq!(a, x.reverse_bits());
        assert_eq!(a, b);
        assert_eq!(a, c);
        assert_eq!(a, d);
        assert_eq!(a, e);
        assert_eq!(<u16 as bitrev::ReverseBits>::reverse_bits(a), x);
        assert_eq!(<u16 as bitrev::ReverseBitsSimd>::reverse_bits_simd(b), x);
        assert_eq!(<u16 as bitrev::ReverseBitsNaive>::reverse_bits_naive(c), x);
        assert_eq!(<u16 as bitrev::ReverseBitsGpt>::reverse_bits_gpt(d), x);
        assert_eq!(<u16 as bitrev::ReverseBitsLut>::reverse_bits_lut(e), x);
    }
}

#[test]
fn randomized_u32() {
    let mut state: u64 = 0xDECA_FBAD;
    for _ in 0..10_000 {
        let x = splitmix(&mut state) as u32;
        let a = <u32 as bitrev::ReverseBits>::reverse_bits(x);
        let b = <u32 as bitrev::ReverseBitsSimd>::reverse_bits_simd(x);
        let c = <u32 as bitrev::ReverseBitsNaive>::reverse_bits_naive(x);
        let d = <u32 as bitrev::ReverseBitsGpt>::reverse_bits_gpt(x);
        let e = <u32 as bitrev::ReverseBitsLut>::reverse_bits_lut(x);
        assert_eq!(a, x.reverse_bits());
        assert_eq!(a, b);
        assert_eq!(a, c);
        assert_eq!(a, d);
        assert_eq!(a, e);
        assert_eq!(<u32 as bitrev::ReverseBits>::reverse_bits(a), x);
        assert_eq!(<u32 as bitrev::ReverseBitsSimd>::reverse_bits_simd(b), x);
        assert_eq!(<u32 as bitrev::ReverseBitsNaive>::reverse_bits_naive(c), x);
        assert_eq!(<u32 as bitrev::ReverseBitsGpt>::reverse_bits_gpt(d), x);
        assert_eq!(<u32 as bitrev::ReverseBitsLut>::reverse_bits_lut(e), x);
    }
}

#[test]
fn randomized_u64() {
    let mut state: u64 = 0x0BAD_F00D_0000_0001;
    for _ in 0..10_000 {
        let x = splitmix(&mut state);
        let a = <u64 as bitrev::ReverseBits>::reverse_bits(x);
        let b = <u64 as bitrev::ReverseBitsSimd>::reverse_bits_simd(x);
        let c = <u64 as bitrev::ReverseBitsNaive>::reverse_bits_naive(x);
        let d = <u64 as bitrev::ReverseBitsGpt>::reverse_bits_gpt(x);
        let e = <u64 as bitrev::ReverseBitsLut>::reverse_bits_lut(x);
        assert_eq!(a, x.reverse_bits());
        assert_eq!(a, b);
        assert_eq!(a, c);
        assert_eq!(a, d);
        assert_eq!(a, e);
        assert_eq!(<u64 as bitrev::ReverseBits>::reverse_bits(a), x);
        assert_eq!(<u64 as bitrev::ReverseBitsSimd>::reverse_bits_simd(b), x);
        assert_eq!(<u64 as bitrev::ReverseBitsNaive>::reverse_bits_naive(c), x);
        assert_eq!(<u64 as bitrev::ReverseBitsGpt>::reverse_bits_gpt(d), x);
        assert_eq!(<u64 as bitrev::ReverseBitsLut>::reverse_bits_lut(e), x);
    }
}

#[test]
fn randomized_u128() {
    let mut state: u64 = 0xFEED_FACE_CAFE_BEEF;
    for _ in 0..10_000 {
        let hi = splitmix(&mut state);
        let lo = splitmix(&mut state);
        let x = ((hi as u128) << 64) | lo as u128;
        let a = <u128 as bitrev::ReverseBits>::reverse_bits(x);
        let b = <u128 as bitrev::ReverseBitsSimd>::reverse_bits_simd(x);
        let c = <u128 as bitrev::ReverseBitsNaive>::reverse_bits_naive(x);
        let d = <u128 as bitrev::ReverseBitsGpt>::reverse_bits_gpt(x);
        let e = <u128 as bitrev::ReverseBitsLut>::reverse_bits_lut(x);
        assert_eq!(a, x.reverse_bits());
        assert_eq!(a, b);
        assert_eq!(a, c);
        assert_eq!(a, d);
        assert_eq!(a, e);
        assert_eq!(<u128 as bitrev::ReverseBits>::reverse_bits(a), x);
        assert_eq!(<u128 as bitrev::ReverseBitsSimd>::reverse_bits_simd(b), x);
        assert_eq!(<u128 as bitrev::ReverseBitsNaive>::reverse_bits_naive(c), x);
        assert_eq!(<u128 as bitrev::ReverseBitsGpt>::reverse_bits_gpt(d), x);
        assert_eq!(<u128 as bitrev::ReverseBitsLut>::reverse_bits_lut(e), x);
    }
}

#[test]
fn randomized_signed() {
    let mut state: u64 = 0x5EED_0F_5EED;
    for _ in 0..10_000 {
        let raw = splitmix(&mut state);
        let x8 = raw as i8;
        assert_eq!(<i8 as bitrev::ReverseBits>::reverse_bits(x8), x8.reverse_bits());
        assert_eq!(
            <i8 as bitrev::ReverseBits>::reverse_bits(<i8 as bitrev::ReverseBits>::reverse_bits(
                x8
            )),
            x8
        );
        let x16 = raw as i16;
        assert_eq!(<i16 as bitrev::ReverseBits>::reverse_bits(x16), x16.reverse_bits());
        let x32 = raw as i32;
        assert_eq!(<i32 as bitrev::ReverseBits>::reverse_bits(x32), x32.reverse_bits());
        let x64 = raw as i64;
        assert_eq!(<i64 as bitrev::ReverseBits>::reverse_bits(x64), x64.reverse_bits());
        let hi = splitmix(&mut state);
        let x128 = (((hi as u128) << 64) | raw as u128) as i128;
        assert_eq!(<i128 as bitrev::ReverseBits>::reverse_bits(x128), x128.reverse_bits());
        assert_eq!(
            <i128 as bitrev::ReverseBits>::reverse_bits(
                <i128 as bitrev::ReverseBits>::reverse_bits(x128)
            ),
            x128
        );
    }
}

#[test]
fn extremes_agree_across_strategies() {
    for x in [0u8, u8::MAX] {
        let a = <u8 as bitrev::ReverseBits>::reverse_bits(x);
        assert_eq!(a, <u8 as bitrev::ReverseBitsSimd>::reverse_bits_simd(x));
        assert_eq!(a, <u8 as bitrev::ReverseBitsNaive>::reverse_bits_naive(x));
        assert_eq!(a, <u8 as bitrev::ReverseBitsGpt>::reverse_bits_gpt(x));
        assert_eq!(a, <u8 as bitrev::ReverseBitsLut>::reverse_bits_lut(x));
    }
    for x in [0u128, u128::MAX] {
        let a = <u128 as bitrev::ReverseBits>::reverse_bits(x);
        assert_eq!(a, <u128 as bitrev::ReverseBitsSimd>::reverse_bits_simd(x));
        assert_eq!(a, <u128 as bitrev::ReverseBitsNaive>::reverse_bits_naive(x));
        assert_eq!(a, <u128 as bitrev::ReverseBitsGpt>::reverse_bits_gpt(x));
        assert_eq!(a, <u128 as bitrev::ReverseBitsLut>::reverse_bits_lut(x));
    }
}
