use poui::{Poui, Shorten, Widen};

#[test]
fn add_examples_from_the_docs() {
    assert_eq!(Poui(128u8) + Poui(64u8), Poui(192u8));
    assert_eq!(Poui(128u8) + Poui(128u8), Poui(0u8));
    assert_eq!(Poui(64i8) + Poui(64i8), Poui(-128i8));
}

#[test]
fn add_matches_wrapped_sum_for_every_u8_pair() {
    for a in 0..=255u8 {
        for b in 0..=255u8 {
            let expected = ((a as u32 + b as u32) % 256) as u8;
            assert_eq!(Poui(a) + Poui(b), Poui(expected));
            assert_eq!(Poui(a) + Poui(b), Poui(b) + Poui(a));
        }
        assert_eq!(Poui(a) + Poui(0u8), Poui(a));
    }
}

#[test]
fn add_matches_wrapped_sum_for_every_i8_pair() {
    for a in -128..=127i8 {
        for b in -128..=127i8 {
            let exact = a as i32 + b as i32;
            let expected = ((exact + 128).rem_euclid(256) - 128) as i8;
            assert_eq!(Poui(a) + Poui(b), Poui(expected));
            assert_eq!(Poui(a) + Poui(b), Poui(b) + Poui(a));
        }
        assert_eq!(Poui(a) + Poui(0i8), Poui(a));
    }
}

#[test]
fn mul_matches_floored_product_for_every_u8_pair() {
    for a in 0..=255u8 {
        for b in 0..=255u8 {
            let expected = ((a as u32 * b as u32) / 256) as u8;
            assert_eq!(Poui(a) * Poui(b), Poui(expected));
        }
        assert_eq!(Poui(a) * Poui(0u8), Poui(0u8));
    }
}

#[test]
fn mul_matches_floored_product_for_every_i8_pair() {
    for a in -128..=127i8 {
        for b in -128..=127i8 {
            let expected = (a as i32 * b as i32).div_euclid(256) as i8;
            assert_eq!(Poui(a) * Poui(b), Poui(expected));
        }
        assert_eq!(Poui(a) * Poui(0i8), Poui(0i8));
    }
}

#[test]
fn signed_mul_rounds_towards_negative_infinity() {
    assert_eq!(Poui(-1i8) * Poui(1i8), Poui(-1i8));
    assert_eq!(Poui(-1i16) * Poui(1i16), Poui(-1i16));
    assert_eq!(Poui(-1i64) * Poui(1i64), Poui(-1i64));
}

#[test]
fn signed_mul_extremes() {
    assert_eq!(Poui(i8::MIN) * Poui(i8::MIN), Poui(64i8));
    assert_eq!(Poui(i8::MIN) * Poui(i8::MAX), Poui(-64i8));
    assert_eq!(Poui(64i8) * Poui(64i8), Poui(16i8));
    assert_eq!(Poui(i64::MIN) * Poui(i64::MIN), Poui(1i64 << 62));
    assert_eq!(Poui(i32::MIN) * Poui(i32::MAX), Poui(-(1i32 << 30)));
}

#[test]
fn unsigned_mul_largest() {
    assert_eq!(Poui(u8::MAX) * Poui(u8::MAX), Poui(254u8));
    assert_eq!(Poui(u16::MAX) * Poui(u16::MAX), Poui(65534u16));
    assert_eq!(Poui(u32::MAX) * Poui(u32::MAX), Poui(u32::MAX - 1));
    assert_eq!(Poui(u64::MAX) * Poui(u64::MAX), Poui(u64::MAX - 1));
}

#[test]
fn smallest_positive_squared_is_zero_for_every_signed_width() {
    assert_eq!(Poui(1i8) * Poui(1i8), Poui(0i8));
    assert_eq!(Poui(1i32) * Poui(1i32), Poui(0i32));
}

#[test]
fn wraparound_at_the_edges() {
    assert_eq!(Poui(u128::MAX) + Poui(u128::MAX), Poui(u128::MAX - 1));
    assert_eq!(Poui(i128::MIN) + Poui(i128::MIN), Poui(0i128));
    assert_eq!(Poui(i16::MIN) + Poui(-1i16), Poui(i16::MAX));
}

#[test]
fn widen_keeps_the_value() {
    assert_eq!(200u8.widen(), 200u16);
    assert_eq!(0xFFFF_FFFFu32.widen(), 0xFFFF_FFFFu64);
    assert_eq!(u64::MAX.widen(), u64::MAX as u128);
    assert_eq!((-5i8).widen(), -5i16);
    assert_eq!(i64::MIN.widen(), i64::MIN as i128);
    assert_eq!(u128::MAX.widen(), u128::MAX);
    assert_eq!(i128::MIN.widen(), i128::MIN);
}

#[test]
fn shorten_takes_the_top_half() {
    assert_eq!(0xABCDu16.shorten(), 0xABu8);
    assert_eq!(0x1234_5678u32.shorten(), 0x1234u16);
    assert_eq!(0x0123_4567_89AB_CDEFu64.shorten(), 0x0123_4567u32);
    assert_eq!(u128::MAX.shorten(), u64::MAX);
    assert_eq!(200u8.shorten(), 200u8);
    assert_eq!((-7i8).shorten(), -7i8);
}

#[test]
fn signed_shorten_is_an_arithmetic_shift() {
    assert_eq!((-1i16).shorten(), -1i8);
    assert_eq!((-256i16).shorten(), -1i8);
    assert_eq!((-257i16).shorten(), -2i8);
    assert_eq!(i16::MIN.shorten(), i8::MIN);
    assert_eq!(i32::MAX.shorten(), i16::MAX);
    assert_eq!(i64::MIN.shorten(), i32::MIN);
    assert_eq!((-1i128).shorten(), -1i64);
}

#[test]
fn new_wraps_the_raw_value() {
    assert_eq!(Poui::new(7u8), Poui(7u8));
    assert_eq!(Poui::new(i64::MIN).0, i64::MIN);
    assert_eq!(Poui::new(1u32) + Poui::new(2u32), Poui(3u32));
}
