use ufmt::float::{DEBUG_DECIMAL_PLACES, MAX_DECIMAL_PLACES};
use ufmt::{
    clamp_places, classify_binary32, classify_binary64, render_split, uDebug, uDisplay,
    uDisplayFloat, write_as_float_str, FloatClass, FloatParts, Formatter, Padding,
};

const BIAS: [f64; 7] = [0.5, 0.05, 0.005, 0.000_5, 0.000_05, 0.000_005, 0.000_000_5];
const SCALE: [f64; 7] = [1.0, 10.0, 100.0, 1_000.0, 10_000.0, 100_000.0, 1_000_000.0];

/// Rounds the magnitude of `value` by adding half a unit of the last place
/// and splits it at the decimal point, in 64-bit arithmetic.
fn split64(value: f64, decimal_places: usize) -> FloatParts {
    let places = clamp_places(decimal_places);
    let f = value.abs() + BIAS[places];
    let left = f as u32;
    let right = ((f - (left as f64)) * SCALE[places]) as u32;
    FloatParts { class: classify_binary64(value.to_bits()), left, right }
}

/// The same in 32-bit arithmetic.
fn split32(value: f32, decimal_places: usize) -> FloatParts {
    let places = clamp_places(decimal_places);
    let f = value.abs() + BIAS[places] as f32;
    let left = f as u32;
    let right = ((f - (left as f32)) * SCALE[places] as f32) as u32;
    FloatParts { class: classify_binary32(value.to_bits()), left, right }
}

fn float64(value: f64, decimal_places: usize, padding: Padding, pad_char: char) -> String {
    let mut out = String::new();
    let mut f = Formatter::new(&mut out);
    split64(value, decimal_places).fmt_float(&mut f, decimal_places, padding, pad_char).unwrap();
    out
}

fn float32(value: f32, decimal_places: usize, padding: Padding, pad_char: char) -> String {
    let mut out = String::new();
    let mut f = Formatter::new(&mut out);
    split32(value, decimal_places).fmt_float(&mut f, decimal_places, padding, pad_char).unwrap();
    out
}

fn split(left: u32, right: u32, places: usize, is_neg: bool) -> String {
    let mut out = String::new();
    let mut f = Formatter::new(&mut out);
    write_as_float_str(&mut f, left, right, places, is_neg, Padding::LeftAligned(0), ' ').unwrap();
    out
}

const PLAIN: Padding = Padding::LeftAligned(0);

#[test]
fn split_number_is_written_with_its_places() {
    assert_eq!(split(1, 1, 2, false), "1.01");
    assert_eq!(split(0, 0, 3, false), "0.000");
    assert_eq!(split(3, 141593, 6, false), "3.141593");
    assert_eq!(split(12, 5, 1, true), "-12.5");
    assert_eq!(split(7, 42, 5, false), "7.00042");
}

#[test]
fn zero_places_suppress_the_point() {
    assert_eq!(split(42, 0, 0, false), "42");
    assert_eq!(split(42, 999, 0, true), "-42");
    assert_eq!(split(0, 0, 0, false), "0");
}

#[test]
fn zero_integral_part_is_a_single_digit() {
    assert_eq!(split(0, 5, 1, false), "0.5");
    assert_eq!(split(0, 123456, 6, true), "-0.123456");
}

#[test]
fn places_hold_only_the_last_digits_of_the_fraction() {
    assert_eq!(split(1, 1234, 2, false), "1.34");
    assert_eq!(split(1, 1000000, 6, false), "1.000000");
}

#[test]
fn more_than_six_places_are_six() {
    assert_eq!(MAX_DECIMAL_PLACES, 6);
    for asked in 0..=6 {
        assert_eq!(clamp_places(asked), asked);
    }
    assert_eq!(clamp_places(7), 6);
    assert_eq!(clamp_places(usize::MAX), 6);
    assert_eq!(float64(0.1234567, 9, PLAIN, ' '), "0.123457");
    assert_eq!(split(1, 5, 7, false), "1.000005");
    assert_eq!(split(1, 5, 18, false), "1.000005");
    assert_eq!(split(u32::MAX, 999999, usize::MAX, true), "-4294967295.999999");
}

#[test]
fn buffer_holds_the_rendered_text() {
    let buf = render_split(4294967295, 999999, 6, true);
    assert_eq!(buf.as_str(), "-4294967295.999999");
    assert_eq!(buf.len(), 18);
    let buf = render_split(0, 0, 0, false);
    assert_eq!(buf.as_str(), "0");
    assert_eq!(buf.len(), 1);
}

#[test]
fn split_number_is_padded_like_any_other() {
    let mut out = String::new();
    let mut f = Formatter::new(&mut out);
    write_as_float_str(&mut f, 3, 14, 2, true, Padding::CenterAligned(10), '*').unwrap();
    write_as_float_str(&mut f, 3, 14, 2, false, Padding::Usual(6), ' ').unwrap();
    write_as_float_str(&mut f, 3, 14, 2, false, Padding::LeftAligned(6), '0').unwrap();
    assert_eq!(out, "**-3.14***  3.143.1400");
}

#[test]
fn not_a_number_ignores_places_and_padding() {
    assert_eq!(float64(f64::NAN, 0, PLAIN, ' '), "NaN");
    assert_eq!(float64(f64::NAN, 6, Padding::RightAligned(10), '*'), "NaN");
    assert_eq!(float64(-f64::NAN, 3, Padding::CenterAligned(10), '*'), "NaN");
    assert_eq!(float32(f32::NAN, 2, Padding::LeftAligned(10), '0'), "NaN");
    let mut out = String::new();
    let mut f = Formatter::new(&mut out);
    let parts = FloatParts { class: FloatClass::NaN, left: 1, right: 5 };
    parts.fmt_float(&mut f, 1, Padding::Usual(8), '_').unwrap();
    assert_eq!(out, "NaN");
}

#[test]
fn out_of_range_is_written_as_overflow() {
    assert_eq!(float32(9000000.0, 3, PLAIN, ' '), "ovfl");
    assert_eq!(float32(-9000000.0, 3, PLAIN, ' '), "-ovfl");
    assert_eq!(float64(5000000000.0, 0, PLAIN, ' '), "ovfl");
    assert_eq!(float64(-5000000000.0, 0, PLAIN, ' '), "-ovfl");
    assert_eq!(float64(f64::INFINITY, 2, PLAIN, ' '), "ovfl");
    assert_eq!(float64(f64::NEG_INFINITY, 2, PLAIN, ' '), "-ovfl");
    assert_eq!(float32(f32::INFINITY, 2, PLAIN, ' '), "ovfl");
    assert_eq!(float32(f32::NEG_INFINITY, 2, PLAIN, ' '), "-ovfl");
    assert_eq!(float64(5000000000.0, 0, Padding::RightAligned(9), '*'), "ovfl");
}

#[test]
fn limits_themselves_are_in_range() {
    assert_eq!(float32(8388608.0, 3, PLAIN, ' '), "8388608.000");
    assert_eq!(float32(-8388608.0, 0, PLAIN, ' '), "-8388608");
    assert_eq!(float32(8388609.0, 3, PLAIN, ' '), "ovfl");
    assert_eq!(float64(4294967295.0, 0, PLAIN, ' '), "4294967295");
    assert_eq!(float64(-4294967295.0, 6, PLAIN, ' '), "-4294967295.000000");
    assert_eq!(float64(4294967295.5, 0, PLAIN, ' '), "ovfl");
    assert_eq!(float64(9000000.0, 3, PLAIN, ' '), "9000000.000");
}

#[test]
fn class_follows_the_comparison_of_the_values() {
    let singles: [f32; 22] = [
        0.0, -0.0, 1.0, -1.0, 0.5, 1.005, 8388607.5, 8388608.0, 8388609.0, -8388608.0,
        -8388609.0, 8388608.0 * 2.0, 1e-45, -1e-45, 1.17549435e-38, f32::MAX, f32::MIN,
        f32::MIN_POSITIVE, f32::EPSILON, f32::INFINITY, f32::NEG_INFINITY, f32::NAN,
    ];
    for value in singles {
        assert_eq!(classify_binary32(value.to_bits()), class_of_single(value));
    }
    let doubles: [f64; 22] = [
        0.0, -0.0, 1.0, -1.0, 0.5, 1.005, 4294967294.5, 4294967295.0, 4294967295.000001,
        4294967296.0, -4294967295.0, -4294967295.000001, 5e-324, -5e-324, 2.2250738585072014e-308,
        f64::MAX, f64::MIN, f64::MIN_POSITIVE, f64::EPSILON, f64::INFINITY, f64::NEG_INFINITY,
        f64::NAN,
    ];
    for value in doubles {
        assert_eq!(classify_binary64(value.to_bits()), class_of_double(value));
    }
}

#[test]
fn class_of_chosen_bit_patterns() {
    assert_eq!(classify_binary32(0x0000_0000), FloatClass::InRange { is_neg: false });
    assert_eq!(classify_binary32(0x8000_0000), FloatClass::InRange { is_neg: true });
    assert_eq!(classify_binary32(0x4b00_0000), FloatClass::InRange { is_neg: false });
    assert_eq!(classify_binary32(0x4b00_0001), FloatClass::Overflow { is_neg: false });
    assert_eq!(classify_binary32(0xcb00_0001), FloatClass::Overflow { is_neg: true });
    assert_eq!(classify_binary32(0x7f80_0000), FloatClass::Overflow { is_neg: false });
    assert_eq!(classify_binary32(0x7f80_0001), FloatClass::NaN);
    assert_eq!(classify_binary32(0xffff_ffff), FloatClass::NaN);
    assert_eq!(classify_binary64(0x41ef_ffff_ffe0_0000), FloatClass::InRange { is_neg: false });
    assert_eq!(classify_binary64(0x41ef_ffff_ffe0_0001), FloatClass::Overflow { is_neg: false });
    assert_eq!(classify_binary64(0xc1ef_ffff_ffe0_0001), FloatClass::Overflow { is_neg: true });
    assert_eq!(classify_binary64(0x7ff0_0000_0000_0000), FloatClass::Overflow { is_neg: false });
    assert_eq!(classify_binary64(0xfff0_0000_0000_0000), FloatClass::Overflow { is_neg: true });
    assert_eq!(classify_binary64(0x7ff0_0000_0000_0001), FloatClass::NaN);
    assert_eq!(classify_binary64(0xfff8_0000_0000_0000), FloatClass::NaN);
}

#[test]
fn half_a_unit_is_added_before_the_cut() {
    assert_eq!(float64(3.14159, 3, PLAIN, ' '), "3.142");
    assert_eq!(float64(2.5, 0, PLAIN, ' '), "3");
    assert_eq!(float64(0.999, 2, PLAIN, ' '), "1.00");
    assert_eq!(float64(-1.5, 1, PLAIN, ' '), "-1.5");
    assert_eq!(float64(99.9999, 3, PLAIN, ' '), "100.000");
    assert_eq!(float64(123.456, 6, PLAIN, ' '), "123.456000");
    assert_eq!(float32(3.14159, 3, PLAIN, ' '), "3.142");
    assert_eq!(float32(123.456, 6, PLAIN, ' '), "123.456001");
    assert_eq!(float64(0.0, 3, PLAIN, ' '), "0.000");
    assert_eq!(float32(0.0, 3, PLAIN, ' '), "0.000");
}

#[test]
fn stored_value_decides_not_its_decimal_notation() {
    // The value nearest to 1.005 lies below it, in either format, and the
    // sum with the bias stays below 1.01.
    let parts = split64(1.005, 2);
    assert_eq!((parts.left, parts.right), (1, 0));
    assert_eq!(float64(1.005, 2, PLAIN, ' '), "1.00");
    assert_eq!(float32(1.005, 2, PLAIN, ' '), "1.00");
    assert_eq!(float64(1.0051, 2, PLAIN, ' '), "1.01");
    // What is written for the parts that a sum of 1.01 splits into.
    assert_eq!(split(1, 1, 2, false), "1.01");
}

#[test]
fn sign_is_that_of_the_value_before_rounding() {
    assert_eq!(float64(-0.0004, 3, PLAIN, ' '), "-0.000");
    assert_eq!(float32(-0.0004, 3, PLAIN, ' '), "-0.000");
    assert_eq!(float64(-0.0, 3, PLAIN, ' '), "-0.000");
    assert_eq!(float64(-0.0006, 3, PLAIN, ' '), "-0.001");
    assert_eq!(split(0, 0, 3, true), "-0.000");
}

#[test]
fn debug_rendering_has_three_places_and_no_padding() {
    assert_eq!(DEBUG_DECIMAL_PLACES, 3);
    let parts = split64(-2.71828, DEBUG_DECIMAL_PLACES);
    let mut out = String::new();
    let mut f = Formatter::new(&mut out);
    uDebug::fmt(&parts, &mut f).unwrap();
    f.write_char(' ').unwrap();
    uDisplay::fmt(&parts, &mut f).unwrap();
    f.write_char(' ').unwrap();
    uDebug::fmt(&split64(f64::NAN, DEBUG_DECIMAL_PLACES), &mut f).unwrap();
    f.write_char(' ').unwrap();
    uDisplay::fmt(&split32(-1e9, DEBUG_DECIMAL_PLACES), &mut f).unwrap();
    assert_eq!(out, "-2.718 -2.718 NaN -ovfl");
}

#[test]
fn float_in_a_field() {
    assert_eq!(float64(3.14159, 2, Padding::RightAligned(8), ' '), "    3.14");
    assert_eq!(float64(-3.14159, 2, Padding::CenterAligned(8), '*'), "*-3.14**");
    assert_eq!(float32(0.5, 1, Padding::LeftAligned(5), '0'), "0.500");
    assert_eq!(float64(1234.5, 1, Padding::Usual(3), ' '), "1234.5");
}

#[test]
fn same_float_twice_gives_the_same_bytes() {
    let first = float64(-123.456, 2, Padding::CenterAligned(12), '.');
    let second = float64(-123.456, 2, Padding::CenterAligned(12), '.');
    assert_eq!(first.as_bytes(), second.as_bytes());
    assert_eq!(first, "..-123.46...");
}

fn class_of_single(value: f32) -> FloatClass {
    if value.is_nan() {
        FloatClass::NaN
    } else if value > 8388608.0 {
        FloatClass::Overflow { is_neg: false }
    } else if value < -8388608.0 {
        FloatClass::Overflow { is_neg: true }
    } else {
        FloatClass::InRange { is_neg: value.is_sign_negative() }
    }
}

fn class_of_double(value: f64) -> FloatClass {
    if value.is_nan() {
        FloatClass::NaN
    } else if value > 4294967295.0 {
        FloatClass::Overflow { is_neg: false }
    } else if value < -4294967295.0 {
        FloatClass::Overflow { is_neg: true }
    } else {
        FloatClass::InRange { is_neg: value.is_sign_negative() }
    }
}

#[test]
fn class_of_single_patterns_across_the_range() {
    let mut bits: u32 = 0;
    loop {
        assert_eq!(classify_binary32(bits), class_of_single(f32::from_bits(bits)));
        match bits.checked_add(32_749) {
            Some(next) => bits = next,
            None => break,
        }
    }
    for exponent in 0..=255u32 {
        for fraction in [0u32, 1, 2, 0x3f_ffff, 0x40_0000, 0x7f_fffe, 0x7f_ffff] {
            for sign in [0u32, 0x8000_0000] {
                let bits = sign | (exponent << 23) | fraction;
                assert_eq!(classify_binary32(bits), class_of_single(f32::from_bits(bits)));
            }
        }
    }
}

#[test]
fn class_of_double_patterns_across_the_range() {
    let mut bits: u64 = 0;
    loop {
        assert_eq!(classify_binary64(bits), class_of_double(f64::from_bits(bits)));
        match bits.checked_add(140_737_488_355_213) {
            Some(next) => bits = next,
            None => break,
        }
    }
    for exponent in 0..=2047u64 {
        for fraction in [
            0u64,
            1,
            0xf_ffff_ffdf_ffff,
            0xf_ffff_ffe0_0000,
            0xf_ffff_ffe0_0001,
            0xf_ffff_ffff_ffff,
        ] {
            for sign in [0u64, 0x8000_0000_0000_0000] {
                let bits = sign | (exponent << 52) | fraction;
                assert_eq!(classify_binary64(bits), class_of_double(f64::from_bits(bits)));
            }
        }
    }
}
