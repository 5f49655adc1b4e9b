//! Floating-point values, read off their bit patterns.
//!
//! The two binary interchange formats of IEEE 754 lay a value out as a sign
//! bit, a biased exponent and a fraction.  Whether a value is a number at
//! all, on which side of zero it lies, and whether it is small enough to be
//! rendered can be told from these fields without any floating-point
//! arithmetic.

use vstd::prelude::*;
use vstd::arithmetic::power2::{
    lemma2_to64,
    lemma_pow2_adds,
    lemma_pow2_pos,
    lemma_pow2_strictly_increases,
    lemma_pow2_unfold,
    pow2,
};

verus! {

/// What a floating-point value is to the renderer.
#[derive(Clone, Copy, Debug, PartialEq, Eq, Structural)]
pub enum FloatClass {
    /// The value is not a number.
    NaN,
    /// The magnitude of the value is beyond the limit of its format, or
    /// infinite; `is_neg` is its sign bit.
    Overflow { is_neg: bool },
    /// The value can be rendered; `is_neg` is its sign bit, which is set
    /// for negative zero too.
    InRange { is_neg: bool },
}

/// The largest magnitude of a 32-bit value that is rendered.  From here on
/// a 32-bit value has no bit left for a fraction.
pub const BINARY32_LIMIT: u32 = 8_388_608;

/// The largest magnitude of a 64-bit value that is rendered: the largest
/// integral part that fits into 32 bits.
pub const BINARY64_LIMIT: u32 = 4_294_967_295;

/// The magnitude of a finite value, counted in units of the smallest
/// positive value of its format.  `hidden` is the weight that the implicit
/// leading bit of a normal value has beside the fraction.
pub open spec fn magnitude(exponent: nat, fraction: nat, hidden: nat) -> nat {
    if exponent == 0 {
        fraction
    } else {
        (hidden + fraction) * pow2((exponent - 1) as nat)
    }
}

/// The biased exponent of a 32-bit value: the eight bits below the sign.
pub open spec fn binary32_exponent(bits: u32) -> nat {
    (bits as nat / 0x80_0000) % 0x100
}

/// The fraction of a 32-bit value: its lowest 23 bits.
pub open spec fn binary32_fraction(bits: u32) -> nat {
    bits as nat % 0x80_0000
}

/// The sign bit of a 32-bit value.
pub open spec fn binary32_is_negative(bits: u32) -> bool {
    bits >= 0x8000_0000
}

/// The class of the 32-bit value with the bit pattern `bits`.
///
/// With all exponent bits set the value is infinite if the fraction is
/// zero, and not a number otherwise.  The smallest positive value is
/// `2^-149`, so one is `2^149` units.
pub open spec fn binary32_class(bits: u32) -> FloatClass {
    let exponent = binary32_exponent(bits);
    let fraction = binary32_fraction(bits);
    let is_neg = binary32_is_negative(bits);
    if exponent == 0xff && fraction != 0 {
        FloatClass::NaN
    } else if exponent == 0xff || magnitude(exponent, fraction, 0x80_0000) > BINARY32_LIMIT
        * pow2(149) {
        FloatClass::Overflow { is_neg }
    } else {
        FloatClass::InRange { is_neg }
    }
}

/// The biased exponent of a 64-bit value: the eleven bits below the sign.
pub open spec fn binary64_exponent(bits: u64) -> nat {
    (bits as nat / 0x10_0000_0000_0000) % 0x800
}

/// The fraction of a 64-bit value: its lowest 52 bits.
pub open spec fn binary64_fraction(bits: u64) -> nat {
    bits as nat % 0x10_0000_0000_0000
}

/// The sign bit of a 64-bit value.
pub open spec fn binary64_is_negative(bits: u64) -> bool {
    bits >= 0x8000_0000_0000_0000
}

/// The class of the 64-bit value with the bit pattern `bits`.
///
/// With all exponent bits set the value is infinite if the fraction is
/// zero, and not a number otherwise.  The smallest positive value is
/// `2^-1074`, so one is `2^1074` units.
pub open spec fn binary64_class(bits: u64) -> FloatClass {
    let exponent = binary64_exponent(bits);
    let fraction = binary64_fraction(bits);
    let is_neg = binary64_is_negative(bits);
    if exponent == 0x7ff && fraction != 0 {
        FloatClass::NaN
    } else if exponent == 0x7ff || magnitude(exponent, fraction, 0x10_0000_0000_0000)
        > BINARY64_LIMIT * pow2(1074) {
        FloatClass::Overflow { is_neg }
    } else {
        FloatClass::InRange { is_neg }
    }
}

/// Magnitudes are ordered like their fields: first by the exponent, then by
/// the fraction.  So a magnitude is beyond a limit with the significand
/// `limit` at the exponent `at` exactly if its exponent is larger, or the
/// same with a larger significand.
pub proof fn lemma_magnitude_beyond(
    exponent: nat,
    fraction: nat,
    hidden: nat,
    at: nat,
    limit: nat,
)
    requires
        fraction < hidden,
        hidden <= limit < 2 * hidden,
        at >= 1,
    ensures
        magnitude(exponent, fraction, hidden) > limit * pow2((at - 1) as nat) <==> (exponent > at
            || (exponent == at && hidden + fraction > limit)),
{
    let p = pow2((at - 1) as nat);
    lemma_pow2_pos((at - 1) as nat);
    if exponent == 0 {
        assert(limit * p >= limit) by (nonlinear_arith)
            requires
                p >= 1,
        ;
    } else if exponent < at {
        let q = pow2((exponent - 1) as nat);
        lemma_pow2_pos((exponent - 1) as nat);
        lemma_pow2_unfold(exponent);
        if exponent < at - 1 {
            lemma_pow2_strictly_increases(exponent, (at - 1) as nat);
        }
        assert(2 * q <= p);
        assert((hidden + fraction) * q < limit * p) by (nonlinear_arith)
            requires
                fraction < hidden,
                hidden <= limit,
                q > 0,
                2 * q <= p,
        {
            assert((hidden + fraction) * q < (2 * hidden) * q);
            assert((2 * hidden) * q == hidden * (2 * q));
            assert(hidden * (2 * q) <= hidden * p);
            assert(hidden * p <= limit * p);
        }
    } else if exponent == at {
        assert(((hidden + fraction) * p > limit * p) <==> (hidden + fraction > limit))
            by (nonlinear_arith)
            requires
                p > 0,
        ;
    } else {
        let q = pow2((exponent - 1) as nat);
        lemma_pow2_unfold(at);
        if exponent - 1 > at {
            lemma_pow2_strictly_increases(at, (exponent - 1) as nat);
        }
        assert(q >= 2 * p);
        assert((hidden + fraction) * q > limit * p) by (nonlinear_arith)
            requires
                limit < 2 * hidden,
                p > 0,
                q >= 2 * p,
        {
            assert((hidden + fraction) * q >= hidden * q);
            assert(hidden * q >= hidden * (2 * p));
            assert(hidden * (2 * p) == (2 * hidden) * p);
            assert((2 * hidden) * p > limit * p);
        }
    }
}

/// Tells the class of a 32-bit value from its bit pattern.
///
/// Without the sign bit, the patterns of the values that are numbers are
/// ordered like their magnitudes, and those that are not numbers come
/// after all of them.
pub fn classify_binary32(bits: u32) -> (class: FloatClass)
    ensures
        class == binary32_class(bits),
{
    let is_neg = bits >= 0x8000_0000;
    let rest: u32 = bits % 0x8000_0000;
    proof {
        let exponent = binary32_exponent(bits);
        let fraction = binary32_fraction(bits);
        assert(rest == exponent * 0x80_0000 + fraction);
        lemma_magnitude_beyond(exponent, fraction, 0x80_0000, 150, 0x80_0000);
    }
    if rest > 0x7f80_0000 {
        FloatClass::NaN
    } else if rest > 0x4b00_0000 {
        FloatClass::Overflow { is_neg }
    } else {
        FloatClass::InRange { is_neg }
    }
}

/// Tells the class of a 64-bit value from its bit pattern.
///
/// Without the sign bit, the patterns of the values that are numbers are
/// ordered like their magnitudes, and those that are not numbers come
/// after all of them.
pub fn classify_binary64(bits: u64) -> (class: FloatClass)
    ensures
        class == binary64_class(bits),
{
    let is_neg = bits >= 0x8000_0000_0000_0000;
    let rest: u64 = bits % 0x8000_0000_0000_0000;
    proof {
        let exponent = binary64_exponent(bits);
        let fraction = binary64_fraction(bits);
        assert(rest == exponent * 0x10_0000_0000_0000 + fraction);
        lemma_magnitude_beyond(
            exponent,
            fraction,
            0x10_0000_0000_0000,
            1054,
            0x1f_ffff_ffe0_0000,
        );
        assert(BINARY64_LIMIT * pow2(1074) == 0x1f_ffff_ffe0_0000 * pow2(1053)) by {
            lemma2_to64();
            lemma_pow2_adds(21, 1053);
            assert(4_294_967_295 * (0x20_0000 * pow2(1053)) == 0x1f_ffff_ffe0_0000 * pow2(1053))
                by (nonlinear_arith);
        }
    }
    if rest > 0x7ff0_0000_0000_0000 {
        FloatClass::NaN
    } else if rest > 0x41ef_ffff_ffe0_0000 {
        FloatClass::Overflow { is_neg }
    } else {
        FloatClass::InRange { is_neg }
    }
}

} // verus!
