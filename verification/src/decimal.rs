//! Decimal notation: what the digits of a number are, and what number a
//! string of digits stands for.

use vstd::prelude::*;
use crate::buffer::TailBuffer;

verus! {

/// The ASCII code of the digit `0`; the other digits follow it in order.
pub const ZERO: u8 = 48;

/// The ASCII code of the minus sign.
pub const MINUS: u8 = 45;

/// The ASCII code of the decimal point.
pub const POINT: u8 = 46;

/// The character that stands for the digit `d`.
pub open spec fn digit_char(d: nat) -> char
    recommends
        d < 10,
{
    (48 + d) as char
}

/// Whether `c` is one of the ten decimal digits.
pub open spec fn is_digit(c: char) -> bool {
    48 <= c as nat <= 57
}

/// The digit that the character `c` stands for.
pub open spec fn digit_value(c: char) -> nat
    recommends
        is_digit(c),
{
    (c as nat - 48) as nat
}

/// The decimal digits of `n`, most significant first, without leading zeros.
/// Zero has the single digit `0`.
pub open spec fn decimal_digits(n: nat) -> Seq<char>
    decreases n,
{
    if n < 10 {
        seq![digit_char(n)]
    } else {
        decimal_digits(n / 10).push(digit_char(n % 10))
    }
}

/// The last `width` decimal digits of `n`, most significant first, with
/// leading zeros where `n` has fewer digits.
pub open spec fn fixed_digits(n: nat, width: nat) -> Seq<char>
    decreases width,
{
    if width == 0 {
        Seq::empty()
    } else {
        fixed_digits(n / 10, (width - 1) as nat).push(digit_char(n % 10))
    }
}

/// The decimal text of an integer: a minus sign if it is negative, then the
/// digits of its magnitude.
pub open spec fn int_text(v: int) -> Seq<char> {
    if v < 0 {
        seq!['-'] + decimal_digits((-v) as nat)
    } else {
        decimal_digits(v as nat)
    }
}

/// The number that a string of digits stands for.
pub open spec fn digits_value(digits: Seq<char>) -> nat
    decreases digits.len(),
{
    if digits.len() == 0 {
        0
    } else {
        10 * digits_value(digits.drop_last()) + digit_value(digits.last())
    }
}

/// The integer that a decimal text stands for: the value of its digits,
/// negated if a minus sign stands in front.
pub open spec fn text_value(text: Seq<char>) -> int {
    if text.len() > 0 && text[0] == '-' {
        -(digits_value(text.skip(1)) as int)
    } else {
        digits_value(text) as int
    }
}

/// Ten to the power of `k`.
pub open spec fn pow10(k: nat) -> nat
    decreases k,
{
    if k == 0 {
        1
    } else {
        10 * pow10((k - 1) as nat)
    }
}

/// The digits of a number are digits, there is at least one of them, and
/// the first is not zero unless the number is.
pub proof fn lemma_decimal_digits_shape(n: nat)
    ensures
        decimal_digits(n).len() >= 1,
        forall|i: int| 0 <= i < decimal_digits(n).len() ==> is_digit(#[trigger] decimal_digits(n)[i]),
        n > 0 ==> decimal_digits(n)[0] != '0',
        n == 0 ==> decimal_digits(n) == seq!['0'],
    decreases n,
{
    if n >= 10 {
        lemma_decimal_digits_shape(n / 10);
    }
}

/// Reading the digits of a number gives the number back.
pub proof fn lemma_digits_round_trip(n: nat)
    ensures
        digits_value(decimal_digits(n)) == n,
    decreases n,
{
    if n < 10 {
        let s = decimal_digits(n);
        assert(s.drop_last().len() == 0);
        assert(digits_value(s.drop_last()) == 0);
    } else {
        lemma_digits_round_trip(n / 10);
        let s = decimal_digits(n);
        assert(s.drop_last() == decimal_digits(n / 10));
        assert(s.last() == digit_char(n % 10));
    }
}

/// A number below `10^k` has at most `k` digits.
pub proof fn lemma_decimal_digits_len(n: nat, k: nat)
    requires
        k >= 1,
        n < pow10(k),
    ensures
        decimal_digits(n).len() <= k,
    decreases k,
{
    if n >= 10 {
        assert(pow10(1) == 10) by {
            reveal_with_fuel(pow10, 2);
        }
        assert(k >= 2);
        lemma_decimal_digits_len(n / 10, (k - 1) as nat);
    }
}

/// There are exactly as many fixed-width digits as were asked for, and all
/// of them are digits.
pub proof fn lemma_fixed_digits_shape(n: nat, width: nat)
    ensures
        fixed_digits(n, width).len() == width,
        forall|i: int| 0 <= i < width ==> is_digit(#[trigger] fixed_digits(n, width)[i]),
    decreases width,
{
    if width > 0 {
        lemma_fixed_digits_shape(n / 10, (width - 1) as nat);
    }
}

/// Reading fixed-width digits gives the number back, reduced to the width.
pub proof fn lemma_fixed_digits_value(n: nat, width: nat)
    ensures
        digits_value(fixed_digits(n, width)) == n % pow10(width),
    decreases width,
{
    if width == 0 {
    } else {
        lemma_fixed_digits_value(n / 10, (width - 1) as nat);
        let s = fixed_digits(n, width);
        assert(s.drop_last() == fixed_digits(n / 10, (width - 1) as nat));
        assert(s.last() == digit_char(n % 10));
        let p = pow10((width - 1) as nat);
        lemma_pow10_positive((width - 1) as nat);
        vstd::arithmetic::div_mod::lemma_mod_breakdown(n as int, 10, p as int);
    }
}

/// Every power of ten is positive.
pub proof fn lemma_pow10_positive(k: nat)
    ensures
        pow10(k) > 0,
    decreases k,
{
    if k > 0 {
        lemma_pow10_positive((k - 1) as nat);
    }
}

/// The decimal text of an integer reads back as that integer.  Zero is
/// written as the single digit `0`.  The text of a negative integer starts
/// with one minus sign, and what follows it are the digits of its
/// magnitude, none of which is a minus sign.
pub proof fn lemma_int_text_round_trip(v: int)
    ensures
        text_value(int_text(v)) == v,
        v == 0 ==> int_text(v) == seq!['0'],
        v < 0 ==> int_text(v)[0] == '-' && int_text(v).skip(1) == decimal_digits((-v) as nat),
        v >= 0 ==> int_text(v) == decimal_digits(v as nat),
        forall|i: int|
            (if v < 0 {
                1int
            } else {
                0int
            }) <= i < int_text(v).len() ==> is_digit(#[trigger] int_text(v)[i]),
{
    if v < 0 {
        let m = (-v) as nat;
        lemma_decimal_digits_shape(m);
        lemma_digits_round_trip(m);
        assert(int_text(v).skip(1) == decimal_digits(m));
        assert forall|i: int| 1 <= i < int_text(v).len() implies is_digit(
            #[trigger] int_text(v)[i],
        ) by {
            assert(int_text(v)[i] == decimal_digits(m)[i - 1]);
        }
    } else {
        lemma_decimal_digits_shape(v as nat);
        lemma_digits_round_trip(v as nat);
        assert(decimal_digits(v as nat)[0] != '-');
    }
}

/// Puts the decimal digits of `value` in front of the text in `buf`.
///
/// The digits are taken off the value least significant first, each going
/// in front of the ones before it, until nothing of the value is left.  Zero
/// would leave nothing to take, so it gets its single digit directly.
pub(crate) fn push_digits<const N: usize>(buf: &mut TailBuffer<N>, value: u128)
    requires
        decimal_digits(value as nat).len() <= old(buf).room(),
    ensures
        final(buf).text() == decimal_digits(value as nat) + old(buf).text(),
        final(buf).room() == old(buf).room() - decimal_digits(value as nat).len(),
{
    if value == 0 {
        buf.push_front(ZERO);
    } else {
        let mut rest: u128 = value;
        let ghost mut done = Seq::<char>::empty();
        while rest > 0
            invariant
                rest > 0 ==> decimal_digits(value as nat) == decimal_digits(rest as nat) + done,
                rest == 0 ==> decimal_digits(value as nat) == done,
                buf.text() == done + old(buf).text(),
                buf.room() == old(buf).room() - done.len(),
                decimal_digits(value as nat).len() <= old(buf).room(),
            decreases rest,
        {
            let digit: u8 = (rest % 10) as u8;
            proof {
                lemma_decimal_digits_shape(rest as nat);
            }
            buf.push_front(ZERO + digit);
            proof {
                let before = done;
                done = seq![digit_char(digit as nat)] + done;
                if rest >= 10 {
                    assert(decimal_digits(rest as nat) + before == decimal_digits(
                        (rest / 10) as nat,
                    ) + done);
                } else {
                    assert(decimal_digits(rest as nat) + before == done);
                }
            }
            rest = rest / 10;
        }
    }
}

/// Puts the last `width` decimal digits of `value` in front of the text in
/// `buf`, with leading zeros where the value has fewer digits.
pub(crate) fn push_fixed_digits<const N: usize>(buf: &mut TailBuffer<N>, value: u32, width: usize)
    requires
        width <= old(buf).room(),
    ensures
        final(buf).text() == fixed_digits(value as nat, width as nat) + old(buf).text(),
        final(buf).room() == old(buf).room() - width,
{
    let mut rest: u32 = value;
    let mut left: usize = width;
    let ghost mut done = Seq::<char>::empty();
    while left > 0
        invariant
            left <= width,
            fixed_digits(value as nat, width as nat) == fixed_digits(rest as nat, left as nat)
                + done,
            buf.text() == done + old(buf).text(),
            buf.room() == old(buf).room() - (width - left),
            width <= old(buf).room(),
        decreases left,
    {
        let digit: u8 = (rest % 10) as u8;
        buf.push_front(ZERO + digit);
        proof {
            let before = done;
            done = seq![digit_char(digit as nat)] + done;
            assert(fixed_digits(rest as nat, left as nat) + before == fixed_digits(
                (rest / 10) as nat,
                (left - 1) as nat,
            ) + done);
        }
        rest = rest / 10;
        left = left - 1;
    }
}

} // verus!
