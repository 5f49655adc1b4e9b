//! Rendering of numbers with a fixed count of decimal places.
//!
//! A value arrives here already split at the decimal point: an integral
//! part, and the digits behind the point as an integer of their own.  This
//! module turns the two into text and says what is written for the values
//! that cannot be split.

use vstd::prelude::*;
use crate::binary::FloatClass;
use crate::buffer::TailBuffer;
use crate::decimal::{
    decimal_digits,
    fixed_digits,
    lemma_decimal_digits_len,
    lemma_decimal_digits_shape,
    lemma_fixed_digits_shape,
    pow10,
    push_digits,
    push_fixed_digits,
    MINUS,
    POINT,
};
use crate::formatter::Formatter;
use crate::padding::{padded, Padding};
use crate::traits::{uDebug, uDisplay, uDisplayFloat};
use crate::write::{partly_written, state_of, uWrite};

verus! {

/// The largest count of decimal places that is rendered.
pub const MAX_DECIMAL_PLACES: usize = 6;

/// The count of decimal places that is rendered when `decimal_places` are
/// asked for: a request for more than `MAX_DECIMAL_PLACES` gets that many.
pub open spec fn places_used(decimal_places: usize) -> nat {
    if decimal_places > MAX_DECIMAL_PLACES {
        MAX_DECIMAL_PLACES as nat
    } else {
        decimal_places as nat
    }
}

/// Computes the count of decimal places that is rendered when
/// `decimal_places` are asked for.
pub fn clamp_places(decimal_places: usize) -> (places: usize)
    ensures
        places == places_used(decimal_places),
        places <= MAX_DECIMAL_PLACES,
{
    if decimal_places > MAX_DECIMAL_PLACES {
        MAX_DECIMAL_PLACES
    } else {
        decimal_places
    }
}

/// The minus sign of a negative number, nothing for any other.
pub open spec fn sign_text(is_neg: bool) -> Seq<char> {
    if is_neg {
        seq!['-']
    } else {
        Seq::empty()
    }
}

/// The decimal point and `places` digits of `right` behind it; nothing at
/// all, not even the point, for zero places.
pub open spec fn fraction_text(right: u32, places: nat) -> Seq<char> {
    if places == 0 {
        Seq::empty()
    } else {
        seq!['.'] + fixed_digits(right as nat, places)
    }
}

/// The text of a number with integral part `left` and `places` decimal
/// places that hold the digits of `right`.
///
/// The sign is that of the number before it was rounded and split, so a
/// negative number that is too small to show in the places given is still
/// written with its sign, as `-0.000`.
pub open spec fn split_text(left: u32, right: u32, places: nat, is_neg: bool) -> Seq<char> {
    sign_text(is_neg) + decimal_digits(left as nat) + fraction_text(right, places)
}

/// A split number never needs more than 18 characters: a sign, ten digits,
/// the point and six places.
pub proof fn lemma_split_text_len(left: u32, right: u32, places: nat, is_neg: bool)
    requires
        places <= MAX_DECIMAL_PLACES,
    ensures
        1 <= split_text(left, right, places, is_neg).len() <= 18,
        decimal_digits(left as nat).len() <= 10,
{
    assert(pow10(10) == 10_000_000_000) by {
        reveal_with_fuel(pow10, 11);
    }
    lemma_decimal_digits_len(left as nat, 10);
    lemma_decimal_digits_shape(left as nat);
    lemma_fixed_digits_shape(right as nat, places);
}

/// With zero decimal places a split number is written like an integer:
/// there is no decimal point, and `right` does not show.
pub proof fn lemma_split_text_without_places(left: u32, right: u32, is_neg: bool)
    ensures
        split_text(left, right, 0, is_neg) == sign_text(is_neg) + decimal_digits(left as nat),
{
}

/// Renders a split number into a buffer, from the last decimal place back
/// to the sign.
pub fn render_split(left: u32, right: u32, decimal_places: usize, is_neg: bool) -> (buf:
    TailBuffer<18>)
    ensures
        buf.text() == split_text(left, right, places_used(decimal_places), is_neg),
{
    let places: usize = clamp_places(decimal_places);
    proof {
        lemma_split_text_len(left, right, places as nat, is_neg);
    }
    let mut buf = TailBuffer::<18>::new();
    if places > 0 {
        push_fixed_digits(&mut buf, right, places);
        buf.push_front(POINT);
    }
    assert(buf.text() == fraction_text(right, places as nat));
    push_digits(&mut buf, left as u128);
    if is_neg {
        buf.push_front(MINUS);
    }
    assert(buf.text() == split_text(left, right, places as nat, is_neg));
    buf
}

/// Writes a split number in a field laid out by `padding`.
///
/// `left` is the integral part, `right` holds the digits behind the decimal
/// point, `is_neg` says whether a minus sign goes in front.  With zero
/// decimal places neither the point nor any digit of `right` is written.
pub fn write_as_float_str<W>(
    fmt: &mut Formatter<'_, W>,
    left: u32,
    right: u32,
    decimal_places: usize,
    is_neg: bool,
    padding: Padding,
    pad_char: char,
) -> (r: Result<(), W::Error>) where W: uWrite + ?Sized
    ensures
        r is Ok ==> final(fmt).written() == old(fmt).written() + padded(
            split_text(left, right, places_used(decimal_places), is_neg),
            padding,
            pad_char,
        ),
        r is Err ==> partly_written(
            old(fmt).written(),
            final(fmt).written(),
            padded(
                split_text(left, right, places_used(decimal_places), is_neg),
                padding,
                pad_char,
            ),
        ),
        r matches Err(e) ==> final(fmt).failed() == Some(e),
        old(fmt).unfailing() ==> r is Ok && final(fmt).unfailing(),
        state_of(&*final(final(fmt).inner)) == state_of(&*final(old(fmt).inner)),
{
    let buf = render_split(left, right, decimal_places, is_neg);
    fmt.write_padded(buf.as_str(), padding, pad_char)
}

/// What the renderer reads of a floating-point value: its class, and the
/// integral part `left` and the decimal places `right` that it splits into
/// once it is rounded.  The two parts are looked at only for a value in
/// range.
#[derive(Clone, Copy, Debug, PartialEq, Eq, Structural)]
pub struct FloatParts {
    pub class: FloatClass,
    pub left: u32,
    pub right: u32,
}

/// The count of decimal places of the debug and display renderings.
pub const DEBUG_DECIMAL_PLACES: usize = 3;

/// What is written for a floating-point value.
///
/// A value that is not a number is written as `NaN`, one that is out of
/// range as `ovfl` or `-ovfl`; neither is padded.  A value in range is
/// written as a split number, with the sign that the value had before it
/// was rounded, in a padded field.
pub open spec fn parts_text(
    parts: FloatParts,
    decimal_places: usize,
    padding: Padding,
    pad_char: char,
) -> Seq<char> {
    match parts.class {
        FloatClass::NaN => seq!['N', 'a', 'N'],
        FloatClass::Overflow { is_neg } => sign_text(is_neg) + seq!['o', 'v', 'f', 'l'],
        FloatClass::InRange { is_neg } => padded(
            split_text(parts.left, parts.right, places_used(decimal_places), is_neg),
            padding,
            pad_char,
        ),
    }
}

/// A value that is not a number is written as `NaN` whatever places and
/// padding are asked for, and one that is out of range as `ovfl` behind its
/// sign.
pub proof fn lemma_parts_text_unsplit(
    parts: FloatParts,
    decimal_places: usize,
    padding: Padding,
    pad_char: char,
)
    ensures
        parts.class == FloatClass::NaN ==> parts_text(parts, decimal_places, padding, pad_char)
            == seq!['N', 'a', 'N'],
        parts.class == (FloatClass::Overflow { is_neg: false }) ==> parts_text(
            parts,
            decimal_places,
            padding,
            pad_char,
        ) == seq!['o', 'v', 'f', 'l'],
        parts.class == (FloatClass::Overflow { is_neg: true }) ==> parts_text(
            parts,
            decimal_places,
            padding,
            pad_char,
        ) == seq!['-', 'o', 'v', 'f', 'l'],
{
}

impl uDisplayFloat for FloatParts {
    open spec fn float_text(&self, decimal_places: usize, padding: Padding, pad_char: char) -> Seq<
        char,
    > {
        parts_text(*self, decimal_places, padding, pad_char)
    }

    /// Values that are not a number or out of range are no errors: they
    /// have a text of their own.  The only failure is that of the writer.
    fn fmt_float<W>(
        &self,
        fmt: &mut Formatter<'_, W>,
        decimal_places: usize,
        padding: Padding,
        pad_char: char,
    ) -> (r: Result<(), W::Error>) where W: uWrite + ?Sized {
        proof {
            reveal_strlit("NaN");
            reveal_strlit("ovfl");
            reveal_strlit("-ovfl");
        }
        match self.class {
            FloatClass::NaN => {
                assert("NaN"@ == seq!['N', 'a', 'N']);
                fmt.write_str("NaN")
            },
            FloatClass::Overflow { is_neg } => {
                if is_neg {
                    assert("-ovfl"@ == seq!['-'] + seq!['o', 'v', 'f', 'l']);
                    fmt.write_str("-ovfl")
                } else {
                    assert("ovfl"@ == Seq::<char>::empty() + seq!['o', 'v', 'f', 'l']);
                    fmt.write_str("ovfl")
                }
            },
            FloatClass::InRange { is_neg } => write_as_float_str(
                fmt,
                self.left,
                self.right,
                decimal_places,
                is_neg,
                padding,
                pad_char,
            ),
        }
    }
}

/// The debug rendering has three decimal places and no padding.  A value in
/// range must have been split for that many places.
impl uDebug for FloatParts {
    open spec fn debug_text(&self) -> Seq<char> {
        parts_text(*self, DEBUG_DECIMAL_PLACES, Padding::LeftAligned(0), ' ')
    }

    fn fmt<W>(&self, fmt: &mut Formatter<'_, W>) -> (r: Result<(), W::Error>) where
        W: uWrite + ?Sized,
    {
        self.fmt_float(fmt, DEBUG_DECIMAL_PLACES, Padding::LeftAligned(0), ' ')
    }
}

/// The display rendering of a number is its debug rendering.
impl uDisplay for FloatParts {
    open spec fn display_text(&self) -> Seq<char> {
        parts_text(*self, DEBUG_DECIMAL_PLACES, Padding::LeftAligned(0), ' ')
    }

    fn fmt<W>(&self, fmt: &mut Formatter<'_, W>) -> (r: Result<(), W::Error>) where
        W: uWrite + ?Sized,
    {
        <FloatParts as uDebug>::fmt(self, fmt)
    }
}

} // verus!
