//! The signed integers.
//!
//! Every width is widened to 128 bits and rendered by [`render_signed`].
//! The debug and the display rendering of an integer are the same text: a
//! minus sign if it is negative, and the decimal digits of its magnitude.

use vstd::prelude::*;
use crate::buffer::TailBuffer;
use crate::decimal::{int_text, push_digits, MINUS};
use crate::formatter::Formatter;
use crate::impls::uxx::lemma_unsigned_digits_len;
use crate::padding::Padding;
use crate::traits::{uDebug, uDisplay, uDisplayPadded};
use crate::write::uWrite;

verus! {

/// Renders a signed integer into a buffer that is large enough for every
/// integer of 128 bits and a sign.
///
/// The sign is noted first, then the magnitude is rendered like an unsigned
/// integer, and a minus sign is put in front if the value is negative.
pub fn render_signed(value: i128) -> (buf: TailBuffer<40>)
    ensures
        buf.text() == int_text(value as int),
{
    let negative = value < 0;
    let magnitude: u128 = if negative {
        (-(value + 1)) as u128 + 1
    } else {
        value as u128
    };
    let mut buf = TailBuffer::<40>::new();
    proof {
        lemma_unsigned_digits_len(magnitude);
    }
    push_digits(&mut buf, magnitude);
    if negative {
        buf.push_front(MINUS);
    }
    buf
}

impl uDebug for i8 {
    open spec fn debug_text(&self) -> Seq<char> {
        int_text(*self as int)
    }

    fn fmt<W>(&self, fmt: &mut Formatter<'_, W>) -> (r: Result<(), W::Error>) where
        W: uWrite + ?Sized,
    {
        let buf = render_signed(*self as i128);
        fmt.write_str(buf.as_str())
    }
}

impl uDisplay for i8 {
    open spec fn display_text(&self) -> Seq<char> {
        int_text(*self as int)
    }

    fn fmt<W>(&self, fmt: &mut Formatter<'_, W>) -> (r: Result<(), W::Error>) where
        W: uWrite + ?Sized,
    {
        <i8 as uDebug>::fmt(self, fmt)
    }
}

impl uDisplayPadded for i8 {
    fn fmt_padded<W>(
        &self,
        fmt: &mut Formatter<'_, W>,
        padding: Padding,
        pad_char: char,
    ) -> (r: Result<(), W::Error>) where W: uWrite + ?Sized {
        let buf = render_signed(*self as i128);
        fmt.write_padded(buf.as_str(), padding, pad_char)
    }
}

impl uDebug for i16 {
    open spec fn debug_text(&self) -> Seq<char> {
        int_text(*self as int)
    }

    fn fmt<W>(&self, fmt: &mut Formatter<'_, W>) -> (r: Result<(), W::Error>) where
        W: uWrite + ?Sized,
    {
        let buf = render_signed(*self as i128);
        fmt.write_str(buf.as_str())
    }
}

impl uDisplay for i16 {
    open spec fn display_text(&self) -> Seq<char> {
        int_text(*self as int)
    }

    fn fmt<W>(&self, fmt: &mut Formatter<'_, W>) -> (r: Result<(), W::Error>) where
        W: uWrite + ?Sized,
    {
        <i16 as uDebug>::fmt(self, fmt)
    }
}

impl uDisplayPadded for i16 {
    fn fmt_padded<W>(
        &self,
        fmt: &mut Formatter<'_, W>,
        padding: Padding,
        pad_char: char,
    ) -> (r: Result<(), W::Error>) where W: uWrite + ?Sized {
        let buf = render_signed(*self as i128);
        fmt.write_padded(buf.as_str(), padding, pad_char)
    }
}

impl uDebug for i32 {
    open spec fn debug_text(&self) -> Seq<char> {
        int_text(*self as int)
    }

    fn fmt<W>(&self, fmt: &mut Formatter<'_, W>) -> (r: Result<(), W::Error>) where
        W: uWrite + ?Sized,
    {
        let buf = render_signed(*self as i128);
        fmt.write_str(buf.as_str())
    }
}

impl uDisplay for i32 {
    open spec fn display_text(&self) -> Seq<char> {
        int_text(*self as int)
    }

    fn fmt<W>(&self, fmt: &mut Formatter<'_, W>) -> (r: Result<(), W::Error>) where
        W: uWrite + ?Sized,
    {
        <i32 as uDebug>::fmt(self, fmt)
    }
}

impl uDisplayPadded for i32 {
    fn fmt_padded<W>(
        &self,
        fmt: &mut Formatter<'_, W>,
        padding: Padding,
        pad_char: char,
    ) -> (r: Result<(), W::Error>) where W: uWrite + ?Sized {
        let buf = render_signed(*self as i128);
        fmt.write_padded(buf.as_str(), padding, pad_char)
    }
}

impl uDebug for isize {
    open spec fn debug_text(&self) -> Seq<char> {
        int_text(*self as int)
    }

    fn fmt<W>(&self, fmt: &mut Formatter<'_, W>) -> (r: Result<(), W::Error>) where
        W: uWrite + ?Sized,
    {
        let buf = render_signed(*self as i128);
        fmt.write_str(buf.as_str())
    }
}

impl uDisplay for isize {
    open spec fn display_text(&self) -> Seq<char> {
        int_text(*self as int)
    }

    fn fmt<W>(&self, fmt: &mut Formatter<'_, W>) -> (r: Result<(), W::Error>) where
        W: uWrite + ?Sized,
    {
        <isize as uDebug>::fmt(self, fmt)
    }
}

impl uDisplayPadded for isize {
    fn fmt_padded<W>(
        &self,
        fmt: &mut Formatter<'_, W>,
        padding: Padding,
        pad_char: char,
    ) -> (r: Result<(), W::Error>) where W: uWrite + ?Sized {
        let buf = render_signed(*self as i128);
        fmt.write_padded(buf.as_str(), padding, pad_char)
    }
}

impl uDebug for i64 {
    open spec fn debug_text(&self) -> Seq<char> {
        int_text(*self as int)
    }

    fn fmt<W>(&self, fmt: &mut Formatter<'_, W>) -> (r: Result<(), W::Error>) where
        W: uWrite + ?Sized,
    {
        let buf = render_signed(*self as i128);
        fmt.write_str(buf.as_str())
    }
}

impl uDisplay for i64 {
    open spec fn display_text(&self) -> Seq<char> {
        int_text(*self as int)
    }

    fn fmt<W>(&self, fmt: &mut Formatter<'_, W>) -> (r: Result<(), W::Error>) where
        W: uWrite + ?Sized,
    {
        <i64 as uDebug>::fmt(self, fmt)
    }
}

impl uDisplayPadded for i64 {
    fn fmt_padded<W>(
        &self,
        fmt: &mut Formatter<'_, W>,
        padding: Padding,
        pad_char: char,
    ) -> (r: Result<(), W::Error>) where W: uWrite + ?Sized {
        let buf = render_signed(*self as i128);
        fmt.write_padded(buf.as_str(), padding, pad_char)
    }
}

impl uDebug for i128 {
    open spec fn debug_text(&self) -> Seq<char> {
        int_text(*self as int)
    }

    fn fmt<W>(&self, fmt: &mut Formatter<'_, W>) -> (r: Result<(), W::Error>) where
        W: uWrite + ?Sized,
    {
        let buf = render_signed(*self);
        fmt.write_str(buf.as_str())
    }
}

impl uDisplay for i128 {
    open spec fn display_text(&self) -> Seq<char> {
        int_text(*self as int)
    }

    fn fmt<W>(&self, fmt: &mut Formatter<'_, W>) -> (r: Result<(), W::Error>) where
        W: uWrite + ?Sized,
    {
        <i128 as uDebug>::fmt(self, fmt)
    }
}

impl uDisplayPadded for i128 {
    fn fmt_padded<W>(
        &self,
        fmt: &mut Formatter<'_, W>,
        padding: Padding,
        pad_char: char,
    ) -> (r: Result<(), W::Error>) where W: uWrite + ?Sized {
        let buf = render_signed(*self);
        fmt.write_padded(buf.as_str(), padding, pad_char)
    }
}

} // verus!
