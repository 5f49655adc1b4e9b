//! The unsigned integers.
//!
//! Every width is widened to 128 bits and rendered by [`render_unsigned`].
//! The debug and the display rendering of an integer are the same text: its
//! decimal digits.

use vstd::prelude::*;
use crate::buffer::TailBuffer;
use crate::decimal::{decimal_digits, lemma_decimal_digits_len, pow10, push_digits};
use crate::formatter::Formatter;
use crate::padding::Padding;
use crate::traits::{uDebug, uDisplay, uDisplayPadded};
use crate::write::uWrite;

verus! {

/// No unsigned integer of 128 bits has more than 39 digits.
pub proof fn lemma_unsigned_digits_len(value: u128)
    ensures
        decimal_digits(value as nat).len() <= 39,
{
    assert(pow10(39) == 1_000_000_000_000_000_000_000_000_000_000_000_000_000) by {
        reveal_with_fuel(pow10, 40);
    }
    lemma_decimal_digits_len(value as nat, 39);
}

/// Renders an unsigned integer into a buffer that is large enough for
/// every integer of 128 bits and a sign.
pub fn render_unsigned(value: u128) -> (buf: TailBuffer<40>)
    ensures
        buf.text() == decimal_digits(value as nat),
{
    let mut buf = TailBuffer::<40>::new();
    proof {
        lemma_unsigned_digits_len(value);
    }
    push_digits(&mut buf, value);
    buf
}

impl uDebug for u8 {
    open spec fn debug_text(&self) -> Seq<char> {
        decimal_digits(*self as nat)
    }

    fn fmt<W>(&self, fmt: &mut Formatter<'_, W>) -> (r: Result<(), W::Error>) where
        W: uWrite + ?Sized,
    {
        let buf = render_unsigned(*self as u128);
        fmt.write_str(buf.as_str())
    }
}

impl uDisplay for u8 {
    open spec fn display_text(&self) -> Seq<char> {
        decimal_digits(*self as nat)
    }

    fn fmt<W>(&self, fmt: &mut Formatter<'_, W>) -> (r: Result<(), W::Error>) where
        W: uWrite + ?Sized,
    {
        <u8 as uDebug>::fmt(self, fmt)
    }
}

impl uDisplayPadded for u8 {
    fn fmt_padded<W>(
        &self,
        fmt: &mut Formatter<'_, W>,
        padding: Padding,
        pad_char: char,
    ) -> (r: Result<(), W::Error>) where W: uWrite + ?Sized {
        let buf = render_unsigned(*self as u128);
        fmt.write_padded(buf.as_str(), padding, pad_char)
    }
}

impl uDebug for u16 {
    open spec fn debug_text(&self) -> Seq<char> {
        decimal_digits(*self as nat)
    }

    fn fmt<W>(&self, fmt: &mut Formatter<'_, W>) -> (r: Result<(), W::Error>) where
        W: uWrite + ?Sized,
    {
        let buf = render_unsigned(*self as u128);
        fmt.write_str(buf.as_str())
    }
}

impl uDisplay for u16 {
    open spec fn display_text(&self) -> Seq<char> {
        decimal_digits(*self as nat)
    }

    fn fmt<W>(&self, fmt: &mut Formatter<'_, W>) -> (r: Result<(), W::Error>) where
        W: uWrite + ?Sized,
    {
        <u16 as uDebug>::fmt(self, fmt)
    }
}

impl uDisplayPadded for u16 {
    fn fmt_padded<W>(
        &self,
        fmt: &mut Formatter<'_, W>,
        padding: Padding,
        pad_char: char,
    ) -> (r: Result<(), W::Error>) where W: uWrite + ?Sized {
        let buf = render_unsigned(*self as u128);
        fmt.write_padded(buf.as_str(), padding, pad_char)
    }
}

impl uDebug for u32 {
    open spec fn debug_text(&self) -> Seq<char> {
        decimal_digits(*self as nat)
    }

    fn fmt<W>(&self, fmt: &mut Formatter<'_, W>) -> (r: Result<(), W::Error>) where
        W: uWrite + ?Sized,
    {
        let buf = render_unsigned(*self as u128);
        fmt.write_str(buf.as_str())
    }
}

impl uDisplay for u32 {
    open spec fn display_text(&self) -> Seq<char> {
        decimal_digits(*self as nat)
    }

    fn fmt<W>(&self, fmt: &mut Formatter<'_, W>) -> (r: Result<(), W::Error>) where
        W: uWrite + ?Sized,
    {
        <u32 as uDebug>::fmt(self, fmt)
    }
}

impl uDisplayPadded for u32 {
    fn fmt_padded<W>(
        &self,
        fmt: &mut Formatter<'_, W>,
        padding: Padding,
        pad_char: char,
    ) -> (r: Result<(), W::Error>) where W: uWrite + ?Sized {
        let buf = render_unsigned(*self as u128);
        fmt.write_padded(buf.as_str(), padding, pad_char)
    }
}

impl uDebug for usize {
    open spec fn debug_text(&self) -> Seq<char> {
        decimal_digits(*self as nat)
    }

    fn fmt<W>(&self, fmt: &mut Formatter<'_, W>) -> (r: Result<(), W::Error>) where
        W: uWrite + ?Sized,
    {
        let buf = render_unsigned(*self as u128);
        fmt.write_str(buf.as_str())
    }
}

impl uDisplay for usize {
    open spec fn display_text(&self) -> Seq<char> {
        decimal_digits(*self as nat)
    }

    fn fmt<W>(&self, fmt: &mut Formatter<'_, W>) -> (r: Result<(), W::Error>) where
        W: uWrite + ?Sized,
    {
        <usize as uDebug>::fmt(self, fmt)
    }
}

impl uDisplayPadded for usize {
    fn fmt_padded<W>(
        &self,
        fmt: &mut Formatter<'_, W>,
        padding: Padding,
        pad_char: char,
    ) -> (r: Result<(), W::Error>) where W: uWrite + ?Sized {
        let buf = render_unsigned(*self as u128);
        fmt.write_padded(buf.as_str(), padding, pad_char)
    }
}

impl uDebug for u64 {
    open spec fn debug_text(&self) -> Seq<char> {
        decimal_digits(*self as nat)
    }

    fn fmt<W>(&self, fmt: &mut Formatter<'_, W>) -> (r: Result<(), W::Error>) where
        W: uWrite + ?Sized,
    {
        let buf = render_unsigned(*self as u128);
        fmt.write_str(buf.as_str())
    }
}

impl uDisplay for u64 {
    open spec fn display_text(&self) -> Seq<char> {
        decimal_digits(*self as nat)
    }

    fn fmt<W>(&self, fmt: &mut Formatter<'_, W>) -> (r: Result<(), W::Error>) where
        W: uWrite + ?Sized,
    {
        <u64 as uDebug>::fmt(self, fmt)
    }
}

impl uDisplayPadded for u64 {
    fn fmt_padded<W>(
        &self,
        fmt: &mut Formatter<'_, W>,
        padding: Padding,
        pad_char: char,
    ) -> (r: Result<(), W::Error>) where W: uWrite + ?Sized {
        let buf = render_unsigned(*self as u128);
        fmt.write_padded(buf.as_str(), padding, pad_char)
    }
}

impl uDebug for u128 {
    open spec fn debug_text(&self) -> Seq<char> {
        decimal_digits(*self as nat)
    }

    fn fmt<W>(&self, fmt: &mut Formatter<'_, W>) -> (r: Result<(), W::Error>) where
        W: uWrite + ?Sized,
    {
        let buf = render_unsigned(*self);
        fmt.write_str(buf.as_str())
    }
}

impl uDisplay for u128 {
    open spec fn display_text(&self) -> Seq<char> {
        decimal_digits(*self as nat)
    }

    fn fmt<W>(&self, fmt: &mut Formatter<'_, W>) -> (r: Result<(), W::Error>) where
        W: uWrite + ?Sized,
    {
        <u128 as uDebug>::fmt(self, fmt)
    }
}

impl uDisplayPadded for u128 {
    fn fmt_padded<W>(
        &self,
        fmt: &mut Formatter<'_, W>,
        padding: Padding,
        pad_char: char,
    ) -> (r: Result<(), W::Error>) where W: uWrite + ?Sized {
        let buf = render_unsigned(*self);
        fmt.write_padded(buf.as_str(), padding, pad_char)
    }
}

} // verus!
