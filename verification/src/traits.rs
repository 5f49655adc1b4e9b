//! What it takes for a value to be rendered.

use vstd::prelude::*;
use crate::formatter::Formatter;
use crate::padding::{padded, Padding};
use crate::write::{partly_written, state_of, uWrite};

verus! {

/// A value with a rendering for the eyes of a programmer.
#[allow(non_camel_case_types)]
pub trait uDebug {
    /// The debug rendering of the value.
    spec fn debug_text(&self) -> Seq<char>;

    /// Writes the debug rendering of the value.
    ///
    /// The first failure of the writer ends the call; by then the writer
    /// has taken in no more than a leading part of the rendering.
    fn fmt<W>(&self, fmt: &mut Formatter<'_, W>) -> (r: Result<(), W::Error>) where
        W: uWrite + ?Sized,

        ensures
            r is Ok ==> final(fmt).written() == old(fmt).written() + self.debug_text(),
            r is Err ==> partly_written(
                old(fmt).written(),
                final(fmt).written(),
                self.debug_text(),
            ),
            r matches Err(e) ==> final(fmt).failed() == Some(e),
            old(fmt).unfailing() ==> r is Ok && final(fmt).unfailing(),
            state_of(&*final(final(fmt).inner)) == state_of(&*final(old(fmt).inner)),
    ;
}

/// A value with a rendering for the eyes of a user.
#[allow(non_camel_case_types)]
pub trait uDisplay {
    /// The display rendering of the value.
    spec fn display_text(&self) -> Seq<char>;

    /// Writes the display rendering of the value.
    ///
    /// The first failure of the writer ends the call; by then the writer
    /// has taken in no more than a leading part of the rendering.
    fn fmt<W>(&self, fmt: &mut Formatter<'_, W>) -> (r: Result<(), W::Error>) where
        W: uWrite + ?Sized,

        ensures
            r is Ok ==> final(fmt).written() == old(fmt).written() + self.display_text(),
            r is Err ==> partly_written(
                old(fmt).written(),
                final(fmt).written(),
                self.display_text(),
            ),
            r matches Err(e) ==> final(fmt).failed() == Some(e),
            old(fmt).unfailing() ==> r is Ok && final(fmt).unfailing(),
            state_of(&*final(final(fmt).inner)) == state_of(&*final(old(fmt).inner)),
    ;
}

/// A value whose display rendering can be placed in a padded field.
#[allow(non_camel_case_types)]
pub trait uDisplayPadded: uDisplay {
    /// Writes the display rendering of the value in a field laid out by
    /// `padding`, with `pad_char` as the fill character.
    fn fmt_padded<W>(&self, fmt: &mut Formatter<'_, W>, padding: Padding, pad_char: char) -> (r:
        Result<(), W::Error>) where W: uWrite + ?Sized

        ensures
            r is Ok ==> final(fmt).written() == old(fmt).written() + padded(
                self.display_text(),
                padding,
                pad_char,
            ),
            r is Err ==> partly_written(
                old(fmt).written(),
                final(fmt).written(),
                padded(self.display_text(), padding, pad_char),
            ),
            r matches Err(e) ==> final(fmt).failed() == Some(e),
            old(fmt).unfailing() ==> r is Ok && final(fmt).unfailing(),
            state_of(&*final(final(fmt).inner)) == state_of(&*final(old(fmt).inner)),
    ;
}

/// A value that can be written with a fixed count of decimal places.
#[allow(non_camel_case_types)]
pub trait uDisplayFloat {
    /// The rendering of the value with `decimal_places` decimal places in a
    /// field laid out by `padding`.
    spec fn float_text(&self, decimal_places: usize, padding: Padding, pad_char: char) -> Seq<
        char,
    >;

    /// Writes the value with `decimal_places` decimal places in a field
    /// laid out by `padding`, with `pad_char` as the fill character.
    fn fmt_float<W>(
        &self,
        fmt: &mut Formatter<'_, W>,
        decimal_places: usize,
        padding: Padding,
        pad_char: char,
    ) -> (r: Result<(), W::Error>) where W: uWrite + ?Sized

        ensures
            r is Ok ==> final(fmt).written() == old(fmt).written() + self.float_text(
                decimal_places,
                padding,
                pad_char,
            ),
            r is Err ==> partly_written(
                old(fmt).written(),
                final(fmt).written(),
                self.float_text(decimal_places, padding, pad_char),
            ),
            r matches Err(e) ==> final(fmt).failed() == Some(e),
            old(fmt).unfailing() ==> r is Ok && final(fmt).unfailing(),
            state_of(&*final(final(fmt).inner)) == state_of(&*final(old(fmt).inner)),
    ;
}

} // verus!
