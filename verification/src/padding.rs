//! Alignment and minimum field width of a rendered value.

use vstd::prelude::*;

verus! {

/// How a rendered value is placed inside its field.
///
/// The number carried by each variant is the minimum length of the whole
/// field, counted in characters.  A value that is longer than the field is
/// written in full: padding only ever adds characters.
#[derive(Clone, Copy, Debug, PartialEq, Eq, Structural)]
pub enum Padding {
    /// The value comes first, the fill characters after it.
    LeftAligned(usize),
    /// The conventional placement of numbers: the same as `RightAligned`.
    Usual(usize),
    /// The fill characters are split around the value; if their number is
    /// odd, the extra one goes behind the value.
    CenterAligned(usize),
    /// The fill characters come first, the value after them.
    RightAligned(usize),
}

impl Padding {
    /// The minimum field length.
    pub open spec fn width(self) -> nat {
        match self {
            Padding::LeftAligned(w) => w as nat,
            Padding::Usual(w) => w as nat,
            Padding::CenterAligned(w) => w as nat,
            Padding::RightAligned(w) => w as nat,
        }
    }

    /// The number of fill characters that a value of `len` characters needs.
    pub open spec fn fill_total(self, len: nat) -> nat {
        if self.width() > len {
            (self.width() - len) as nat
        } else {
            0
        }
    }

    /// The number of fill characters in front of a value of `len` characters.
    pub open spec fn lead(self, len: nat) -> nat {
        match self {
            Padding::LeftAligned(_) => 0,
            Padding::Usual(_) => self.fill_total(len),
            Padding::CenterAligned(_) => self.fill_total(len) / 2,
            Padding::RightAligned(_) => self.fill_total(len),
        }
    }

    /// The number of fill characters behind a value of `len` characters.
    pub open spec fn trail(self, len: nat) -> nat {
        (self.fill_total(len) - self.lead(len)) as nat
    }

    /// Computes how many fill characters go in front of and behind a value
    /// of `len` characters.
    pub fn fill_counts(&self, len: usize) -> (counts: (usize, usize))
        ensures
            counts.0 == self.lead(len as nat),
            counts.1 == self.trail(len as nat),
    {
        match *self {
            Padding::LeftAligned(w) => (0, w.saturating_sub(len)),
            Padding::Usual(w) => (w.saturating_sub(len), 0),
            Padding::RightAligned(w) => (w.saturating_sub(len), 0),
            Padding::CenterAligned(w) => {
                let total: usize = w.saturating_sub(len);
                let half: usize = total / 2;
                (half, total - half)
            },
        }
    }
}

/// `count` copies of `c`.
pub open spec fn fill(c: char, count: nat) -> Seq<char> {
    Seq::new(count, |i: int| c)
}

/// The field that results from placing `content` according to `padding`,
/// with `pad_char` as the fill character.
pub open spec fn padded(content: Seq<char>, padding: Padding, pad_char: char) -> Seq<char> {
    fill(pad_char, padding.lead(content.len())) + content + fill(
        pad_char,
        padding.trail(content.len()),
    )
}

/// A padded field is as long as the wider of the field width and the value.
pub proof fn lemma_padded_len(content: Seq<char>, padding: Padding, pad_char: char)
    ensures
        padded(content, padding, pad_char).len() == if padding.width() > content.len() {
            padding.width()
        } else {
            content.len()
        },
{
}

/// Padding never truncates: the value stands whole inside the field, right
/// behind the leading fill characters, and everything around it is fill.
pub proof fn lemma_padded_keeps_content(content: Seq<char>, padding: Padding, pad_char: char)
    ensures
        padded(content, padding, pad_char).subrange(
            padding.lead(content.len()) as int,
            (padding.lead(content.len()) + content.len()) as int,
        ) == content,
        forall|i: int|
            0 <= i < padding.lead(content.len()) ==> padded(content, padding, pad_char)[i]
                == pad_char,
        forall|i: int|
            padding.lead(content.len()) + content.len() <= i < padded(
                content,
                padding,
                pad_char,
            ).len() ==> padded(content, padding, pad_char)[i] == pad_char,
{
}

/// Centring puts half of the fill characters on each side, and the odd one,
/// if there is one, behind the value.
pub proof fn lemma_center_split(width: usize, len: nat)
    ensures
        Padding::CenterAligned(width).lead(len) <= Padding::CenterAligned(width).trail(len),
        Padding::CenterAligned(width).trail(len) <= Padding::CenterAligned(width).lead(len) + 1,
        Padding::CenterAligned(width).lead(len) + Padding::CenterAligned(width).trail(len)
            == Padding::CenterAligned(width).fill_total(len),
{
}

/// A value that fills its field is written as it is.
pub proof fn lemma_padded_without_room(content: Seq<char>, padding: Padding, pad_char: char)
    requires
        padding.width() <= content.len(),
    ensures
        padded(content, padding, pad_char) == content,
{
}

} // verus!
