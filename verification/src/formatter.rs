//! The formatter: a writer bound for the time of one rendering call.

use vstd::prelude::*;
use vstd::string::StrSliceExecFns;
use crate::padding::{fill, padded, Padding};
use crate::write::{lemma_partly_written_later, partly_written, state_of, uWrite};

verus! {

/// Borrows a writer for one rendering call and passes text on to it.
///
/// A formatter keeps nothing but the borrow.  Whatever it is asked to write
/// goes to the writer at once, and the first failure ends the call.
///
/// Every operation says two things of the writer: what it has taken in by
/// the end of the operation, and that the formatter is still bound to the
/// same writer, so that the writer holds, once the borrow is over, what the
/// formatter's last state says.
pub struct Formatter<'a, W: uWrite + ?Sized> {
    /// The borrowed writer.
    pub inner: &'a mut W,
}

impl<'a, W: uWrite + ?Sized> Formatter<'a, W> {
    /// The text that the borrowed writer has taken in so far.
    pub open spec fn written(&self) -> Seq<char> {
        self.inner.written()
    }

    /// The error of the borrowed writer's latest write, if that write
    /// failed.
    pub open spec fn failed(&self) -> Option<W::Error> {
        self.inner.failed()
    }

    /// Whether the borrowed writer is sure to take in whatever it is handed.
    pub open spec fn unfailing(&self) -> bool {
        self.inner.unfailing()
    }

    /// Binds `writer`.  When the formatter is dropped, `writer` holds what
    /// the formatter's last state says.
    pub fn new(writer: &'a mut W) -> (f: Self)
        ensures
            state_of(&*f.inner) == state_of(&*old(writer)),
            state_of(&*final(f.inner)) == state_of(&*final(writer)),
    {
        Formatter { inner: writer }
    }

    /// Passes a fragment on to the writer.
    pub fn write_str(&mut self, s: &str) -> (r: Result<(), W::Error>)
        ensures
            r is Ok ==> final(self).written() == old(self).written() + s@,
            r is Err ==> partly_written(old(self).written(), final(self).written(), s@),
            r matches Err(e) ==> final(self).failed() == Some(e),
            old(self).unfailing() ==> r is Ok && final(self).unfailing(),
            state_of(&*final(final(self).inner)) == state_of(&*final(old(self).inner)),
    {
        self.inner.write_str(s)
    }

    /// Passes a single character on to the writer.
    pub fn write_char(&mut self, c: char) -> (r: Result<(), W::Error>)
        ensures
            r is Ok ==> final(self).written() == old(self).written().push(c),
            r is Err ==> partly_written(old(self).written(), final(self).written(), seq![c]),
            r matches Err(e) ==> final(self).failed() == Some(e),
            old(self).unfailing() ==> r is Ok && final(self).unfailing(),
            state_of(&*final(final(self).inner)) == state_of(&*final(old(self).inner)),
    {
        self.inner.write_char(c)
    }

    /// Writes `count` copies of `c`, one at a time.
    fn write_fill(&mut self, c: char, count: usize) -> (r: Result<(), W::Error>)
        ensures
            r is Ok ==> final(self).written() == old(self).written() + fill(c, count as nat),
            r is Err ==> partly_written(
                old(self).written(),
                final(self).written(),
                fill(c, count as nat),
            ),
            r matches Err(e) ==> final(self).failed() == Some(e),
            old(self).unfailing() ==> r is Ok && final(self).unfailing(),
            state_of(&*final(final(self).inner)) == state_of(&*final(old(self).inner)),
    {
        let mut done: usize = 0;
        while done < count
            invariant
                done <= count,
                self.written() == old(self).written() + fill(c, done as nat),
                old(self).unfailing() ==> self.unfailing(),
                state_of(&*final(self.inner)) == state_of(&*final(old(self).inner)),
            decreases count - done,
        {
            match self.write_char(c) {
                Ok(()) => {},
                Err(e) => {
                    proof {
                        assert(fill(c, done as nat) + seq![c] + fill(c, (count - done - 1) as nat)
                            == fill(c, count as nat));
                        lemma_partly_written_later(
                            old(self).written(),
                            self.written(),
                            fill(c, done as nat),
                            seq![c],
                            fill(c, (count - done - 1) as nat),
                        );
                    }
                    return Err(e);
                },
            }
            proof {
                assert(fill(c, done as nat).push(c) == fill(c, (done + 1) as nat));
            }
            done = done + 1;
        }
        Ok(())
    }

    /// Writes `content` in a field laid out by `padding`, with `pad_char` as
    /// the fill character: the leading fill characters, then the content in
    /// one piece, then the trailing fill characters.
    ///
    /// The length of `content` is counted in characters.
    pub fn write_padded(&mut self, content: &str, padding: Padding, pad_char: char) -> (r: Result<
        (),
        W::Error,
    >)
        ensures
            r is Ok ==> final(self).written() == old(self).written() + padded(
                content@,
                padding,
                pad_char,
            ),
            r is Err ==> partly_written(
                old(self).written(),
                final(self).written(),
                padded(content@, padding, pad_char),
            ),
            r matches Err(e) ==> final(self).failed() == Some(e),
            old(self).unfailing() ==> r is Ok && final(self).unfailing(),
            state_of(&*final(final(self).inner)) == state_of(&*final(old(self).inner)),
    {
        let len: usize = content.unicode_len();
        let (lead, trail): (usize, usize) = padding.fill_counts(len);
        let ghost front = fill(pad_char, lead as nat);
        let ghost back = fill(pad_char, trail as nat);
        let ghost empty = Seq::<char>::empty();
        let ghost start = self.written();
        assert(padded(content@, padding, pad_char) == front + content@ + back);
        match self.write_fill(pad_char, lead) {
            Ok(()) => {},
            Err(e) => {
                proof {
                    assert(start + empty == start);
                    assert(empty + front + (content@ + back) == front + content@ + back);
                    lemma_partly_written_later(start, self.written(), empty, front, content@ + back);
                }
                return Err(e);
            },
        }
        match self.write_str(content) {
            Ok(()) => {},
            Err(e) => {
                proof {
                    lemma_partly_written_later(start, self.written(), front, content@, back);
                }
                return Err(e);
            },
        }
        match self.write_fill(pad_char, trail) {
            Ok(()) => {},
            Err(e) => {
                proof {
                    assert(start + front + content@ == start + (front + content@));
                    assert(front + content@ + back + empty == front + content@ + back);
                    lemma_partly_written_later(
                        start,
                        self.written(),
                        front + content@,
                        back,
                        empty,
                    );
                }
                return Err(e);
            },
        }
        assert(start + front + content@ + back == start + (front + content@ + back));
        Ok(())
    }
}

} // verus!
