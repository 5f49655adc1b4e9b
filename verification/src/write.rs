//! The writer that rendered text is handed to.

use vstd::prelude::*;

verus! {

/// A destination for rendered text.
///
/// The engine only ever hands fragments and single characters to a writer;
/// it never reads from it.  Either operation may fail with an error of the
/// writer's own choosing.
///
/// Implementations are held to the contracts below.  For one that is
/// written inside `verus!` they are proved; for any other they are taken on
/// trust.
#[allow(non_camel_case_types)]
pub trait uWrite {
    /// The error that a failed write reports.
    type Error;

    /// The text that this writer has taken in so far.
    spec fn written(&self) -> Seq<char>;

    /// The error of the latest write, if that write failed.  A writer that
    /// never fails has none to tell of.
    open spec fn failed(&self) -> Option<Self::Error> {
        None
    }

    /// Whether this writer is sure to take in whatever it is handed, now
    /// and from now on.  A writer makes no such promise unless its
    /// implementation says so.
    open spec fn unfailing(&self) -> bool {
        false
    }

    /// Writes a fragment.
    ///
    /// Success means that the whole fragment has been taken in.  After a
    /// failure nothing but a leading part of the fragment, possibly none of
    /// it, has been added.
    fn write_str(&mut self, s: &str) -> (r: Result<(), Self::Error>)
        ensures
            r is Ok ==> final(self).written() == old(self).written() + s@,
            r is Ok ==> final(self).failed() is None,
            r is Err ==> partly_written(old(self).written(), final(self).written(), s@),
            r matches Err(e) ==> final(self).failed() == Some(e),
            old(self).unfailing() ==> r is Ok && final(self).unfailing(),
    ;

    /// Writes a single character, by way of [`uWrite::write_str`] unless the
    /// implementation has something better.
    fn write_char(&mut self, c: char) -> (r: Result<(), Self::Error>)
        ensures
            r is Ok ==> final(self).written() == old(self).written().push(c),
            r is Ok ==> final(self).failed() is None,
            r is Err ==> partly_written(old(self).written(), final(self).written(), seq![c]),
            r matches Err(e) ==> final(self).failed() == Some(e),
            old(self).unfailing() ==> r is Ok && final(self).unfailing(),
    {
        let mut buf: [u8; 4] = [0u8; 4];
        let s = encoded(c, &mut buf);
        let r = self.write_str(s);
        proof {
            assert(old(self).written() + seq![c] == old(self).written().push(c));
        }
        r
    }
}

/// What the contracts read of a writer: the text it has taken in, the
/// error of its latest write, and whether it is sure never to fail.
pub open spec fn state_of<W: uWrite + ?Sized>(writer: &W) -> (Seq<char>, Option<W::Error>, bool) {
    (writer.written(), writer.failed(), writer.unfailing())
}

/// `after` is `before` followed by a leading part of `text`: what a writer
/// holds when a write of `text` has stopped somewhere along the way.
pub open spec fn partly_written(before: Seq<char>, after: Seq<char>, text: Seq<char>) -> bool {
    before.is_prefix_of(after) && after.is_prefix_of(before + text)
}

/// A write that stops inside a later fragment has stopped inside the whole:
/// if `head` went through and only a leading part of `tail` followed, then
/// what was taken in is a leading part of `head + tail + rest`.
pub proof fn lemma_partly_written_later(
    before: Seq<char>,
    after: Seq<char>,
    head: Seq<char>,
    tail: Seq<char>,
    rest: Seq<char>,
)
    requires
        partly_written(before + head, after, tail),
    ensures
        partly_written(before, after, head + tail + rest),
{
    assert((before + head) + tail == before + (head + tail));
    let whole = before + (head + tail + rest);
    assert(after.is_prefix_of(whole)) by {
        assert(after =~= (before + (head + tail)).subrange(0, after.len() as int));
        assert(after =~= whole.subrange(0, after.len() as int));
    }
    assert(before.is_prefix_of(after)) by {
        assert(before =~= after.subrange(0, before.len() as int));
    }
}

/// Rendering keeps no state.  Every rendering leaves its writer with what
/// it held before and, behind that, a text that the value and its layout
/// settle between them.  So two writers that have each taken in a rendering
/// of the same value have taken in the same characters, whatever they held
/// before.
pub proof fn lemma_same_text_in_every_writer(
    text: Seq<char>,
    first_before: Seq<char>,
    first_after: Seq<char>,
    second_before: Seq<char>,
    second_after: Seq<char>,
)
    requires
        first_after == first_before + text,
        second_after == second_before + text,
    ensures
        first_after.skip(first_before.len() as int) == text,
        first_after.skip(first_before.len() as int) == second_after.skip(
            second_before.len() as int,
        ),
{
}

/// `char::encode_utf8`: the returned string holds exactly the character
/// `c`.  A buffer of four bytes is large enough for every character, so the
/// call cannot panic.
#[verifier::external_body]
fn encoded<'a>(c: char, buf: &'a mut [u8; 4]) -> (s: &'a str)
    ensures
        s@ == seq![c],
{
    c.encode_utf8(buf)
}

/// A `String` takes in everything and never fails.
impl uWrite for String {
    type Error = core::convert::Infallible;

    open spec fn written(&self) -> Seq<char> {
        self@
    }

    open spec fn unfailing(&self) -> bool {
        true
    }

    fn write_str(&mut self, s: &str) -> (r: Result<(), Self::Error>) {
        self.append(s);
        Ok(())
    }
}

} // verus!
