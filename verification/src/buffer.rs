//! The fixed-capacity buffer that a value is rendered into.

use vstd::prelude::*;
use vstd::slice::slice_subrange;
use vstd::string::StringSliceAdditionalSpecFns;
use vstd::utf8::*;

verus! {

/// The error type of `core::str::from_utf8`.  Nothing is said of its
/// contents.
#[verifier::external_type_specification]
#[verifier::external_body]
pub struct ExUtf8Error(core::str::Utf8Error);

/// `core::str::from_utf8` succeeds exactly on byte strings that are valid
/// UTF-8, and the string slice it then returns has those very bytes.
pub assume_specification[ core::str::from_utf8 ](v: &[u8]) -> (r: Result<
    &str,
    core::str::Utf8Error,
>)
    ensures
        r is Ok <==> valid_utf8(v@),
        r matches Ok(s) ==> s.spec_bytes() == v@,
;

/// A buffer of `N` bytes that is filled from its end towards its beginning.
///
/// Digits come out of a number least significant first, so a rendering
/// writes its last character first.  The buffer keeps the text in the tail
/// of a fixed array and grows it at the front, one ASCII byte at a time.
/// Nothing is allocated, every byte is written before it is read, and the
/// text that has been put in can be borrowed as a string slice at any time.
pub struct TailBuffer<const N: usize> {
    bytes: [u8; N],
    start: usize,
}

impl<const N: usize> TailBuffer<N> {
    #[verifier::type_invariant]
    spec fn is_ascii_tail(self) -> bool {
        &&& self.start <= N
        &&& forall|i: int| self.start <= i < N ==> self.bytes[i] < 128
    }

    /// The text that the buffer holds.
    pub closed spec fn text(&self) -> Seq<char> {
        Seq::new((N - self.start) as nat, |i: int| self.bytes[self.start + i] as char)
    }

    /// The number of bytes that are still free.
    pub closed spec fn room(&self) -> nat {
        self.start as nat
    }

    /// An empty buffer.
    pub(crate) fn new() -> (buf: Self)
        ensures
            buf.text() == Seq::<char>::empty(),
            buf.room() == N,
    {
        TailBuffer { bytes: [0u8; N], start: N }
    }

    /// Puts the ASCII character with code `byte` in front of the text.
    pub(crate) fn push_front(&mut self, byte: u8)
        requires
            old(self).room() > 0,
            byte < 128,
        ensures
            final(self).text() == seq![byte as char] + old(self).text(),
            final(self).room() == old(self).room() - 1,
    {
        proof {
            use_type_invariant(&*self);
        }
        let at: usize = self.start - 1;
        self.bytes[at] = byte;
        self.start = at;
    }

    /// The length of the text.
    pub fn len(&self) -> (n: usize)
        ensures
            n == self.text().len(),
            n + self.room() == N,
    {
        proof {
            use_type_invariant(self);
        }
        N - self.start
    }

    /// The text, borrowed from the buffer.
    pub fn as_str(&self) -> (s: &str)
        ensures
            s@ == self.text(),
    {
        proof {
            use_type_invariant(self);
        }
        let tail = slice_subrange(self.bytes.as_slice(), self.start, N);
        proof {
            let chars = self.text();
            assert(is_ascii_chars(chars));
            is_ascii_chars_encode_utf8(chars);
            assert(encode_utf8(chars) =~= tail@);
            encode_utf8_valid_utf8(chars);
            encode_utf8_decode_utf8(chars);
        }
        match core::str::from_utf8(tail) {
            Ok(s) => {
                proof {
                    encode_utf8_decode_utf8(s@);
                }
                s
            },
            // Unreachable: ASCII bytes are valid UTF-8.
            Err(_) => "",
        }
    }
}

} // verus!
