//! The never-ending byte stream returned by [`bytes()`](crate::bytes).

use vstd::prelude::*;

verus! {

/// A never-ending stream of pseudo-random bytes.
///
/// The stream holds the eight little-endian bytes of one generated value
/// and a position inside them. Whenever the position wraps back to zero,
/// the next request draws a fresh value from [`get()`](crate::get) and
/// refills the internal buffer, so every eight bytes come from one value.
///
/// A freshly constructed stream starts at position zero with a zeroed
/// buffer. Duplicating a stream does *not* copy its in-progress state: the
/// duplicate behaves as if freshly constructed, so two streams never hand
/// out the same buffered entropy bytes.
#[derive(Debug)]
pub struct Bytes {
    buf: [u8; 8],
    pos: usize,
}

impl Bytes {
    /// The position inside the internal buffer: the index of the byte
    /// that the next request will return.
    pub closed spec fn position(self) -> int {
        self.pos as int
    }

    /// The eight buffered bytes of the most recently generated value.
    pub closed spec fn buffer(self) -> Seq<u8> {
        self.buf@
    }

    /// Well-formedness: the position stays inside the eight-byte buffer.
    pub open spec fn wf(self) -> bool {
        0 <= self.position() < 8 && self.buffer().len() == 8
    }

    /// Returns a fresh stream: position zero, zeroed buffer.
    pub fn new() -> (r: Bytes)
        ensures
            r.wf(),
            r.position() == 0,
            r.buffer() =~= seq![0u8, 0u8, 0u8, 0u8, 0u8, 0u8, 0u8, 0u8],
    {
        Bytes { buf: [0u8, 0u8, 0u8, 0u8, 0u8, 0u8, 0u8, 0u8], pos: 0 }
    }

    /// Returns the next byte of the stream; there always is one.
    ///
    /// The returned byte is the one at the old position of the buffer,
    /// after the buffer has been refilled from a fresh [`get()`](crate::get)
    /// value if the old position was zero; at any other position the
    /// buffer is left as it was. The position advances by one, wrapping
    /// from seven back to zero.
    pub fn next(&mut self) -> (r: Option<u8>)
        requires
            old(self).wf(),
        ensures
            final(self).wf(),
            r is Some,
            final(self).position() == (old(self).position() + 1) % 8,
            old(self).position() != 0 ==> final(self).buffer() == old(self).buffer(),
            r == Some(final(self).buffer()[old(self).position()]),
    {
        if self.pos == 0 {
            self.buf = crate::word_to_le_bytes(crate::get());
        }
        let pos: usize = self.pos;
        self.pos = (pos + 1) % 8;
        Some(self.buf[pos])
    }

    /// Skips `n` bytes of the stream and returns the one after them, as
    /// `n + 1` single-byte advances would: the position moves forward by
    /// `n + 1`, wrapping inside the eight-byte buffer, and as long as the
    /// advances stay inside the current buffer the returned byte is the
    /// buffered one `n` places past the old position.
    pub fn nth(&mut self, n: usize) -> (r: Option<u8>)
        requires
            old(self).wf(),
        ensures
            final(self).wf(),
            r is Some,
            final(self).position() == (old(self).position() + 1 + n) % 8,
            old(self).position() != 0 && old(self).position() + 1 + n <= 8 ==> (
            final(self).buffer() == old(self).buffer() && r == Some(
                old(self).buffer()[old(self).position() + n],
            )),
    {
        let ghost orig = *self;
        let mut r = self.next();
        let mut taken: usize = 0;
        while taken < n
            invariant
                self.wf(),
                taken <= n,
                orig.wf(),
                self.position() == (orig.position() + 1 + taken) % 8,
                r is Some,
                orig.position() != 0 && orig.position() + 1 + taken <= 8 ==> (
                self.buffer() == orig.buffer() && r == Some(
                    orig.buffer()[orig.position() + taken],
                )),
            decreases n - taken,
        {
            proof {
                vstd::arithmetic::div_mod::lemma_add_mod_noop(
                    orig.position() + 1 + taken,
                    1,
                    8,
                );
                if orig.position() + 1 + taken < 8 {
                    vstd::arithmetic::div_mod::lemma_small_mod(
                        (orig.position() + 1 + taken) as nat,
                        8nat,
                    );
                }
            }
            r = self.next();
            taken = taken + 1;
        }
        r
    }

    /// The stream never ends: at least `usize::MAX` bytes remain, and
    /// there is no upper bound.
    pub fn size_hint(&self) -> (r: (usize, Option<usize>))
        ensures
            r.0 == usize::MAX,
            r.1 is None,
    {
        (usize::MAX, None)
    }
}

impl Default for Bytes {
    /// A defaulted stream is a fresh stream: position zero, zeroed buffer.
    fn default() -> (r: Self)
        ensures
            r.wf(),
            r.position() == 0,
            r.buffer() =~= seq![0u8, 0u8, 0u8, 0u8, 0u8, 0u8, 0u8, 0u8],
    {
        Bytes::new()
    }
}

impl Clone for Bytes {
    /// A duplicate begins a brand-new sequence instead of replaying the
    /// original's buffered bytes: it is indistinguishable from a freshly
    /// constructed stream.
    fn clone(&self) -> (r: Self)
        ensures
            r.wf(),
            r.position() == 0,
            r.buffer() =~= seq![0u8, 0u8, 0u8, 0u8, 0u8, 0u8, 0u8, 0u8],
    {
        Bytes::new()
    }
}

} // verus!
