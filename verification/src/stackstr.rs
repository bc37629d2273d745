//! A bounded text buffer: a fixed capacity chosen by the type, append
//! with truncate-and-fail semantics, no allocation growth beyond the
//! capacity. The contents are bytes; the caller decides what encoding
//! they carry.

use vstd::prelude::*;

verus! {

/// A write did not fit; the buffer kept as much as it could.
#[derive(Clone, Copy, Debug, PartialEq, Eq, Structural)]
pub struct StackStrOverflow;

/// Text buffer of at most `N` bytes.
pub struct StackStr<const N: usize> {
    buf: Vec<u8>,
}

impl<const N: usize> View for StackStr<N> {
    type V = Seq<u8>;

    closed spec fn view(&self) -> Seq<u8> {
        self.buf@
    }
}

impl<const N: usize> StackStr<N> {
    /// The contents never outgrow the capacity.
    pub open spec fn wf(&self) -> bool {
        self@.len() <= N
    }

    /// An empty buffer.
    pub fn new() -> (r: StackStr<N>)
        ensures
            r@ == Seq::<u8>::empty(),
            r.wf(),
    {
        StackStr { buf: Vec::new() }
    }

    /// Replace the contents with `text`. When `text` does not fit, its
    /// first `N` bytes are kept and the overflow is reported.
    pub fn format(&mut self, text: &[u8]) -> (r: Result<(), StackStrOverflow>)
        ensures
            final(self).wf(),
            match r {
                Ok(()) => final(self)@ == text@ && text@.len() <= N,
                Err(_) => final(self)@ == text@.subrange(0, N as int) && text@.len() > N,
            },
    {
        self.buf.clear();
        self.write_str(text)
    }

    /// Append `text`. When it does not fit, as much as fits is kept and
    /// the overflow is reported.
    pub fn write_str(&mut self, text: &[u8]) -> (r: Result<(), StackStrOverflow>)
        requires
            old(self).wf(),
        ensures
            final(self).wf(),
            match r {
                Ok(()) => final(self)@ == old(self)@ + text@,
                Err(_) => final(self)@ == old(self)@ + text@.subrange(
                    0,
                    N - old(self)@.len(),
                ) && old(self)@.len() + text@.len() > N,
            },
    {
        let room = N - self.buf.len();
        if text.len() <= room {
            let mut k: usize = 0;
            while k < text.len()
                invariant
                    k <= text@.len(),
                    old(self).buf@.len() + text@.len() <= N,
                    self.buf@ == old(self).buf@ + text@.subrange(0, k as int),
                decreases text@.len() - k,
            {
                self.buf.push(text[k]);
                k = k + 1;
                assert(self.buf@ =~= old(self).buf@ + text@.subrange(0, k as int));
            }
            assert(self.buf@ =~= old(self).buf@ + text@);
            Ok(())
        } else {
            let mut k: usize = 0;
            while k < room
                invariant
                    k <= room,
                    room == N - old(self).buf@.len(),
                    room <= text@.len(),
                    self.buf@ == old(self).buf@ + text@.subrange(0, k as int),
                decreases room - k,
            {
                self.buf.push(text[k]);
                k = k + 1;
                assert(self.buf@ =~= old(self).buf@ + text@.subrange(0, k as int));
            }
            Err(StackStrOverflow)
        }
    }

    /// The bytes written so far.
    pub fn as_bytes(&self) -> (r: &[u8])
        ensures
            r@ == self@,
    {
        self.buf.as_slice()
    }

    /// How many bytes are used.
    pub fn len(&self) -> (r: usize)
        ensures
            r == self@.len(),
    {
        self.buf.len()
    }
}

} // verus!
