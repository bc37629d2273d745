//! A writer over a fixed-capacity byte buffer. Writes append; a write
//! that would grow the buffer past its capacity fails and leaves the
//! contents unchanged. The capacity is chosen at construction and never
//! changes, which is what keeps the memory of the whole engine bounded.

use vstd::prelude::*;

verus! {

/// A write failed because the buffer would have grown past its capacity.
#[derive(Clone, Copy, Debug, PartialEq, Eq, Structural)]
pub struct CapacityError;

/// Fixed-capacity byte writer.
pub struct BufWrite {
    buf: Vec<u8>,
    cap: usize,
}

impl View for BufWrite {
    type V = Seq<u8>;

    closed spec fn view(&self) -> Seq<u8> {
        self.buf@
    }
}

impl BufWrite {
    /// The capacity the writer was built with.
    pub closed spec fn cap(&self) -> nat {
        self.cap as nat
    }

    /// The contents never outgrow the capacity.
    pub open spec fn wf(&self) -> bool {
        self@.len() <= self.cap()
    }

    /// An empty writer over a buffer of `cap` bytes.
    pub fn new(cap: usize) -> (r: BufWrite)
        ensures
            r@ == Seq::<u8>::empty(),
            r.cap() == cap,
            r.wf(),
    {
        BufWrite { buf: Vec::new(), cap }
    }

    /// Number of bytes written so far.
    pub fn len(&self) -> (r: usize)
        ensures
            r == self@.len(),
    {
        self.buf.len()
    }

    /// Append one byte, failing without effect when the buffer is full.
    pub fn write_byte(&mut self, b: u8) -> (r: Result<(), CapacityError>)
        requires
            old(self).wf(),
        ensures
            final(self).wf(),
            final(self).cap() == old(self).cap(),
            match r {
                Ok(()) => final(self)@ == old(self)@.push(b),
                Err(_) => final(self)@ == old(self)@ && old(self)@.len() + 1 > old(self).cap(),
            },
    {
        if self.buf.len() < self.cap {
            self.buf.push(b);
            Ok(())
        } else {
            Err(CapacityError)
        }
    }

    /// Append a whole slice, failing without effect when it does not fit.
    pub fn write_slice(&mut self, b: &[u8]) -> (r: Result<(), CapacityError>)
        requires
            old(self).wf(),
        ensures
            final(self).wf(),
            final(self).cap() == old(self).cap(),
            match r {
                Ok(()) => final(self)@ == old(self)@ + b@,
                Err(_) => final(self)@ == old(self)@
                    && old(self)@.len() + b@.len() > old(self).cap(),
            },
    {
        if b.len() <= self.cap - self.buf.len() {
            let mut k: usize = 0;
            while k < b.len()
                invariant
                    k <= b@.len(),
                    old(self).buf@.len() + b@.len() <= self.cap,
                    self.cap == old(self).cap,
                    self.buf@ == old(self).buf@ + b@.subrange(0, k as int),
                decreases b@.len() - k,
            {
                self.buf.push(b[k]);
                k = k + 1;
                assert(self.buf@ =~= old(self).buf@ + b@.subrange(0, k as int));
            }
            assert(self.buf@ =~= old(self).buf@ + b@);
            Ok(())
        } else {
            Err(CapacityError)
        }
    }

    /// Read access to what was written.
    pub fn as_bytes(&self) -> (r: &[u8])
        ensures
            r@ == self@,
    {
        self.buf.as_slice()
    }

    /// Hand the written bytes out, consuming the writer.
    pub fn into_vec(self) -> (r: Vec<u8>)
        ensures
            r@ == self@,
    {
        self.buf
    }
}

} // verus!
