//! An in-memory byte source read strictly forward, in exact-size pieces.

use vstd::prelude::*;

use crate::elfparser::ElfError;

verus! {

/// A sequence of bytes together with a read position.
pub struct ByteSource {
    bytes: Vec<u8>,
    pos: usize,
}

impl ByteSource {
    /// All bytes of the source, read or not.
    pub closed spec fn data(&self) -> Seq<u8> {
        self.bytes@
    }

    /// How many bytes have been consumed.
    pub closed spec fn position(&self) -> nat {
        self.pos as nat
    }

    pub open spec fn wf(&self) -> bool {
        self.position() <= self.data().len()
    }

    /// The bytes not yet consumed.
    pub open spec fn remaining(&self) -> Seq<u8> {
        self.data().subrange(self.position() as int, self.data().len() as int)
    }

    pub fn new(bytes: Vec<u8>) -> (r: ByteSource)
        ensures
            r.wf(),
            r.data() == bytes@,
            r.position() == 0,
            r.remaining() == bytes@,
    {
        let r = ByteSource { bytes, pos: 0 };
        assert(r.remaining() =~= bytes@);
        r
    }

    /// Number of bytes consumed so far.
    pub fn consumed(&self) -> (r: usize)
        ensures
            r == self.position(),
    {
        self.pos
    }

    /// Number of bytes not yet consumed.
    pub fn remaining_len(&self) -> (r: usize)
        requires
            self.wf(),
        ensures
            r == self.remaining().len(),
    {
        self.bytes.len() - self.pos
    }

    /// Takes the next `n` bytes. When fewer than `n` remain, fails with
    /// `Truncated` and consumes nothing.
    pub fn read_exact(&mut self, n: usize) -> (r: Result<Vec<u8>, ElfError>)
        requires
            old(self).wf(),
        ensures
            final(self).wf(),
            final(self).data() == old(self).data(),
            n <= old(self).remaining().len() ==> {
                &&& r is Ok
                &&& r->Ok_0@ == old(self).remaining().take(n as int)
                &&& final(self).position() == old(self).position() + n
            },
            old(self).remaining().len() < n ==> {
                &&& r == Err::<Vec<u8>, ElfError>(ElfError::Truncated)
                &&& final(self).position() == old(self).position()
            },
    {
        if self.bytes.len() - self.pos < n {
            return Err(ElfError::Truncated);
        }
        let mut out: Vec<u8> = Vec::new();
        let mut i: usize = 0;
        while i < n
            invariant
                self.wf(),
                i <= n,
                self.pos + n <= self.bytes.len(),
                out@ == self.bytes@.subrange(self.pos as int, self.pos + i),
            decreases n - i,
        {
            out.push(self.bytes[self.pos + i]);
            i = i + 1;
            assert(out@ =~= self.bytes@.subrange(self.pos as int, self.pos + i));
        }
        let start = self.pos;
        self.pos = start + n;
        assert(out@ =~= old(self).remaining().take(n as int));
        Ok(out)
    }
}

} // verus!
