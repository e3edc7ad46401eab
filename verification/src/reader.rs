//! The byte cursor: a sequential big-endian reader over an in-memory stream.
//!
//! The position only moves forward. Each fixed-width read either returns the
//! value that [`crate::format`] assigns to the bytes at the current position,
//! or fails with `TruncatedInput` and leaves the position where it was.

use crate::error::DecodeError;
use crate::format::{spec_read_bytes, spec_read_u16, spec_read_u32, spec_read_u8};
use vstd::prelude::*;
use vstd::slice::{slice_subrange, slice_to_vec};

verus! {

/// A forward-only cursor over a byte stream.
pub struct Reader<'a> {
    bytes: &'a [u8],
    pos: usize,
}

impl<'a> Reader<'a> {
    /// The whole stream, as the specification functions see it.
    pub closed spec fn stream(&self) -> Seq<u8> {
        self.bytes@
    }

    /// The cursor's position.
    pub closed spec fn spec_pos(&self) -> int {
        self.pos as int
    }

    /// The cursor never stands past the end of the stream.
    pub open spec fn wf(&self) -> bool {
        0 <= self.spec_pos() <= self.stream().len()
    }

    /// A cursor at the start of `bytes`.
    pub fn new(bytes: &'a [u8]) -> (r: Reader<'a>)
        ensures
            r.wf(),
            r.stream() == bytes@,
            r.spec_pos() == 0,
    {
        Reader { bytes, pos: 0 }
    }

    /// The current position, in bytes from the start of the stream.
    pub fn position(&self) -> (p: usize)
        ensures
            p as int == self.spec_pos(),
    {
        self.pos
    }

    /// Reads one byte.
    pub fn read_u8(&mut self) -> (res: Result<u8, DecodeError>)
        requires
            old(self).wf(),
        ensures
            final(self).wf(),
            final(self).stream() == old(self).stream(),
            match spec_read_u8(old(self).stream(), old(self).spec_pos()) {
                Ok(t) => res == Ok::<u8, DecodeError>(t.0) && final(self).spec_pos() == t.1,
                Err(e) => res == Err::<u8, DecodeError>(e) && final(self).spec_pos() == old(
                    self,
                ).spec_pos(),
            },
    {
        if self.bytes.len() - self.pos >= 1 {
            let b: u8 = self.bytes[self.pos];
            self.pos = self.pos + 1;
            Ok(b)
        } else {
            Err(DecodeError::TruncatedInput)
        }
    }

    /// Reads two bytes as one big-endian value.
    pub fn read_u16(&mut self) -> (res: Result<u16, DecodeError>)
        requires
            old(self).wf(),
        ensures
            final(self).wf(),
            final(self).stream() == old(self).stream(),
            match spec_read_u16(old(self).stream(), old(self).spec_pos()) {
                Ok(t) => res == Ok::<u16, DecodeError>(t.0) && final(self).spec_pos() == t.1,
                Err(e) => res == Err::<u16, DecodeError>(e) && final(self).spec_pos() == old(
                    self,
                ).spec_pos(),
            },
    {
        if self.bytes.len() - self.pos >= 2 {
            let b0: u8 = self.bytes[self.pos];
            let b1: u8 = self.bytes[self.pos + 1];
            self.pos = self.pos + 2;
            Ok((b0 as u16) * 0x100 + (b1 as u16))
        } else {
            Err(DecodeError::TruncatedInput)
        }
    }

    /// Reads four bytes as one big-endian value.
    pub fn read_u32(&mut self) -> (res: Result<u32, DecodeError>)
        requires
            old(self).wf(),
        ensures
            final(self).wf(),
            final(self).stream() == old(self).stream(),
            match spec_read_u32(old(self).stream(), old(self).spec_pos()) {
                Ok(t) => res == Ok::<u32, DecodeError>(t.0) && final(self).spec_pos() == t.1,
                Err(e) => res == Err::<u32, DecodeError>(e) && final(self).spec_pos() == old(
                    self,
                ).spec_pos(),
            },
    {
        if self.bytes.len() - self.pos >= 4 {
            let b0: u8 = self.bytes[self.pos];
            let b1: u8 = self.bytes[self.pos + 1];
            let b2: u8 = self.bytes[self.pos + 2];
            let b3: u8 = self.bytes[self.pos + 3];
            self.pos = self.pos + 4;
            Ok((b0 as u32) * 0x100_0000 + (b1 as u32) * 0x1_0000 + (b2 as u32) * 0x100 + (
            b3 as u32))
        } else {
            Err(DecodeError::TruncatedInput)
        }
    }

    /// Reads a raw run of exactly `n` bytes.
    pub fn read_bytes(&mut self, n: usize) -> (res: Result<Vec<u8>, DecodeError>)
        requires
            old(self).wf(),
        ensures
            final(self).wf(),
            final(self).stream() == old(self).stream(),
            match spec_read_bytes(old(self).stream(), old(self).spec_pos(), n as int) {
                Ok(t) => res matches Ok(v) && v@ == t.0 && final(self).spec_pos() == t.1,
                Err(e) => res matches Err(e2) && e2 == e && final(self).spec_pos() == old(
                    self,
                ).spec_pos(),
            },
    {
        if self.bytes.len() - self.pos >= n {
            let sl: &[u8] = slice_subrange(self.bytes, self.pos, self.pos + n);
            let v: Vec<u8> = slice_to_vec(sl);
            self.pos = self.pos + n;
            Ok(v)
        } else {
            Err(DecodeError::TruncatedInput)
        }
    }
}

} // verus!
