use vstd::prelude::*;
use vstd::slice::{slice_subrange, slice_to_vec};

use crate::NpaError;

verus! {

/// The ghost shape of a byte source: the archive image and a cursor into it.
pub ghost struct SourceModel {
    pub data: Seq<u8>,
    pub pos: nat,
}

/// A seekable in-memory byte source holding a whole archive image.
///
/// Every parsing routine of the crate reads from one of these; callers load
/// the archive bytes once and can rewind freely, which the title resolver
/// needs when it re-drives the pipeline per candidate.
pub struct ByteSource {
    data: Vec<u8>,
    pos: usize,
}

impl View for ByteSource {
    type V = SourceModel;

    closed spec fn view(&self) -> SourceModel {
        SourceModel { data: self.data@, pos: self.pos as nat }
    }
}

impl ByteSource {
    pub fn new(data: Vec<u8>) -> (r: ByteSource)
        ensures
            r@.data == data@,
            r@.pos == 0,
    {
        ByteSource { data, pos: 0 }
    }

    pub fn len(&self) -> (r: usize)
        ensures
            r == self@.data.len(),
    {
        self.data.len()
    }

    pub fn position(&self) -> (r: usize)
        ensures
            r == self@.pos,
    {
        self.pos
    }

    /// Move the cursor. A target beyond the end parks the cursor at the end,
    /// where any read of one or more bytes fails, mirroring a seek past the
    /// end of a file.
    pub fn seek_to(&mut self, target: u64)
        ensures
            final(self)@.data == old(self)@.data,
            final(self)@.pos == if target <= old(self)@.data.len() {
                target as nat
            } else {
                old(self)@.data.len()
            },
    {
        if target <= self.data.len() as u64 {
            self.pos = target as usize;
        } else {
            self.pos = self.data.len();
        }
    }

    /// Read exactly `n` bytes and advance the cursor; fail without moving it
    /// when fewer than `n` bytes remain.
    pub fn read_exact(&mut self, n: usize) -> (r: Result<Vec<u8>, NpaError>)
        ensures
            final(self)@.data == old(self)@.data,
            r is Ok <==> old(self)@.pos + n <= old(self)@.data.len(),
            r matches Ok(v) ==> v@ == old(self)@.data.subrange(
                old(self)@.pos as int,
                old(self)@.pos + n,
            ) && final(self)@.pos == old(self)@.pos + n,
            r is Err ==> final(self)@.pos == old(self)@.pos,
            r matches Err(e) ==> e == NpaError::Truncated,
    {
        if n > self.data.len() || self.pos > self.data.len() - n {
            return Err(NpaError::Truncated);
        }
        let window = slice_subrange(self.data.as_slice(), self.pos, self.pos + n);
        let out = slice_to_vec(window);
        self.pos = self.pos + n;
        Ok(out)
    }
}

/// The value of four little-endian bytes.
pub open spec fn le32(s: Seq<u8>) -> u32
    recommends
        s.len() == 4,
{
    (s[0] as u32) | ((s[1] as u32) << 8) | ((s[2] as u32) << 16) | ((s[3] as u32) << 24)
}

/// Read one byte.
pub fn read_u8(r: &mut ByteSource) -> (res: Result<u8, NpaError>)
    ensures
        final(r)@.data == old(r)@.data,
        res is Ok <==> old(r)@.pos + 1 <= old(r)@.data.len(),
        res matches Ok(b) ==> b == old(r)@.data[old(r)@.pos as int] && final(r)@.pos == old(r)@.pos
            + 1,
        res is Err ==> final(r)@.pos == old(r)@.pos,
        res matches Err(e) ==> e == NpaError::Truncated,
{
    let v = r.read_exact(1)?;
    Ok(v[0])
}

/// Read a little-endian 32-bit value.
pub fn read_u32_le(r: &mut ByteSource) -> (res: Result<u32, NpaError>)
    ensures
        final(r)@.data == old(r)@.data,
        res is Ok <==> old(r)@.pos + 4 <= old(r)@.data.len(),
        res matches Ok(v) ==> v == le32(
            old(r)@.data.subrange(old(r)@.pos as int, old(r)@.pos as int + 4),
        ) && final(r)@.pos == old(r)@.pos + 4,
        res is Err ==> final(r)@.pos == old(r)@.pos,
        res matches Err(e) ==> e == NpaError::Truncated,
{
    let v = r.read_exact(4)?;
    let b0 = v[0] as u32;
    let b1 = v[1] as u32;
    let b2 = v[2] as u32;
    let b3 = v[3] as u32;
    Ok(b0 | (b1 << 8) | (b2 << 16) | (b3 << 24))
}

} // verus!
