//! An in-memory seekable byte source.
//!
//! The replay container is random-access: the indexing pass records absolute
//! byte offsets and later retrievals seek back to them. `ByteStream` models
//! that resource exactly: a byte buffer plus a read cursor, with
//! seek-to-absolute-offset, bounded forward seeks, and read-exact operations
//! whose success is fully determined by the cursor and the buffer length.

use vstd::prelude::*;
use vstd::bytes::{spec_u16_from_le_bytes, spec_u32_from_le_bytes, spec_u128_from_le_bytes};
use vstd::bytes::{u16_from_le_bytes, u32_from_le_bytes, u128_from_le_bytes};
use vstd::slice::{slice_subrange, slice_to_vec};

verus! {

/// Addition on stream positions, saturating at the largest position a cursor
/// can hold. A forward seek past this point sticks there; every read at such a
/// position fails, exactly as it would anywhere past the end of the buffer.
pub open spec fn sat_add64(a: int, b: int) -> int {
    if a + b > u64::MAX { u64::MAX as int } else { a + b }
}

/// The little-endian 16-bit integer at `pos` of `h`.
pub open spec fn spec_le16_at(h: Seq<u8>, pos: int) -> u16 {
    spec_u16_from_le_bytes(h.subrange(pos, pos + 2))
}

/// The little-endian 32-bit integer at `pos` of `h`.
pub open spec fn spec_le32_at(h: Seq<u8>, pos: int) -> u32 {
    spec_u32_from_le_bytes(h.subrange(pos, pos + 4))
}

/// The little-endian 128-bit integer at `pos` of `h`.
pub open spec fn spec_le128_at(h: Seq<u8>, pos: int) -> u128 {
    spec_u128_from_le_bytes(h.subrange(pos, pos + 16))
}

/// Reads the little-endian 16-bit integer at `pos` of `data`.
pub fn le16_at(data: &[u8], pos: usize) -> (r: u16)
    requires
        pos + 2 <= data@.len(),
        data@.len() <= usize::MAX,
    ensures
        r == spec_le16_at(data@, pos as int),
{
    u16_from_le_bytes(slice_subrange(data, pos, pos + 2))
}

/// Reads the little-endian 32-bit integer at `pos` of `data`.
pub fn le32_at(data: &[u8], pos: usize) -> (r: u32)
    requires
        pos + 4 <= data@.len(),
        data@.len() <= usize::MAX,
    ensures
        r == spec_le32_at(data@, pos as int),
{
    u32_from_le_bytes(slice_subrange(data, pos, pos + 4))
}

/// Reads the little-endian 128-bit integer at `pos` of `data`.
pub fn le128_at(data: &[u8], pos: usize) -> (r: u128)
    requires
        pos + 16 <= data@.len(),
        data@.len() <= usize::MAX,
    ensures
        r == spec_le128_at(data@, pos as int),
{
    u128_from_le_bytes(slice_subrange(data, pos, pos + 16))
}

/// A seekable in-memory byte source: a buffer and a read cursor.
///
/// The cursor may point past the end of the buffer (forward seeks are never
/// an error); reads fail, without moving the cursor, whenever fewer bytes
/// remain than requested.
pub struct ByteStream {
    data: Vec<u8>,
    pos: u64,
}

/// A cursor position is never negative and fits a 64-bit integer.
pub broadcast proof fn lemma_pos_bounds(s: ByteStream)
    ensures
        0 <= #[trigger] s.spec_pos() <= u64::MAX,
{
}

/// A buffer always fits the address space.
pub broadcast proof fn lemma_data_len_bound(s: ByteStream)
    ensures
        (#[trigger] s.spec_data()).len() <= usize::MAX,
{
    broadcast use vstd::std_specs::vec::axiom_spec_len;

    assert(vstd::std_specs::vec::spec_vec_len(&s.data) == s.data@.len());
}

impl ByteStream {
    /// The bytes of the underlying buffer.
    pub closed spec fn spec_data(self) -> Seq<u8> {
        self.data@
    }

    /// The current cursor position.
    pub closed spec fn spec_pos(self) -> int {
        self.pos as int
    }

    /// True when `n` more bytes can be read at the current position.
    pub open spec fn can_read(self, n: int) -> bool {
        self.spec_pos() + n <= self.spec_data().len()
    }

    pub fn new(data: Vec<u8>) -> (s: Self)
        ensures
            s.spec_data() == data@,
            s.spec_pos() == 0,
    {
        ByteStream { data, pos: 0 }
    }

    /// Gives the underlying buffer back.
    pub fn into_inner(self) -> (d: Vec<u8>)
        ensures
            d@ == self.spec_data(),
    {
        self.data
    }

    pub fn len(&self) -> (n: usize)
        ensures
            n == self.spec_data().len(),
    {
        self.data.len()
    }

    pub fn stream_position(&self) -> (p: u64)
        ensures
            p as int == self.spec_pos(),
    {
        self.pos
    }

    /// Moves the cursor to an absolute offset.
    pub fn seek_start(&mut self, offset: u64)
        ensures
            final(self).spec_data() == old(self).spec_data(),
            final(self).spec_pos() == offset as int,
    {
        self.pos = offset;
    }

    /// Moves the cursor forward by `delta` bytes, saturating at the largest
    /// representable position.
    pub fn seek_forward(&mut self, delta: u64)
        ensures
            final(self).spec_data() == old(self).spec_data(),
            final(self).spec_pos() == sat_add64(old(self).spec_pos(), delta as int),
    {
        self.pos = self.pos.saturating_add(delta);
    }

    /// Reads exactly `n` bytes, advancing the cursor; `None` (cursor
    /// unmoved) when fewer than `n` bytes remain.
    pub fn read_exact_vec(&mut self, n: usize) -> (r: Option<Vec<u8>>)
        ensures
            final(self).spec_data() == old(self).spec_data(),
            match r {
                Some(v) => {
                    &&& old(self).can_read(n as int)
                    &&& v@ == old(self).spec_data().subrange(
                        old(self).spec_pos(),
                        old(self).spec_pos() + n,
                    )
                    &&& final(self).spec_pos() == old(self).spec_pos() + n
                },
                None => !old(self).can_read(n as int) && *final(self) == *old(self),
            },
    {
        if self.pos <= self.data.len() as u64 && n as u64 <= self.data.len() as u64 - self.pos {
            let start: usize = self.pos as usize;
            let sub: &[u8] = slice_subrange(self.data.as_slice(), start, start + n);
            let v: Vec<u8> = slice_to_vec(sub);
            self.pos = self.pos + n as u64;
            Some(v)
        } else {
            None
        }
    }

    pub fn read_u8(&mut self) -> (r: Option<u8>)
        ensures
            final(self).spec_data() == old(self).spec_data(),
            old(self).can_read(1) ==> {
                &&& r == Some(old(self).spec_data()[old(self).spec_pos()])
                &&& final(self).spec_pos() == old(self).spec_pos() + 1
            },
            !old(self).can_read(1) ==> r is None && *final(self) == *old(self),
    {
        if self.pos < self.data.len() as u64 {
            let b: u8 = self.data[self.pos as usize];
            self.pos = self.pos + 1;
            Some(b)
        } else {
            None
        }
    }

    pub fn read_u32_le(&mut self) -> (r: Option<u32>)
        ensures
            final(self).spec_data() == old(self).spec_data(),
            old(self).can_read(4) ==> {
                &&& r == Some(spec_u32_from_le_bytes(old(self).spec_data().subrange(
                    old(self).spec_pos(),
                    old(self).spec_pos() + 4,
                )))
                &&& final(self).spec_pos() == old(self).spec_pos() + 4
            },
            !old(self).can_read(4) ==> r is None && *final(self) == *old(self),
    {
        match self.read_exact_vec(4) {
            Some(v) => Some(u32_from_le_bytes(v.as_slice())),
            None => None,
        }
    }

}

} // verus!
