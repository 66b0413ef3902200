//! In-memory model of the byte-addressable resource behind a storage
//! backend: a growable byte range with the read/write/truncate semantics
//! that every backend variant must preserve.

use vstd::prelude::*;

verus! {

/// Failure of a primitive on the byte range.
#[derive(Clone, Copy, PartialEq, Eq, Structural, Debug)]
pub enum StoreError {
    /// A read reached beyond the current length of the range.
    OutOfRange,
    /// A write or truncation asked for more bytes than the resource
    /// can address.
    Capacity,
}

/// The byte range after `write(offset, data)`: bytes of `data` land at
/// `offset`, the range grows to `offset + data.len()` when the write ends
/// beyond the old length, a gap before `offset` reads as zero, and every
/// other byte keeps its old value.
pub open spec fn store_write(s: Seq<u8>, offset: int, data: Seq<u8>) -> Seq<u8> {
    Seq::new(
        vstd::math::max(s.len() as int, offset + data.len()) as nat,
        |i: int|
            if offset <= i < offset + data.len() {
                data[i - offset]
            } else if i < s.len() {
                s[i]
            } else {
                0u8
            },
    )
}

/// The bytes that `read(offset, len)` returns on the byte range `s`.
pub open spec fn store_read(s: Seq<u8>, offset: int, len: int) -> Seq<u8> {
    s.subrange(offset, offset + len)
}

/// The byte range after `set_len(new_len)`: a prefix of the old range,
/// padded with zeros when the range grows.
pub open spec fn store_set_len(s: Seq<u8>, new_len: int) -> Seq<u8> {
    Seq::new(new_len as nat, |i: int| if i < s.len() { s[i] } else { 0u8 })
}

/// The in-memory byte range itself.
pub struct MemStore {
    data: Vec<u8>,
}

impl View for MemStore {
    type V = Seq<u8>;

    closed spec fn view(&self) -> Seq<u8> {
        self.data@
    }
}

impl MemStore {
    /// An empty byte range.
    pub fn new() -> (s: MemStore)
        ensures
            s@ == Seq::<u8>::empty(),
    {
        MemStore { data: Vec::new() }
    }

    /// Current logical size in bytes.
    pub fn len(&self) -> (r: u64)
        ensures
            r == self@.len(),
    {
        self.data.len() as u64
    }

    /// Returns exactly `len` bytes starting at `offset`, or fails when the
    /// range `[offset, offset + len)` reaches beyond the current length.
    pub fn read(&self, offset: u64, len: usize) -> (r: Result<Vec<u8>, StoreError>)
        ensures
            r is Ok <==> offset + len <= self@.len(),
            r matches Ok(v) ==> v@ == store_read(self@, offset as int, len as int),
            r is Err ==> r == Err::<Vec<u8>, StoreError>(StoreError::OutOfRange),
    {
        let n = self.data.len();
        if offset > n as u64 {
            return Err(StoreError::OutOfRange);
        }
        let off = offset as usize;
        if len > n - off {
            return Err(StoreError::OutOfRange);
        }
        let mut out: Vec<u8> = Vec::new();
        let mut i: usize = 0;
        while i < len
            invariant
                i <= len,
                off + len <= self.data@.len(),
                self.data@.len() <= usize::MAX,
                out@.len() == i,
                forall|j: int| 0 <= j < i ==> out@[j] == self.data@[off + j],
            decreases len - i,
        {
            out.push(self.data[off + i]);
            i = i + 1;
        }
        proof {
            assert(out@ =~= store_read(self@, offset as int, len as int));
        }
        Ok(out)
    }

    /// Writes `data` at `offset`, growing the range when the write ends
    /// beyond the current length; fails only when `offset + data.len()`
    /// exceeds what the resource can address.
    pub fn write(&mut self, offset: u64, data: &[u8]) -> (r: Result<(), StoreError>)
        ensures
            r is Ok <==> offset + data@.len() <= usize::MAX,
            r is Ok ==> final(self)@ == store_write(old(self)@, offset as int, data@),
            r is Err ==> final(self)@ == old(self)@ && r == Err::<(), StoreError>(
                StoreError::Capacity,
            ),
    {
        let dlen = data.len();
        if offset > (usize::MAX as u64) - (dlen as u64) {
            return Err(StoreError::Capacity);
        }
        let off = offset as usize;
        let end = off + dlen;
        let cur = self.data.len();
        let m = if cur > end {
            cur
        } else {
            end
        };
        let ghost target = store_write(self@, offset as int, data@);
        assert(target.len() == m);
        let mut out: Vec<u8> = Vec::new();
        let mut idx: usize = 0;
        while idx < m
            invariant
                idx <= m,
                m <= usize::MAX,
                cur == self.data@.len(),
                off + dlen == end <= m,
                dlen == data@.len(),
                m == vstd::math::max(cur as int, end as int),
                target == store_write(self@, off as int, data@),
                target.len() == m,
                out@.len() == idx,
                forall|j: int| 0 <= j < idx ==> out@[j] == target[j],
            decreases m - idx,
        {
            let b: u8 = if off <= idx && idx < end {
                data[idx - off]
            } else if idx < cur {
                self.data[idx]
            } else {
                0u8
            };
            out.push(b);
            idx = idx + 1;
        }
        self.data = out;
        proof {
            assert(self.data@ =~= store_write(old(self)@, offset as int, data@));
        }
        Ok(())
    }

    /// Truncates or extends the range to `new_len`; new positions read as
    /// zero until written. Fails only when `new_len` exceeds what the
    /// resource can address.
    pub fn set_len(&mut self, new_len: u64) -> (r: Result<(), StoreError>)
        ensures
            r is Ok <==> new_len <= usize::MAX,
            r is Ok ==> final(self)@ == store_set_len(old(self)@, new_len as int),
            r is Err ==> final(self)@ == old(self)@ && r == Err::<(), StoreError>(
                StoreError::Capacity,
            ),
    {
        if new_len > usize::MAX as u64 {
            return Err(StoreError::Capacity);
        }
        let nl = new_len as usize;
        let cur = self.data.len();
        let ghost target = store_set_len(self@, new_len as int);
        let mut out: Vec<u8> = Vec::new();
        let mut idx: usize = 0;
        while idx < nl
            invariant
                idx <= nl,
                cur == self.data@.len(),
                target == store_set_len(self@, nl as int),
                target.len() == nl,
                out@.len() == idx,
                forall|j: int| 0 <= j < idx ==> out@[j] == target[j],
            decreases nl - idx,
        {
            let b: u8 = if idx < cur {
                self.data[idx]
            } else {
                0u8
            };
            out.push(b);
            idx = idx + 1;
        }
        self.data = out;
        proof {
            assert(self.data@ =~= store_set_len(old(self)@, new_len as int));
        }
        Ok(())
    }
}

/// Reading a just-written range gives back exactly the written bytes: on
/// any byte range, `write(offset, data)` followed by `read(offset,
/// data.len())` returns `data`.
pub proof fn lemma_write_then_read(s: Seq<u8>, offset: int, data: Seq<u8>)
    requires
        0 <= offset,
    ensures
        store_read(store_write(s, offset, data), offset, data.len() as int) == data,
{
    assert(store_read(store_write(s, offset, data), offset, data.len() as int) =~= data);
}

/// A write never shrinks the range: the length after `write(offset, data)`
/// is the maximum of the old length and `offset + data.len()`.
pub proof fn lemma_len_after_write(s: Seq<u8>, offset: int, data: Seq<u8>)
    requires
        0 <= offset,
    ensures
        store_write(s, offset, data).len() == vstd::math::max(
            s.len() as int,
            offset + data.len(),
        ),
{
}

} // verus!
