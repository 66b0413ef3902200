//! An instrumenting wrapper: forwards the five primitives to an inner
//! backend unchanged and records exactly one log entry per call.

use vstd::prelude::*;
use crate::backend::{SyncAction, VariantBackend, spec_sync_action};
use crate::store::{StoreError, store_read, store_set_len, store_write};

verus! {

/// One logged backend call, with the arguments it was made with; the
/// `len` entry carries the reported length instead.
#[derive(Clone, Copy, PartialEq, Eq, Structural, Debug)]
pub enum CallRecord {
    LenCall { result: u64 },
    ReadCall { offset: u64, len: usize },
    SetLenCall { new_len: u64 },
    SyncCall { eventual: bool },
    WriteCall { offset: u64, len: usize },
}

/// A backend that forwards every primitive to an inner variant backend
/// and logs it: the log gains exactly one entry per call, and every
/// return value is the inner backend's own.
pub struct LogBackend {
    inner: VariantBackend,
    log: Vec<CallRecord>,
}

impl LogBackend {
    /// The byte range of the inner backend.
    pub closed spec fn bytes(&self) -> Seq<u8> {
        self.inner.bytes()
    }

    /// The sync-equivalent work the inner backend performed, in order.
    pub closed spec fn syncs(&self) -> Seq<SyncAction> {
        self.inner.syncs()
    }

    /// The kind of the inner backend.
    pub closed spec fn spec_kind(&self) -> crate::backend::BackendKind {
        self.inner.spec_kind()
    }

    /// Every call logged so far, in call order.
    pub closed spec fn log_entries(&self) -> Seq<CallRecord> {
        self.log@
    }

    /// Wraps a backend; the log starts empty.
    pub fn new(inner: VariantBackend) -> (b: LogBackend)
        ensures
            b.bytes() == inner.bytes(),
            b.syncs() == inner.syncs(),
            b.spec_kind() == inner.spec_kind(),
            b.log_entries() == Seq::<CallRecord>::empty(),
    {
        LogBackend { inner, log: Vec::new() }
    }

    /// The inner backend's length, logged as one `len` entry carrying the
    /// reported value.
    pub fn len(&mut self) -> (r: u64)
        ensures
            r == old(self).bytes().len(),
            final(self).bytes() == old(self).bytes(),
            final(self).syncs() == old(self).syncs(),
            final(self).spec_kind() == old(self).spec_kind(),
            final(self).log_entries() == old(self).log_entries().push(
                CallRecord::LenCall { result: r },
            ),
    {
        let r = self.inner.len();
        self.log.push(CallRecord::LenCall { result: r });
        r
    }

    /// The inner backend's read, logged as one `read` entry.
    pub fn read(&mut self, offset: u64, len: usize) -> (r: Result<Vec<u8>, StoreError>)
        ensures
            final(self).bytes() == old(self).bytes(),
            final(self).syncs() == old(self).syncs(),
            final(self).spec_kind() == old(self).spec_kind(),
            final(self).log_entries() == old(self).log_entries().push(
                CallRecord::ReadCall { offset, len },
            ),
            r is Ok <==> offset + len <= old(self).bytes().len(),
            r matches Ok(v) ==> v@ == store_read(old(self).bytes(), offset as int, len as int),
            r is Err ==> r == Err::<Vec<u8>, StoreError>(StoreError::OutOfRange),
    {
        self.log.push(CallRecord::ReadCall { offset, len });
        self.inner.read(offset, len)
    }

    /// The inner backend's write, logged as one `write` entry.
    pub fn write(&mut self, offset: u64, data: &[u8]) -> (r: Result<(), StoreError>)
        ensures
            final(self).syncs() == old(self).syncs(),
            final(self).spec_kind() == old(self).spec_kind(),
            final(self).log_entries() == old(self).log_entries().push(
                CallRecord::WriteCall { offset, len: data@.len() as usize },
            ),
            r is Ok <==> offset + data@.len() <= usize::MAX,
            r is Ok ==> final(self).bytes() == store_write(old(self).bytes(), offset as int, data@),
            r is Err ==> final(self).bytes() == old(self).bytes() && r == Err::<(), StoreError>(
                StoreError::Capacity,
            ),
    {
        self.log.push(CallRecord::WriteCall { offset, len: data.len() });
        self.inner.write(offset, data)
    }

    /// The inner backend's truncation, logged as one `set_len` entry.
    pub fn set_len(&mut self, new_len: u64) -> (r: Result<(), StoreError>)
        ensures
            final(self).syncs() == old(self).syncs(),
            final(self).spec_kind() == old(self).spec_kind(),
            final(self).log_entries() == old(self).log_entries().push(
                CallRecord::SetLenCall { new_len },
            ),
            r is Ok <==> new_len <= usize::MAX,
            r is Ok ==> final(self).bytes() == store_set_len(
                old(self).bytes(),
                new_len as int,
            ),
            r is Err ==> final(self).bytes() == old(self).bytes() && r == Err::<(), StoreError>(
                StoreError::Capacity,
            ),
    {
        self.log.push(CallRecord::SetLenCall { new_len });
        self.inner.set_len(new_len)
    }

    /// The inner backend's sync, logged as one `sync_data` entry.
    pub fn sync_data(&mut self, eventual: bool) -> (r: SyncAction)
        ensures
            final(self).bytes() == old(self).bytes(),
            final(self).spec_kind() == old(self).spec_kind(),
            final(self).log_entries() == old(self).log_entries().push(
                CallRecord::SyncCall { eventual },
            ),
            r == spec_sync_action(old(self).spec_kind(), eventual),
            final(self).syncs() == old(self).syncs().push(r),
    {
        self.log.push(CallRecord::SyncCall { eventual });
        self.inner.sync_data(eventual)
    }

    /// Every call logged so far, in call order.
    pub fn log(&self) -> (r: &Vec<CallRecord>)
        ensures
            r@ == self.log_entries(),
    {
        &self.log
    }

    /// The sync-equivalent work the inner backend performed, in order.
    pub fn sync_history(&self) -> (r: &Vec<SyncAction>)
        ensures
            r@ == self.syncs(),
    {
        self.inner.sync_history()
    }
}

} // verus!
