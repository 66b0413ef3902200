//! The storage-backend variants: each one keeps the byte-range semantics
//! of the plain passthrough backend and differs only in what work a
//! `sync_data` call performs for each `eventual` flag.

use vstd::prelude::*;
use crate::store::{MemStore, StoreError, store_read, store_set_len, store_write};

verus! {

/// Which sync policy a backend was built with.
#[derive(Clone, Copy, PartialEq, Eq, Structural, Debug)]
pub enum BackendKind {
    /// Delegates every sync, eventual or not, to the platform's durable
    /// sync primitive: the correctness baseline.
    Passthrough,
    /// Answers an eventual sync with a cheap buffered flush on a second
    /// handle to the same file, and an immediate sync with a durable sync.
    DualHandle,
    /// Treats an eventual sync as a no-op; an immediate sync is still a
    /// durable sync.
    NoopEventual,
}

/// The sync-equivalent work one `sync_data` call performs on the
/// underlying resource.
#[derive(Clone, Copy, PartialEq, Eq, Structural, Debug)]
pub enum SyncAction {
    /// A platform durable sync: blocks until data is on stable media.
    DurableSync,
    /// A buffered flush: pushes user-space buffers to the kernel without
    /// waiting for stable media.
    BufferedFlush,
    /// No syscall at all.
    NoAction,
}

/// The work that `sync_data(eventual)` performs on a backend of the given
/// kind.
pub open spec fn spec_sync_action(kind: BackendKind, eventual: bool) -> SyncAction {
    match kind {
        BackendKind::Passthrough => SyncAction::DurableSync,
        BackendKind::DualHandle => if eventual {
            SyncAction::BufferedFlush
        } else {
            SyncAction::DurableSync
        },
        BackendKind::NoopEventual => if eventual {
            SyncAction::NoAction
        } else {
            SyncAction::DurableSync
        },
    }
}

/// The work that `sync_data(eventual)` performs on a backend of the given
/// kind: an immediate sync is a durable sync on every variant, while an
/// eventual sync is a durable sync on the passthrough, a buffered flush on
/// the dual-handle variant and nothing at all on the no-op variant.
pub fn sync_action(kind: BackendKind, eventual: bool) -> (r: SyncAction)
    ensures
        r == spec_sync_action(kind, eventual),
{
    match kind {
        BackendKind::Passthrough => SyncAction::DurableSync,
        BackendKind::DualHandle => if eventual {
            SyncAction::BufferedFlush
        } else {
            SyncAction::DurableSync
        },
        BackendKind::NoopEventual => if eventual {
            SyncAction::NoAction
        } else {
            SyncAction::DurableSync
        },
    }
}

/// A storage backend of one of the variant kinds, over the in-memory
/// model of the file resource. Besides the byte range it records, in
/// order, the sync-equivalent work its `sync_data` calls performed.
pub struct VariantBackend {
    kind: BackendKind,
    store: MemStore,
    sync_log: Vec<SyncAction>,
}

impl VariantBackend {
    /// The byte range this backend exposes.
    pub closed spec fn bytes(&self) -> Seq<u8> {
        self.store@
    }

    /// The sync-equivalent work performed so far, in call order.
    pub closed spec fn syncs(&self) -> Seq<SyncAction> {
        self.sync_log@
    }

    /// The kind this backend was built with.
    pub closed spec fn spec_kind(&self) -> BackendKind {
        self.kind
    }

    /// A fresh, empty backend of the given kind.
    pub fn new(kind: BackendKind) -> (b: VariantBackend)
        ensures
            b.spec_kind() == kind,
            b.bytes() == Seq::<u8>::empty(),
            b.syncs() == Seq::<SyncAction>::empty(),
    {
        VariantBackend { kind, store: MemStore::new(), sync_log: Vec::new() }
    }

    /// The kind this backend was built with.
    pub fn kind(&self) -> (r: BackendKind)
        ensures
            r == self.spec_kind(),
    {
        self.kind
    }

    /// Current logical size in bytes; reflects every prior `write` and
    /// `set_len` on this backend.
    pub fn len(&self) -> (r: u64)
        ensures
            r == self.bytes().len(),
    {
        self.store.len()
    }

    /// Returns exactly `len` bytes starting at `offset`, or fails when
    /// the range reaches beyond the current length.
    pub fn read(&self, offset: u64, len: usize) -> (r: Result<Vec<u8>, StoreError>)
        ensures
            r is Ok <==> offset + len <= self.bytes().len(),
            r matches Ok(v) ==> v@ == store_read(self.bytes(), offset as int, len as int),
            r is Err ==> r == Err::<Vec<u8>, StoreError>(StoreError::OutOfRange),
    {
        self.store.read(offset, len)
    }

    /// Writes `data` at `offset`, extending the logical length when the
    /// write ends beyond it; performs no sync work.
    pub fn write(&mut self, offset: u64, data: &[u8]) -> (r: Result<(), StoreError>)
        ensures
            final(self).spec_kind() == old(self).spec_kind(),
            final(self).syncs() == old(self).syncs(),
            r is Ok <==> offset + data@.len() <= usize::MAX,
            r is Ok ==> final(self).bytes() == store_write(old(self).bytes(), offset as int, data@),
            r is Err ==> final(self).bytes() == old(self).bytes() && r == Err::<(), StoreError>(
                StoreError::Capacity,
            ),
    {
        self.store.write(offset, data)
    }

    /// Truncates or extends the byte range to `new_len`; performs no sync
    /// work.
    pub fn set_len(&mut self, new_len: u64) -> (r: Result<(), StoreError>)
        ensures
            final(self).spec_kind() == old(self).spec_kind(),
            final(self).syncs() == old(self).syncs(),
            r is Ok <==> new_len <= usize::MAX,
            r is Ok ==> final(self).bytes() == store_set_len(old(self).bytes(), new_len as int),
            r is Err ==> final(self).bytes() == old(self).bytes() && r == Err::<(), StoreError>(
                StoreError::Capacity,
            ),
    {
        self.store.set_len(new_len)
    }

    /// Performs the sync work the backend's kind prescribes for the flag
    /// and records it; the byte range is untouched.
    pub fn sync_data(&mut self, eventual: bool) -> (r: SyncAction)
        ensures
            final(self).spec_kind() == old(self).spec_kind(),
            final(self).bytes() == old(self).bytes(),
            r == spec_sync_action(old(self).spec_kind(), eventual),
            final(self).syncs() == old(self).syncs().push(r),
    {
        let action = sync_action(self.kind, eventual);
        self.sync_log.push(action);
        action
    }

    /// The sync-equivalent work performed so far, in call order.
    pub fn sync_history(&self) -> (r: &Vec<SyncAction>)
        ensures
            r@ == self.syncs(),
    {
        &self.sync_log
    }
}

/// An immediate sync is a durable sync on every backend variant.
pub proof fn lemma_immediate_sync_is_durable(kind: BackendKind)
    ensures
        spec_sync_action(kind, false) == SyncAction::DurableSync,
{
}

/// The dual-handle variant answers an eventual sync with nothing more
/// than a buffered flush: it never pays the durable-sync syscall there.
pub proof fn lemma_dual_handle_eventual_is_flush()
    ensures
        spec_sync_action(BackendKind::DualHandle, true) == SyncAction::BufferedFlush,
{
}

/// The no-op variant answers an eventual sync with no syscall at all.
pub proof fn lemma_noop_eventual_is_no_syscall()
    ensures
        spec_sync_action(BackendKind::NoopEventual, true) == SyncAction::NoAction,
{
}

} // verus!
