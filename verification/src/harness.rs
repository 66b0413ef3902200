//! The benchmark harness's decision logic: which sync work each path of a
//! run performs, a model run of the transactional path and of the
//! raw-append path, and the proof that matched pairings issue the same
//! sync-equivalent calls per record.

use vstd::prelude::*;
use crate::backend::{BackendKind, SyncAction, VariantBackend, spec_sync_action, sync_action};
use crate::durability::{Durability, TxnModel, spec_sync_flag};
use crate::logging::{CallRecord, LogBackend};
use crate::store::{MemStore, store_write};

verus! {

/// Size in bytes of the fixed record each benchmark iteration writes;
/// fixed so allocation-size variance cannot skew timing.
pub const RECORD_LEN: usize = 64;

/// The raw-path flush callback the harness pairs with each durability
/// policy: nothing under `NoSync`, a buffered flush under `Eventual`, a
/// durable sync under `Immediate`.
pub open spec fn spec_matching_callback(d: Durability) -> SyncAction {
    match d {
        Durability::NoSync => SyncAction::NoAction,
        Durability::Eventual => SyncAction::BufferedFlush,
        Durability::Immediate => SyncAction::DurableSync,
    }
}

/// The raw-path flush callback the harness pairs with a durability
/// policy.
pub fn matching_callback(d: Durability) -> (r: SyncAction)
    ensures
        r == spec_matching_callback(d),
{
    match d {
        Durability::NoSync => SyncAction::NoAction,
        Durability::Eventual => SyncAction::BufferedFlush,
        Durability::Immediate => SyncAction::DurableSync,
    }
}

/// The sync work one commit performs on a backend of the given kind under
/// the given policy: none under `NoSync`, else the work the kind
/// prescribes for the policy's `eventual` flag.
pub open spec fn spec_commit_action(kind: BackendKind, d: Durability) -> Option<SyncAction> {
    match spec_sync_flag(d) {
        None => None,
        Some(ev) => Some(spec_sync_action(kind, ev)),
    }
}

/// The sync work one commit performs on a backend of the given kind under
/// the given policy.
pub fn commit_action(kind: BackendKind, d: Durability) -> (r: Option<SyncAction>)
    ensures
        r == spec_commit_action(kind, d),
{
    match crate::durability::sync_flag(d) {
        None => None,
        Some(ev) => Some(sync_action(kind, ev)),
    }
}

/// The sync work the transactional path performs over `n` commits, in
/// order: one entry per commit, except under `NoSync`, where commits
/// perform none.
pub open spec fn expected_store_syncs(kind: BackendKind, d: Durability, n: int) -> Seq<
    SyncAction,
>
    decreases n,
{
    if n <= 0 {
        Seq::empty()
    } else {
        expected_store_syncs(kind, d, n - 1) + match spec_commit_action(kind, d) {
            None => Seq::empty(),
            Some(a) => seq![a],
        }
    }
}

/// The backend calls one commit of the `i`th record makes: one write of
/// the fixed record at `i * RECORD_LEN`, then the one sync call the
/// policy prescribes, if any.
pub open spec fn spec_commit_log(d: Durability, i: int) -> Seq<CallRecord> {
    match spec_sync_flag(d) {
        None => seq![
            CallRecord::WriteCall { offset: (i * RECORD_LEN) as u64, len: RECORD_LEN },
        ],
        Some(ev) => seq![
            CallRecord::WriteCall { offset: (i * RECORD_LEN) as u64, len: RECORD_LEN },
            CallRecord::SyncCall { eventual: ev },
        ],
    }
}

/// The backend calls the transactional path makes over `n` commits, in
/// order.
pub open spec fn expected_store_log(d: Durability, n: int) -> Seq<CallRecord>
    decreases n,
{
    if n <= 0 {
        Seq::empty()
    } else {
        expected_store_log(d, n - 1) + spec_commit_log(d, n - 1)
    }
}

/// The sync work the raw-append path performs over `n` records: its
/// callback runs once after every record.
pub open spec fn expected_raw_syncs(cb: SyncAction, n: int) -> Seq<SyncAction>
    decreases n,
{
    if n <= 0 {
        Seq::empty()
    } else {
        expected_raw_syncs(cb, n - 1) + seq![cb]
    }
}

/// How many entries of `s` are the action `a`.
pub open spec fn count_of(s: Seq<SyncAction>, a: SyncAction) -> int
    decreases s.len(),
{
    if s.len() == 0 {
        0
    } else {
        count_of(s.drop_last(), a) + if s.last() == a {
            1int
        } else {
            0int
        }
    }
}

/// How much work each path performs over `n` records: the transactional
/// path issues no sync call under `NoSync` and exactly one per commit
/// otherwise, the raw path's callback runs exactly once per record, and
/// the transactional path's log holds exactly one entry per backend call
/// made — one write per commit plus its sync call, if any.
pub proof fn lemma_run_lengths(kind: BackendKind, d: Durability, cb: SyncAction, n: int)
    requires
        n >= 0,
    ensures
        expected_store_syncs(kind, d, n).len() == if d == Durability::NoSync {
            0int
        } else {
            n
        },
        expected_raw_syncs(cb, n).len() == n,
        expected_store_log(d, n).len() == if d == Durability::NoSync {
            n
        } else {
            2 * n
        },
    decreases n,
{
    if n > 0 {
        lemma_run_lengths(kind, d, cb, n - 1);
    }
}

proof fn lemma_count_push(s: Seq<SyncAction>, x: SyncAction, a: SyncAction)
    ensures
        count_of(s + seq![x], a) == count_of(s, a) + if x == a {
            1int
        } else {
            0int
        },
{
    assert((s + seq![x]).drop_last() =~= s);
    assert((s + seq![x]).last() == x);
}

/// Sync-call parity, the point of the harness design: in every pairing
/// the harness runs except the mismatched one — no sync against a no-op
/// callback, immediate durability against a durable-sync callback, and
/// eventual durability on the dual-handle variant against a
/// buffered-flush callback — the transactional path and the raw path
/// perform the same number of durable syncs and the same number of
/// buffered flushes over `n` records, so the reported ratio isolates
/// transactional overhead from sync cost.
pub proof fn lemma_sync_call_parity(kind: BackendKind, d: Durability, n: int)
    requires
        n >= 0,
        d == Durability::Eventual ==> kind == BackendKind::DualHandle,
    ensures
        count_of(expected_store_syncs(kind, d, n), SyncAction::DurableSync) == count_of(
            expected_raw_syncs(spec_matching_callback(d), n),
            SyncAction::DurableSync,
        ),
        count_of(expected_store_syncs(kind, d, n), SyncAction::BufferedFlush) == count_of(
            expected_raw_syncs(spec_matching_callback(d), n),
            SyncAction::BufferedFlush,
        ),
    decreases n,
{
    let cb = spec_matching_callback(d);
    if n > 0 {
        lemma_sync_call_parity(kind, d, n - 1);
        lemma_count_push(expected_raw_syncs(cb, n - 1), cb, SyncAction::DurableSync);
        lemma_count_push(expected_raw_syncs(cb, n - 1), cb, SyncAction::BufferedFlush);
        match spec_commit_action(kind, d) {
            None => {
                assert(expected_store_syncs(kind, d, n) =~= expected_store_syncs(kind, d, n - 1));
            },
            Some(a) => {
                lemma_count_push(expected_store_syncs(kind, d, n - 1), a, SyncAction::DurableSync);
                lemma_count_push(
                    expected_store_syncs(kind, d, n - 1),
                    a,
                    SyncAction::BufferedFlush,
                );
            },
        }
    }
}

/// The one pairing whose two paths do not match — eventual durability on
/// the passthrough backend against a buffered-flush raw callback: every
/// commit there pays a full durable sync while the raw callback pays only
/// a buffered flush, so the reported ratio also carries the cost gap
/// between the two syscalls.
pub proof fn lemma_passthrough_eventual_mismatch(n: int)
    requires
        n >= 0,
    ensures
        count_of(
            expected_store_syncs(BackendKind::Passthrough, Durability::Eventual, n),
            SyncAction::DurableSync,
        ) == n,
        count_of(expected_raw_syncs(SyncAction::BufferedFlush, n), SyncAction::DurableSync) == 0,
        count_of(expected_raw_syncs(SyncAction::BufferedFlush, n), SyncAction::BufferedFlush) == n,
    decreases n,
{
    if n > 0 {
        lemma_passthrough_eventual_mismatch(n - 1);
        let s = expected_store_syncs(BackendKind::Passthrough, Durability::Eventual, n - 1);
        lemma_count_push(s, SyncAction::DurableSync, SyncAction::DurableSync);
        let r = expected_raw_syncs(SyncAction::BufferedFlush, n - 1);
        lemma_count_push(r, SyncAction::BufferedFlush, SyncAction::DurableSync);
        lemma_count_push(r, SyncAction::BufferedFlush, SyncAction::BufferedFlush);
    }
}

/// Sync-call parity for the full model runs, trailing flush-out sync
/// included: what `run_store_model` and `run_raw_model` return under a
/// matched pairing performs equal numbers of durable syncs and of
/// buffered flushes.
pub proof fn lemma_run_sync_parity(kind: BackendKind, d: Durability, n: int)
    requires
        n >= 0,
        d == Durability::Eventual ==> kind == BackendKind::DualHandle,
    ensures
        count_of(
            expected_store_syncs(kind, d, n) + seq![SyncAction::DurableSync],
            SyncAction::DurableSync,
        ) == count_of(
            expected_raw_syncs(spec_matching_callback(d), n) + seq![SyncAction::DurableSync],
            SyncAction::DurableSync,
        ),
        count_of(
            expected_store_syncs(kind, d, n) + seq![SyncAction::DurableSync],
            SyncAction::BufferedFlush,
        ) == count_of(
            expected_raw_syncs(spec_matching_callback(d), n) + seq![SyncAction::DurableSync],
            SyncAction::BufferedFlush,
        ),
{
    lemma_sync_call_parity(kind, d, n);
    let cb = spec_matching_callback(d);
    lemma_count_push(expected_store_syncs(kind, d, n), SyncAction::DurableSync, SyncAction::DurableSync);
    lemma_count_push(
        expected_store_syncs(kind, d, n),
        SyncAction::DurableSync,
        SyncAction::BufferedFlush,
    );
    lemma_count_push(expected_raw_syncs(cb, n), SyncAction::DurableSync, SyncAction::DurableSync);
    lemma_count_push(expected_raw_syncs(cb, n), SyncAction::DurableSync, SyncAction::BufferedFlush);
}

/// The transactional path of one benchmark run, over the in-memory
/// backend model: `n` transactions, each staging one fixed-size record
/// and committing under the chosen policy, then one trailing commit under
/// the default immediate policy that flushes the run out. Returns the
/// logged backend: `n` records of zero bytes stand in the byte range, the
/// sync work is one entry per commit as the kind and policy prescribe
/// plus the trailing durable sync, and the log holds exactly the calls
/// made.
pub fn run_store_model(kind: BackendKind, d: Durability, n: u64) -> (b: LogBackend)
    requires
        n * RECORD_LEN <= usize::MAX,
    ensures
        b.spec_kind() == kind,
        b.bytes().len() == n * RECORD_LEN,
        forall|j: int| 0 <= j < b.bytes().len() ==> b.bytes()[j] == 0u8,
        b.syncs() == expected_store_syncs(kind, d, n as int) + seq![SyncAction::DurableSync],
        b.log_entries() == expected_store_log(d, n as int) + seq![
            CallRecord::SyncCall { eventual: false },
        ],
{
    let mut b = LogBackend::new(VariantBackend::new(kind));
    let mut record: Vec<u8> = Vec::new();
    let mut k: usize = 0;
    while k < RECORD_LEN
        invariant
            k <= RECORD_LEN,
            record@.len() == k,
            forall|j: int| 0 <= j < k ==> record@[j] == 0u8,
        decreases RECORD_LEN - k,
    {
        record.push(0u8);
        k = k + 1;
    }
    let mut i: u64 = 0;
    while i < n
        invariant
            i <= n,
            n * RECORD_LEN <= usize::MAX,
            record@.len() == RECORD_LEN,
            forall|j: int| 0 <= j < RECORD_LEN ==> record@[j] == 0u8,
            b.spec_kind() == kind,
            b.bytes().len() == i * RECORD_LEN,
            forall|j: int| 0 <= j < b.bytes().len() ==> b.bytes()[j] == 0u8,
            b.syncs() == expected_store_syncs(kind, d, i as int),
            b.log_entries() == expected_store_log(d, i as int),
        decreases n - i,
    {
        let ghost pre = b;
        let mut txn = TxnModel::begin();
        txn.set_durability(d);
        txn.stage_mutation();
        let offset = i * (RECORD_LEN as u64);
        let res = b.write(offset, record.as_slice());
        proof {
            assert(res is Ok);
            assert(b.bytes() == store_write(pre.bytes(), offset as int, record@));
            assert(b.bytes().len() == (i + 1) * RECORD_LEN) by {
                assert(offset + RECORD_LEN == (i + 1) * RECORD_LEN);
            }
            assert forall|j: int| 0 <= j < b.bytes().len() implies b.bytes()[j] == 0u8 by {
                if offset <= j < offset + RECORD_LEN {
                    assert(b.bytes()[j] == record@[j - offset]);
                } else {
                    assert(b.bytes()[j] == pre.bytes()[j]);
                }
            }
        }
        match txn.commit() {
            None => {
                proof {
                    assert(expected_store_syncs(kind, d, i as int + 1) =~= b.syncs());
                }
            },
            Some(ev) => {
                b.sync_data(ev);
                proof {
                    assert(expected_store_syncs(kind, d, i as int + 1) =~= b.syncs());
                }
            },
        }
        proof {
            assert(expected_store_log(d, i as int + 1) =~= b.log_entries());
        }
        i = i + 1;
    }
    let trailing = TxnModel::begin();
    match trailing.commit() {
        None => {},
        Some(ev) => {
            b.sync_data(ev);
        },
    }
    proof {
        assert(b.syncs() =~= expected_store_syncs(kind, d, n as int) + seq![
            SyncAction::DurableSync,
        ]);
        assert(b.log_entries() =~= expected_store_log(d, n as int) + seq![
            CallRecord::SyncCall { eventual: false },
        ]);
    }
    b
}

/// The raw-append path of one benchmark run, over the in-memory model of
/// the flat file: `n` fixed-size records appended, the chosen flush
/// callback run after each, and one trailing durable sync that flushes
/// the run out. Returns the file model and the sync work performed.
pub fn run_raw_model(cb: SyncAction, n: u64) -> (r: (MemStore, Vec<SyncAction>))
    requires
        n * RECORD_LEN <= usize::MAX,
    ensures
        r.0@.len() == n * RECORD_LEN,
        forall|j: int| 0 <= j < r.0@.len() ==> r.0@[j] == 0u8,
        r.1@ == expected_raw_syncs(cb, n as int) + seq![SyncAction::DurableSync],
{
    let mut file = MemStore::new();
    let mut performed: Vec<SyncAction> = Vec::new();
    let mut record: Vec<u8> = Vec::new();
    let mut k: usize = 0;
    while k < RECORD_LEN
        invariant
            k <= RECORD_LEN,
            record@.len() == k,
            forall|j: int| 0 <= j < k ==> record@[j] == 0u8,
        decreases RECORD_LEN - k,
    {
        record.push(0u8);
        k = k + 1;
    }
    let mut i: u64 = 0;
    while i < n
        invariant
            i <= n,
            n * RECORD_LEN <= usize::MAX,
            record@.len() == RECORD_LEN,
            forall|j: int| 0 <= j < RECORD_LEN ==> record@[j] == 0u8,
            file@.len() == i * RECORD_LEN,
            forall|j: int| 0 <= j < file@.len() ==> file@[j] == 0u8,
            performed@ == expected_raw_syncs(cb, i as int),
        decreases n - i,
    {
        let ghost pre = file@;
        let offset = i * (RECORD_LEN as u64);
        let res = file.write(offset, record.as_slice());
        proof {
            assert(res is Ok);
            assert(file@ == store_write(pre, offset as int, record@));
            assert(file@.len() == (i + 1) * RECORD_LEN) by {
                assert(offset + RECORD_LEN == (i + 1) * RECORD_LEN);
            }
            assert forall|j: int| 0 <= j < file@.len() implies file@[j] == 0u8 by {
                if offset <= j < offset + RECORD_LEN {
                    assert(file@[j] == record@[j - offset]);
                } else {
                    assert(file@[j] == pre[j]);
                }
            }
        }
        performed.push(cb);
        proof {
            assert(expected_raw_syncs(cb, i as int + 1) =~= performed@);
        }
        i = i + 1;
    }
    performed.push(SyncAction::DurableSync);
    proof {
        assert(performed@ =~= expected_raw_syncs(cb, n as int) + seq![SyncAction::DurableSync]);
    }
    (file, performed)
}

} // verus!
