use durabench::backend::{sync_action, BackendKind, SyncAction, VariantBackend};
use durabench::durability::{sync_flag, Durability, TxnModel};
use durabench::store::StoreError;

#[test]
fn sync_action_table() {
    assert_eq!(
        sync_action(BackendKind::Passthrough, true),
        SyncAction::DurableSync
    );
    assert_eq!(
        sync_action(BackendKind::Passthrough, false),
        SyncAction::DurableSync
    );
    assert_eq!(
        sync_action(BackendKind::DualHandle, true),
        SyncAction::BufferedFlush
    );
    assert_eq!(
        sync_action(BackendKind::DualHandle, false),
        SyncAction::DurableSync
    );
    assert_eq!(
        sync_action(BackendKind::NoopEventual, true),
        SyncAction::NoAction
    );
    assert_eq!(
        sync_action(BackendKind::NoopEventual, false),
        SyncAction::DurableSync
    );
}

#[test]
fn sync_flag_per_policy() {
    assert_eq!(sync_flag(Durability::NoSync), None);
    assert_eq!(sync_flag(Durability::Eventual), Some(true));
    assert_eq!(sync_flag(Durability::Immediate), Some(false));
}

#[test]
fn variant_records_its_sync_work_in_order() {
    let mut b = VariantBackend::new(BackendKind::DualHandle);
    assert_eq!(b.kind(), BackendKind::DualHandle);
    assert_eq!(b.sync_data(true), SyncAction::BufferedFlush);
    assert_eq!(b.sync_data(false), SyncAction::DurableSync);
    assert_eq!(b.sync_data(true), SyncAction::BufferedFlush);
    assert_eq!(
        b.sync_history().as_slice(),
        &[
            SyncAction::BufferedFlush,
            SyncAction::DurableSync,
            SyncAction::BufferedFlush
        ]
    );
}

#[test]
fn every_variant_passes_the_byte_primitives_through() {
    for kind in [
        BackendKind::Passthrough,
        BackendKind::DualHandle,
        BackendKind::NoopEventual,
    ] {
        let mut b = VariantBackend::new(kind);
        assert_eq!(b.len(), 0);
        let data: Vec<u8> = vec![1, 2, 3];
        b.write(2, data.as_slice()).unwrap();
        assert_eq!(b.len(), 5);
        assert_eq!(b.read(2, 3).unwrap(), data);
        assert_eq!(b.read(0, 5).unwrap(), vec![0, 0, 1, 2, 3]);
        assert_eq!(b.read(3, 3).unwrap_err(), StoreError::OutOfRange);
        b.set_len(3).unwrap();
        assert_eq!(b.read(0, 3).unwrap(), vec![0, 0, 1]);
        // None of the byte primitives performed sync work.
        assert!(b.sync_history().is_empty());
        // An immediate sync is a durable sync on every variant.
        assert_eq!(b.sync_data(false), SyncAction::DurableSync);
    }
}

#[test]
fn noop_variant_eventual_sync_performs_no_syscall() {
    let mut b = VariantBackend::new(BackendKind::NoopEventual);
    assert_eq!(b.sync_data(true), SyncAction::NoAction);
    assert_eq!(b.sync_history().as_slice(), &[SyncAction::NoAction]);
}

#[test]
fn txn_commit_owes_the_policy_sync_call() {
    let mut t = TxnModel::begin();
    t.set_durability(Durability::NoSync);
    t.stage_mutation();
    assert_eq!(t.commit(), None);

    let mut t = TxnModel::begin();
    t.set_durability(Durability::Eventual);
    t.stage_mutation();
    assert_eq!(t.commit(), Some(true));

    let mut t = TxnModel::begin();
    t.set_durability(Durability::Immediate);
    assert_eq!(t.commit(), Some(false));

    // The default policy, when none is chosen, is immediate.
    assert_eq!(TxnModel::begin().commit(), Some(false));
}
