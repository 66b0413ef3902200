use durabench::backend::{BackendKind, SyncAction, VariantBackend};
use durabench::logging::{CallRecord, LogBackend};
use durabench::store::StoreError;

#[test]
fn one_log_entry_per_call() {
    let mut b = LogBackend::new(VariantBackend::new(BackendKind::Passthrough));
    assert!(b.log().is_empty());

    let data: Vec<u8> = vec![1, 2, 3];
    b.write(4, data.as_slice()).unwrap();
    assert_eq!(b.log().len(), 1);

    let _ = b.read(4, 3).unwrap();
    assert_eq!(b.log().len(), 2);

    let _ = b.len();
    assert_eq!(b.log().len(), 3);

    b.set_len(2).unwrap();
    assert_eq!(b.log().len(), 4);

    b.sync_data(true);
    assert_eq!(b.log().len(), 5);

    // Even a failing call logs exactly one entry.
    assert_eq!(b.read(90, 4).unwrap_err(), StoreError::OutOfRange);
    assert_eq!(b.log().len(), 6);
}

#[test]
fn log_entries_carry_the_call_arguments() {
    let mut b = LogBackend::new(VariantBackend::new(BackendKind::DualHandle));
    let data: Vec<u8> = vec![5, 6];
    b.write(7, data.as_slice()).unwrap();
    let reported = b.len();
    assert_eq!(reported, 9);
    let _ = b.read(7, 2).unwrap();
    b.set_len(8).unwrap();
    b.sync_data(false);
    assert_eq!(
        b.log().as_slice(),
        &[
            CallRecord::WriteCall { offset: 7, len: 2 },
            CallRecord::LenCall { result: 9 },
            CallRecord::ReadCall { offset: 7, len: 2 },
            CallRecord::SetLenCall { new_len: 8 },
            CallRecord::SyncCall { eventual: false },
        ]
    );
}

#[test]
fn wrapper_returns_the_inner_backend_results() {
    // The same calls against a wrapped and an unwrapped backend of the
    // same kind return the same values.
    let mut plain = VariantBackend::new(BackendKind::NoopEventual);
    let mut logged = LogBackend::new(VariantBackend::new(BackendKind::NoopEventual));

    let data: Vec<u8> = vec![3, 1, 4, 1, 5];
    assert_eq!(
        plain.write(2, data.as_slice()),
        logged.write(2, data.as_slice())
    );
    assert_eq!(plain.len(), logged.len());
    assert_eq!(plain.read(0, 7), logged.read(0, 7));
    assert_eq!(plain.read(5, 9), logged.read(5, 9));
    assert_eq!(plain.set_len(3), logged.set_len(3));
    assert_eq!(plain.sync_data(true), logged.sync_data(true));
    assert_eq!(plain.sync_data(false), logged.sync_data(false));
    assert_eq!(plain.sync_history(), logged.sync_history());
}

#[test]
fn wrapper_does_not_alter_sync_work() {
    let mut b = LogBackend::new(VariantBackend::new(BackendKind::DualHandle));
    assert_eq!(b.sync_data(true), SyncAction::BufferedFlush);
    assert_eq!(b.sync_data(false), SyncAction::DurableSync);
    assert_eq!(
        b.sync_history().as_slice(),
        &[SyncAction::BufferedFlush, SyncAction::DurableSync]
    );
}
