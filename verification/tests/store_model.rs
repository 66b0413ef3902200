use durabench::store::{MemStore, StoreError};

#[test]
fn write_then_read_returns_data() {
    let mut s = MemStore::new();
    let data: Vec<u8> = vec![7, 8, 9, 10];
    s.write(3, data.as_slice()).unwrap();
    let got = s.read(3, 4).unwrap();
    assert_eq!(got, data);
}

#[test]
fn write_at_zero_then_read() {
    let mut s = MemStore::new();
    let data: Vec<u8> = vec![1, 2, 3];
    s.write(0, data.as_slice()).unwrap();
    assert_eq!(s.read(0, 3).unwrap(), data);
}

#[test]
fn len_after_write_is_max_of_old_len_and_write_end() {
    let mut s = MemStore::new();
    assert_eq!(s.len(), 0);
    let data: Vec<u8> = vec![1, 2, 3, 4];
    s.write(10, data.as_slice()).unwrap();
    assert_eq!(s.len(), 14);
    // A write wholly inside the range does not change the length.
    s.write(0, data.as_slice()).unwrap();
    assert_eq!(s.len(), 14);
    // A write straddling the end extends to its end.
    s.write(12, data.as_slice()).unwrap();
    assert_eq!(s.len(), 16);
}

#[test]
fn gap_before_write_reads_as_zero() {
    let mut s = MemStore::new();
    let data: Vec<u8> = vec![9];
    s.write(4, data.as_slice()).unwrap();
    assert_eq!(s.read(0, 5).unwrap(), vec![0, 0, 0, 0, 9]);
}

#[test]
fn overwrite_keeps_other_bytes() {
    let mut s = MemStore::new();
    s.write(0, vec![1, 2, 3, 4, 5].as_slice()).unwrap();
    s.write(1, vec![8, 9].as_slice()).unwrap();
    assert_eq!(s.read(0, 5).unwrap(), vec![1, 8, 9, 4, 5]);
}

#[test]
fn read_beyond_len_is_out_of_range() {
    let mut s = MemStore::new();
    s.write(0, vec![1, 2, 3].as_slice()).unwrap();
    assert_eq!(s.read(1, 3).unwrap_err(), StoreError::OutOfRange);
    assert_eq!(s.read(4, 0).unwrap_err(), StoreError::OutOfRange);
    assert_eq!(MemStore::new().read(0, 1).unwrap_err(), StoreError::OutOfRange);
}

#[test]
fn read_of_zero_bytes_at_end_is_ok() {
    let mut s = MemStore::new();
    s.write(0, vec![1, 2].as_slice()).unwrap();
    assert_eq!(s.read(2, 0).unwrap(), Vec::<u8>::new());
    assert_eq!(MemStore::new().read(0, 0).unwrap(), Vec::<u8>::new());
}

#[test]
fn empty_write_extends_to_its_offset() {
    // The length formula is max(old_len, offset + data_len) even for an
    // empty write.
    let mut s = MemStore::new();
    s.write(5, Vec::new().as_slice()).unwrap();
    assert_eq!(s.len(), 5);
    assert_eq!(s.read(0, 5).unwrap(), vec![0, 0, 0, 0, 0]);
}

#[test]
fn write_beyond_addressable_range_is_capacity_error() {
    let mut s = MemStore::new();
    let r = s.write(u64::MAX, vec![1].as_slice());
    assert_eq!(r.unwrap_err(), StoreError::Capacity);
    // The failed write left the range untouched.
    assert_eq!(s.len(), 0);
}

#[test]
fn set_len_truncates() {
    let mut s = MemStore::new();
    s.write(0, vec![1, 2, 3, 4].as_slice()).unwrap();
    s.set_len(2).unwrap();
    assert_eq!(s.len(), 2);
    assert_eq!(s.read(0, 2).unwrap(), vec![1, 2]);
    assert_eq!(s.read(0, 3).unwrap_err(), StoreError::OutOfRange);
}

#[test]
fn set_len_extends_with_zeros() {
    let mut s = MemStore::new();
    s.write(0, vec![1, 2].as_slice()).unwrap();
    s.set_len(4).unwrap();
    assert_eq!(s.read(0, 4).unwrap(), vec![1, 2, 0, 0]);
}

#[test]
fn truncate_then_write_then_read_back() {
    let mut s = MemStore::new();
    s.write(0, vec![1, 2, 3, 4].as_slice()).unwrap();
    s.set_len(1).unwrap();
    let data: Vec<u8> = vec![5, 6];
    s.write(1, data.as_slice()).unwrap();
    assert_eq!(s.read(0, 3).unwrap(), vec![1, 5, 6]);
}
