use solana_ffi::common_types::{BufferTable, VecRawParts, to_raw_parts, from_raw_parts, free_vec,
    init_vec, copy_bytes, copy_range, bytes_eq};

#[test]
fn buffer_round_trip_is_lossless() {
    let mut t = BufferTable::new();
    let parts = to_raw_parts(&mut t, vec![1u8, 2, 3, 4, 5]);
    assert_eq!(parts.length, 5);
    assert_eq!(parts.capacity, 5);
    assert!(parts.data != 0);
    let back = from_raw_parts(&mut t, parts);
    assert_eq!(back, vec![1u8, 2, 3, 4, 5]);
}

#[test]
fn empty_buffer_encodes_as_null_triple() {
    let mut t = BufferTable::new();
    let parts = to_raw_parts(&mut t, Vec::new());
    assert_eq!(parts.data, 0);
    assert_eq!(parts.length, 0);
    assert_eq!(parts.capacity, 0);
    assert!(free_vec(&mut t, parts));
}

#[test]
fn null_triple_reclaims_as_empty() {
    let mut t = BufferTable::new();
    let parts = VecRawParts::default();
    let back = from_raw_parts(&mut t, parts);
    assert!(back.is_empty());
}

#[test]
fn free_vec_refuses_a_second_free() {
    let mut t = BufferTable::new();
    let parts = to_raw_parts(&mut t, vec![9u8; 4]);
    let again = VecRawParts { data: parts.data, length: parts.length, capacity: parts.capacity };
    assert!(free_vec(&mut t, parts));
    assert!(!free_vec(&mut t, again));
}

#[test]
fn free_vec_refuses_a_foreign_triple() {
    let mut t = BufferTable::new();
    let bogus = VecRawParts { data: 7, length: 3, capacity: 3 };
    assert!(!free_vec(&mut t, bogus));
}

#[test]
fn init_vec_pre_allocates_zero_filled() {
    let mut t = BufferTable::new();
    let mut out = VecRawParts::default();
    init_vec(&mut t, 8, &mut out);
    assert_eq!(out.length, 8);
    let back = from_raw_parts(&mut t, out);
    assert_eq!(back, vec![0u8; 8]);
}

#[test]
fn byte_helpers_copy_and_compare() {
    let v = vec![1u8, 2, 3, 4];
    assert_eq!(copy_bytes(&v), v);
    assert_eq!(copy_range(&v, 1, 3), vec![2u8, 3]);
    assert!(bytes_eq(&v, &vec![1u8, 2, 3, 4]));
    assert!(!bytes_eq(&v, &vec![1u8, 2, 3]));
    assert!(!bytes_eq(&v, &vec![1u8, 2, 3, 5]));
}
