use solana_ffi::common_types::{BufferTable, from_raw_parts};
use solana_ffi::handle::HandleTable;
use solana_ffi::hash_export::{hash_new, hash_new_from_array, hash_new_unique, hash_from_string,
    hash_to_bytes, hash_to_result, hash_to_string, free_hash};

#[test]
fn hash_bytes_round_trip_twice() {
    let mut ht = HandleTable::new();
    let mut bt = BufferTable::new();
    let b: Vec<u8> = (64u8..96).collect();
    let h1 = hash_new(&mut ht, b.clone());
    let parts_tmp1 = hash_to_bytes(&ht, &mut bt, h1);
    let out1 = from_raw_parts(&mut bt, parts_tmp1);
    assert_eq!(out1, b);
    let h2 = hash_new_from_array(&mut ht, out1);
    let parts_tmp2 = hash_to_bytes(&ht, &mut bt, h2);
    let out2 = from_raw_parts(&mut bt, parts_tmp2);
    assert_eq!(out2, b);
}

#[test]
fn hash_text_round_trip() {
    let mut ht = HandleTable::new();
    let mut bt = BufferTable::new();
    let h = hash_new(&mut ht, vec![0xabu8; 32]);
    let text = hash_to_string(&ht, h);
    assert!(text.len() <= 44);
    let r = hash_from_string(&mut ht, &text);
    assert_eq!(r.is_error, 0);
    let parts_back = hash_to_bytes(&ht, &mut bt, r.result);
    assert_eq!(from_raw_parts(&mut bt, parts_back), vec![0xabu8; 32]);
}

#[test]
fn hash_base58_matches_the_delegated_rendering() {
    let mut ht = HandleTable::new();
    let b = vec![0x11u8; 32];
    let h = hash_new(&mut ht, b.clone());
    let ours = String::from_utf8(hash_to_string(&ht, h)).unwrap();
    let arr: [u8; 32] = b.as_slice().try_into().unwrap();
    assert_eq!(ours, solana_sdk::hash::Hash::new_from_array(arr).to_string());
}

#[test]
fn hash_from_string_errors() {
    let mut ht = HandleTable::new();
    let long = hash_from_string(&mut ht, &vec![b'1'; 45]);
    assert_eq!(long.is_error, 1);
    assert_eq!(long.error.as_deref(), Some("string decoded to wrong size for hash"));
    let bad = hash_from_string(&mut ht, &b"zero 0".to_vec());
    assert_eq!(bad.is_error, 1);
    assert_eq!(bad.error.as_deref(), Some("failed to decoded string to hash"));
    let short = hash_from_string(&mut ht, &b"abc".to_vec());
    assert_eq!(short.is_error, 1);
    assert_eq!(short.error.as_deref(), Some("string decoded to wrong size for hash"));
}

#[test]
fn hash_result_carries_the_bytes_by_value() {
    let mut ht = HandleTable::new();
    let b: Vec<u8> = (0u8..32).collect();
    let h = hash_new(&mut ht, b.clone());
    let r = hash_to_result(&ht, h);
    assert_eq!(r.hash.to_vec(), b);
}

#[test]
fn unique_hashes_differ() {
    let mut ht = HandleTable::new();
    let h1 = hash_new_unique(&mut ht);
    let h2 = hash_new_unique(&mut ht);
    assert_ne!(hash_to_string(&ht, h1), hash_to_string(&ht, h2));
}

#[test]
fn freed_hash_handle_is_not_live() {
    let mut ht = HandleTable::new();
    let h = hash_new(&mut ht, vec![5u8; 32]);
    free_hash(&mut ht, h);
    assert!(!ht.is_live(h));
}
