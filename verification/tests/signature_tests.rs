use solana_ffi::handle::HandleTable;
use solana_ffi::signature_export::{from_slice, new_unique, verify, signature_from_str,
    signature_to_str, free_signature};
use solana_sdk::signature::Signer;

#[test]
fn signature_text_round_trip() {
    let mut st = HandleTable::new();
    let b: Vec<u8> = (0u8..64).collect();
    let h = from_slice(&mut st, b);
    let text = signature_to_str(&st, h);
    assert!(text.len() <= 88);
    let r = signature_from_str(&mut st, &text);
    assert_eq!(r.is_error, 0);
    assert_eq!(signature_to_str(&st, r.result), text);
}

#[test]
fn signature_base58_matches_the_delegated_rendering() {
    let mut st = HandleTable::new();
    let b = vec![7u8; 64];
    let h = from_slice(&mut st, b.clone());
    let ours = String::from_utf8(signature_to_str(&st, h)).unwrap();
    let arr: [u8; 64] = b.as_slice().try_into().unwrap();
    assert_eq!(ours, solana_sdk::signature::Signature::from(arr).to_string());
}

#[test]
fn signature_from_str_too_long_is_an_error() {
    let mut st = HandleTable::new();
    let r = signature_from_str(&mut st, &vec![b'1'; 89]);
    assert_eq!(r.is_error, 1);
    assert_eq!(r.result, 0);
    assert!(!r.error.unwrap().is_empty());
}

#[test]
fn signature_from_str_invalid_alphabet_is_an_error() {
    let mut st = HandleTable::new();
    let r = signature_from_str(&mut st, &b"this has spaces!".to_vec());
    assert_eq!(r.is_error, 1);
    assert!(r.error.is_some());
}

#[test]
fn signature_from_str_short_decode_is_an_error() {
    let mut st = HandleTable::new();
    let r = signature_from_str(&mut st, &b"abc".to_vec());
    assert_eq!(r.is_error, 1);
    assert!(r.error.is_some());
}

#[test]
fn verify_accepts_a_real_signature_and_refuses_a_wrong_one() {
    let mut st = HandleTable::new();
    let kp = solana_sdk::signature::Keypair::new();
    let msg = b"attack at dawn".to_vec();
    let sig = kp.sign_message(&msg);
    let h = from_slice(&mut st, sig.as_array().to_vec());
    let pk = kp.pubkey().to_bytes().to_vec();
    assert_eq!(verify(&st, h, &pk, &msg), 1);
    assert_eq!(verify(&st, h, &pk, &b"attack at dusk".to_vec()), 0);
    let other_pk = solana_sdk::signature::Keypair::new().pubkey().to_bytes().to_vec();
    assert_eq!(verify(&st, h, &other_pk, &msg), 0);
}

#[test]
fn verify_refuses_an_unparsable_public_key() {
    let mut st = HandleTable::new();
    let h = new_unique(&mut st);
    assert_eq!(verify(&st, h, &vec![1u8; 3], &b"m".to_vec()), 0);
}

#[test]
fn freed_signature_handle_is_not_live() {
    let mut st = HandleTable::new();
    let h = new_unique(&mut st);
    free_signature(&mut st, h);
    assert!(!st.is_live(h));
}
