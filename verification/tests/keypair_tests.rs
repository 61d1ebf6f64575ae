use solana_ffi::common_types::{BufferTable, from_raw_parts};
use solana_ffi::handle::HandleTable;
use solana_ffi::keypair_export::{new_keypair, from_bytes, to_bytes, from_base58_string,
    to_base58_string, secret, pubkey, sign_message, is_interactive,
    from_seed_phrase_and_passphrase, free_keypair};
use solana_ffi::pubkey_export::pubkey_to_base58;
use solana_ffi::signature_export::{verify, signature_to_str};
use solana_sdk::signature::Signer;

#[test]
fn keypair_bytes_round_trip_twice() {
    let mut kt = HandleTable::new();
    let mut bt = BufferTable::new();
    let h1 = new_keypair(&mut kt);
    let parts = to_bytes(&kt, &mut bt, h1);
    let b1 = from_raw_parts(&mut bt, parts);
    assert_eq!(b1.len(), 64);
    let r = from_bytes(&mut kt, &b1);
    assert_eq!(r.is_error, 0);
    let parts2 = to_bytes(&kt, &mut bt, r.result);
    let b2 = from_raw_parts(&mut bt, parts2);
    assert_eq!(b1, b2);
}

#[test]
fn keypair_from_bytes_rejects_wrong_length() {
    let mut kt = HandleTable::new();
    let r = from_bytes(&mut kt, &vec![0u8; 63]);
    assert_eq!(r.is_error, 1);
    assert_eq!(r.result, 0);
    assert_eq!(
        r.error.as_deref(),
        Some("candidate keypair byte array is the wrong length")
    );
}

#[test]
fn keypair_from_bytes_rejects_a_mismatched_pubkey() {
    let mut kt = HandleTable::new();
    let mut bt = BufferTable::new();
    let h = new_keypair(&mut kt);
    let parts = to_bytes(&kt, &mut bt, h);
    let mut b = from_raw_parts(&mut bt, parts);
    b[40] = b[40].wrapping_add(1);
    let r = from_bytes(&mut kt, &b);
    assert_eq!(r.is_error, 1);
    assert!(r.error.as_deref().unwrap().contains("do not specify same pubkey"));
}

#[test]
fn keypair_pubkey_base58_is_at_most_44_chars() {
    let mut kt = HandleTable::new();
    let mut pt = HandleTable::new();
    let h = new_keypair(&mut kt);
    let ph = pubkey(&kt, &mut pt, h);
    let text = pubkey_to_base58(&pt, ph);
    assert!(text.len() <= 44);
}

#[test]
fn sign_then_verify_accepts_and_altered_message_is_refused() {
    let mut kt = HandleTable::new();
    let mut pt = HandleTable::new();
    let mut st = HandleTable::new();
    let mut bt = BufferTable::new();
    let h = new_keypair(&mut kt);
    let msg = b"the quick brown fox".to_vec();
    let sh = sign_message(&kt, &mut st, h, &msg);
    let ph = pubkey(&kt, &mut pt, h);
    let parts = solana_ffi::pubkey_export::pubkey_to_bytes(&pt, &mut bt, ph);
    let pk_bytes = from_raw_parts(&mut bt, parts);
    assert_eq!(verify(&st, sh, &pk_bytes, &msg), 1);
    let mut altered = msg.clone();
    altered[0] ^= 1;
    assert_eq!(verify(&st, sh, &pk_bytes, &altered), 0);
}

#[test]
fn secret_is_the_first_half_of_the_bytes() {
    let mut kt = HandleTable::new();
    let mut bt = BufferTable::new();
    let h = new_keypair(&mut kt);
    let parts_tmp1 = to_bytes(&kt, &mut bt, h);
    let all = from_raw_parts(&mut bt, parts_tmp1);
    let parts_tmp2 = secret(&kt, &mut bt, h);
    let s = from_raw_parts(&mut bt, parts_tmp2);
    assert_eq!(s, all[0..32].to_vec());
}

#[test]
fn pubkey_is_the_second_half_of_the_bytes() {
    let mut kt = HandleTable::new();
    let mut pt = HandleTable::new();
    let mut bt = BufferTable::new();
    let h = new_keypair(&mut kt);
    let parts_tmp3 = to_bytes(&kt, &mut bt, h);
    let all = from_raw_parts(&mut bt, parts_tmp3);
    let ph = pubkey(&kt, &mut pt, h);
    let parts_tmp4 = solana_ffi::pubkey_export::pubkey_to_bytes(&pt, &mut bt, ph);
    let pk = from_raw_parts(&mut bt, parts_tmp4);
    assert_eq!(pk, all[32..64].to_vec());
}

#[test]
fn keypair_base58_round_trip_matches_the_delegated_rendering() {
    let mut kt = HandleTable::new();
    let mut bt = BufferTable::new();
    let h = new_keypair(&mut kt);
    let parts_tmp5 = to_bytes(&kt, &mut bt, h);
    let b = from_raw_parts(&mut bt, parts_tmp5);
    let text = to_base58_string(&kt, h);
    let sdk_kp = solana_sdk::signature::Keypair::try_from(b.as_slice()).unwrap();
    assert_eq!(String::from_utf8(text.clone()).unwrap(), sdk_kp.to_base58_string());
    let r = from_base58_string(&mut kt, &text);
    assert_eq!(r.is_error, 0);
    let parts_tmp6 = to_bytes(&kt, &mut bt, r.result);
    let b2 = from_raw_parts(&mut bt, parts_tmp6);
    assert_eq!(b, b2);
}

#[test]
fn from_base58_string_rejects_garbage() {
    let mut kt = HandleTable::new();
    let r = from_base58_string(&mut kt, &b"!!!not base58!!!".to_vec());
    assert_eq!(r.is_error, 1);
    assert_eq!(r.result, 0);
}

#[test]
fn keypair_from_a_short_seed_is_refused() {
    let r = solana_ffi::keypair_export::keypair_from_seed_bytes(&vec![1u8; 16]);
    match r {
        Ok(_) => panic!("a 16-byte seed must be refused"),
        Err(msg) => assert_eq!(msg, "Seed is too short"),
    }
}

#[test]
fn keypair_is_never_interactive() {
    let mut kt = HandleTable::new();
    let h = new_keypair(&mut kt);
    assert_eq!(is_interactive(&kt, h), 0);
}

#[test]
fn from_seed_phrase_matches_the_delegated_derivation() {
    let mut kt = HandleTable::new();
    let mut bt = BufferTable::new();
    let phrase = b"one two three four".to_vec();
    let pass = b"hunter".to_vec();
    let r = from_seed_phrase_and_passphrase(&mut kt, &phrase, &pass);
    assert_eq!(r.is_error, 0);
    let parts_tmp7 = to_bytes(&kt, &mut bt, r.result);
    let ours = from_raw_parts(&mut bt, parts_tmp7);
    let expected = solana_sdk::signer::keypair::keypair_from_seed_phrase_and_passphrase(
        "one two three four",
        "hunter",
    )
    .unwrap();
    assert_eq!(ours, expected.to_bytes().to_vec());
}

#[test]
fn from_seed_phrase_rejects_malformed_text() {
    let mut kt = HandleTable::new();
    let bad = vec![0xffu8, 0xfe, 0xfd];
    let r = from_seed_phrase_and_passphrase(&mut kt, &bad, &Vec::new());
    assert_eq!(r.is_error, 1);
    assert!(r.error.is_some());
}

#[test]
fn signed_message_signature_renders_like_the_delegated_one() {
    let mut kt = HandleTable::new();
    let mut st = HandleTable::new();
    let mut bt = BufferTable::new();
    let h = new_keypair(&mut kt);
    let parts_tmp8 = to_bytes(&kt, &mut bt, h);
    let b = from_raw_parts(&mut bt, parts_tmp8);
    let msg = b"payload".to_vec();
    let sh = sign_message(&kt, &mut st, h, &msg);
    let ours = String::from_utf8(signature_to_str(&st, sh)).unwrap();
    let sdk_kp = solana_sdk::signature::Keypair::try_from(b.as_slice()).unwrap();
    assert_eq!(ours, sdk_kp.sign_message(&msg).to_string());
}

#[test]
fn freed_keypair_handle_is_not_live() {
    let mut kt = HandleTable::new();
    let h = new_keypair(&mut kt);
    free_keypair(&mut kt, h);
    assert!(!kt.is_live(h));
}
