use solana_ffi::common_types::{BufferTable, from_raw_parts};
use solana_ffi::handle::HandleTable;
use solana_ffi::bip39_export::{Lang, MnemonicKind, language_from_str, mnemonic_type_from_str,
    mnemonic_new, from_entropy, from_phrase, validate, phrase, into_phrase, entropy, seed_new,
    as_bytes, keypair_from_seed_entropy, free_mnemonic, free_seed};
use solana_ffi::keypair_export::to_bytes;

const VECTOR_ENTROPY: [u8; 16] = [
    0x33, 0xE4, 0x6B, 0xB1, 0x3A, 0x74, 0x6E, 0xA4, 0x1C, 0xDD, 0xE4, 0x5C, 0x90, 0x84, 0x6A,
    0x79,
];

const VECTOR_PHRASE: &str =
    "crop cash unable insane eight faith inflict route frame loud box vibrant";

#[test]
fn language_names_parse() {
    assert_eq!(language_from_str("English"), Some(Lang::English));
    assert_eq!(language_from_str("ChineseSimplified"), Some(Lang::ChineseSimplified));
    assert_eq!(language_from_str("ChineseTraditional"), Some(Lang::ChineseTraditional));
    assert_eq!(language_from_str("French"), Some(Lang::French));
    assert_eq!(language_from_str("Italian"), Some(Lang::Italian));
    assert_eq!(language_from_str("Japanese"), Some(Lang::Japanese));
    assert_eq!(language_from_str("Korean"), Some(Lang::Korean));
    assert_eq!(language_from_str("Spanish"), Some(Lang::Spanish));
    assert_eq!(language_from_str("Klingon"), None);
    assert_eq!(language_from_str("english"), None);
}

#[test]
fn mnemonic_type_names_parse() {
    assert_eq!(mnemonic_type_from_str("Words12"), Some(MnemonicKind::Words12));
    assert_eq!(mnemonic_type_from_str("Words15"), Some(MnemonicKind::Words15));
    assert_eq!(mnemonic_type_from_str("Words18"), Some(MnemonicKind::Words18));
    assert_eq!(mnemonic_type_from_str("Words21"), Some(MnemonicKind::Words21));
    assert_eq!(mnemonic_type_from_str("Words24"), Some(MnemonicKind::Words24));
    assert_eq!(mnemonic_type_from_str("Words13"), None);
}

#[test]
fn new_mnemonic_yields_twelve_english_words_and_a_64_byte_seed() {
    let mut mt = HandleTable::new();
    let mut st = HandleTable::new();
    let mut bt = BufferTable::new();
    let h = mnemonic_new(&mut mt, MnemonicKind::Words12, Lang::English);
    let p = phrase(&mt, h);
    let text = String::from_utf8(p.clone()).unwrap();
    assert_eq!(text.split(' ').count(), 12);
    let v = validate(&p, Lang::English);
    assert_eq!(v.is_error, 0);
    assert_eq!(v.result, 1);
    let r = seed_new(&mt, &mut st, h, &Vec::new());
    assert_eq!(r.is_error, 0);
    let parts_tmp1 = as_bytes(&st, &mut bt, r.result);
    let seed = from_raw_parts(&mut bt, parts_tmp1);
    assert_eq!(seed.len(), 64);
}

#[test]
fn from_entropy_reproduces_the_known_phrase() {
    let mut mt = HandleTable::new();
    let r = from_entropy(&mut mt, &VECTOR_ENTROPY.to_vec(), Lang::English);
    assert_eq!(r.is_error, 0);
    let p = phrase(&mt, r.result);
    assert_eq!(String::from_utf8(p).unwrap(), VECTOR_PHRASE);
}

#[test]
fn from_phrase_recovers_the_entropy() {
    let mut mt = HandleTable::new();
    let mut bt = BufferTable::new();
    let r = from_phrase(&mut mt, &VECTOR_PHRASE.as_bytes().to_vec(), Lang::English);
    assert_eq!(r.is_error, 0);
    let parts_tmp2 = entropy(&mt, &mut bt, r.result);
    let e = from_raw_parts(&mut bt, parts_tmp2);
    assert_eq!(e, VECTOR_ENTROPY.to_vec());
    assert_eq!(
        String::from_utf8(into_phrase(&mt, r.result)).unwrap(),
        VECTOR_PHRASE
    );
}

#[test]
fn validate_rejects_an_unknown_word() {
    let p = b"zzzz cash unable insane eight faith inflict route frame loud box vibrant".to_vec();
    let r = validate(&p, Lang::English);
    assert_eq!(r.is_error, 1);
    assert_eq!(r.result, 0);
    assert!(!r.error.unwrap().is_empty());
}

#[test]
fn validate_rejects_a_bad_checksum() {
    let p = b"crop cash unable insane eight faith inflict route frame loud box box".to_vec();
    let r = validate(&p, Lang::English);
    assert_eq!(r.is_error, 1);
    assert!(r.error.is_some());
}

#[test]
fn validate_rejects_malformed_text() {
    let r = validate(&vec![0xffu8, 0xfe], Lang::English);
    assert_eq!(r.is_error, 1);
    assert!(r.error.is_some());
}

#[test]
fn from_entropy_rejects_an_odd_length() {
    let mut mt = HandleTable::new();
    let r = from_entropy(&mut mt, &vec![1u8; 17], Lang::English);
    assert_eq!(r.is_error, 1);
    assert_eq!(r.result, 0);
    assert!(!r.error.unwrap().is_empty());
}

#[test]
fn identical_phrase_and_password_reproduce_identical_seeds() {
    let mut mt = HandleTable::new();
    let mut st = HandleTable::new();
    let mut bt = BufferTable::new();
    let h1 = from_phrase(&mut mt, &VECTOR_PHRASE.as_bytes().to_vec(), Lang::English).result;
    let h2 = from_phrase(&mut mt, &VECTOR_PHRASE.as_bytes().to_vec(), Lang::English).result;
    let s1 = seed_new(&mt, &mut st, h1, &Vec::new()).result;
    let s2 = seed_new(&mt, &mut st, h2, &Vec::new()).result;
    let parts_tmp3 = as_bytes(&st, &mut bt, s1);
    let b1 = from_raw_parts(&mut bt, parts_tmp3);
    let parts_tmp4 = as_bytes(&st, &mut bt, s2);
    let b2 = from_raw_parts(&mut bt, parts_tmp4);
    assert_eq!(b1, b2);
    let m = bip39::Mnemonic::from_phrase(VECTOR_PHRASE, bip39::Language::English).unwrap();
    let expected = bip39::Seed::new(&m, "");
    assert_eq!(b1, expected.as_bytes().to_vec());
}

#[test]
fn a_passphrase_changes_the_seed() {
    let mut mt = HandleTable::new();
    let mut st = HandleTable::new();
    let mut bt = BufferTable::new();
    let h = from_phrase(&mut mt, &VECTOR_PHRASE.as_bytes().to_vec(), Lang::English).result;
    let s1 = seed_new(&mt, &mut st, h, &Vec::new()).result;
    let s2 = seed_new(&mt, &mut st, h, &b"extra".to_vec()).result;
    let parts_tmp5 = as_bytes(&st, &mut bt, s1);
    let b1 = from_raw_parts(&mut bt, parts_tmp5);
    let parts_tmp6 = as_bytes(&st, &mut bt, s2);
    let b2 = from_raw_parts(&mut bt, parts_tmp6);
    assert_ne!(b1, b2);
}

#[test]
fn seed_new_rejects_a_malformed_password() {
    let mut mt = HandleTable::new();
    let mut st = HandleTable::new();
    let h = from_phrase(&mut mt, &VECTOR_PHRASE.as_bytes().to_vec(), Lang::English).result;
    let r = seed_new(&mt, &mut st, h, &vec![0xffu8, 0xc0]);
    assert_eq!(r.is_error, 1);
    assert!(r.error.is_some());
}

#[test]
fn keypair_from_seed_matches_the_delegated_derivation() {
    let mut mt = HandleTable::new();
    let mut st = HandleTable::new();
    let mut kt = HandleTable::new();
    let mut bt = BufferTable::new();
    let h = from_phrase(&mut mt, &VECTOR_PHRASE.as_bytes().to_vec(), Lang::English).result;
    let sh = seed_new(&mt, &mut st, h, &Vec::new()).result;
    let parts_tmp7 = as_bytes(&st, &mut bt, sh);
    let seed = from_raw_parts(&mut bt, parts_tmp7);
    let r = keypair_from_seed_entropy(&st, &mut kt, sh);
    assert_eq!(r.is_error, 0);
    let parts_tmp8 = to_bytes(&kt, &mut bt, r.result);
    let ours = from_raw_parts(&mut bt, parts_tmp8);
    let expected = solana_sdk::signer::keypair::keypair_from_seed(&seed).unwrap();
    assert_eq!(ours, expected.to_bytes().to_vec());
}

#[test]
fn freed_mnemonic_and_seed_handles_are_not_live() {
    let mut mt = HandleTable::new();
    let mut st = HandleTable::new();
    let h = mnemonic_new(&mut mt, MnemonicKind::Words15, Lang::English);
    let r = seed_new(&mt, &mut st, h, &Vec::new());
    free_mnemonic(&mut mt, h);
    assert!(!mt.is_live(h));
    free_seed(&mut st, r.result);
    assert!(!st.is_live(r.result));
}

#[test]
fn non_english_mnemonics_validate_in_their_language() {
    let mut mt = HandleTable::new();
    let h = mnemonic_new(&mut mt, MnemonicKind::Words24, Lang::Japanese);
    let p = phrase(&mt, h);
    assert_eq!(String::from_utf8(p.clone()).unwrap().split(' ').count(), 24);
    assert_eq!(validate(&p, Lang::Japanese).result, 1);
    assert_eq!(validate(&p, Lang::English).result, 0);
}
