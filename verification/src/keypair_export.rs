//! The key-pair adapter: opaque handles to Ed25519 key pairs, held as the
//! 64 bytes of the secret key followed by its derived public key.
//!
//! The derivation of the public key from the secret, the signing operation
//! and the seed-phrase key stretching are delegated behind trusted
//! declarations; the byte layout, the validation of candidate key-pair
//! bytes, and the seed rules are verified here.

use vstd::prelude::*;
use vstd::utf8::valid_utf8;
use crate::b58::{b58_of, b58_decoded, b58_encode, b58_decode};
use crate::common_types::{ResultExport, VecRawParts, BufferTable, to_raw_parts, copy_bytes,
    copy_range, bytes_eq, append_bytes, utf8_check};
use crate::handle::HandleTable;
use crate::pubkey_export::PublicKey;
use crate::signature_export::{SignatureValue, ed25519_verified};
use solana_sdk::signature::Signer;

verus! {

/// Number of bytes in a key pair: a 32-byte secret key and its 32-byte
/// public key.
pub const KEYPAIR_LENGTH: usize = 64;

/// Number of bytes in a secret key.
pub const SECRET_KEY_LENGTH: usize = 32;

/// The Ed25519 public key derived from a 32-byte secret key.
pub uninterp spec fn ed25519_pubkey(secret: Seq<u8>) -> Seq<u8>;

/// The Ed25519 signature of a message under a 32-byte secret key (Ed25519
/// signing is deterministic).
pub uninterp spec fn ed25519_sign(secret: Seq<u8>, msg: Seq<u8>) -> Seq<u8>;

/// The 64-byte seed stretched from a seed phrase and a passphrase by the
/// delegated PBKDF2 derivation.
pub uninterp spec fn stretched_seed(phrase: Seq<u8>, passphrase: Seq<u8>) -> Seq<u8>;

/// Key-pair bytes are valid when they are 64 bytes whose second half is
/// the public key derived from the first half.
pub open spec fn keypair_bytes_valid(b: Seq<u8>) -> bool {
    b.len() == 64 && b.subrange(32, 64) == ed25519_pubkey(b.subrange(0, 32))
}

/// An Ed25519 key pair held behind an opaque handle.
pub struct KeyPair {
    bytes: Vec<u8>,
}

impl View for KeyPair {
    type V = Seq<u8>;

    closed spec fn view(&self) -> Seq<u8> {
        self.bytes@
    }
}

impl KeyPair {
    #[verifier::type_invariant]
    spec fn type_inv(self) -> bool {
        keypair_bytes_valid(self.bytes@)
    }

    /// Wrap valid key-pair bytes.
    pub fn from_vec(bytes: Vec<u8>) -> (r: KeyPair)
        requires
            keypair_bytes_valid(bytes@),
        ensures
            r@ == bytes@,
    {
        KeyPair { bytes }
    }

    /// The key pair's bytes, freshly copied.
    pub fn to_vec(&self) -> (r: Vec<u8>)
        ensures
            r@ == self@,
            keypair_bytes_valid(r@),
    {
        proof {
            use_type_invariant(self);
        }
        copy_bytes(&self.bytes)
    }
}

/// Relies on `solana_sdk::signature::Keypair::new_from_array` and
/// `Signer::pubkey`: the verification key is derived from the 32 secret
/// bytes alone.
#[verifier::external_body]
fn derive_pubkey_bytes(secret: &Vec<u8>) -> (r: Vec<u8>)
    requires
        secret@.len() == 32,
    ensures
        r@ == ed25519_pubkey(secret@),
        r@.len() == 32,
{
    let arr: [u8; 32] = secret.as_slice().try_into().unwrap();
    solana_sdk::signature::Keypair::new_from_array(arr).pubkey().to_bytes().to_vec()
}

/// Relies on `solana_sdk::signature::Keypair::new` and `to_bytes`: a key
/// pair from 32 random secret bytes, laid out as the secret followed by its
/// derived public key.
#[verifier::external_body]
fn new_keypair_bytes() -> (r: Vec<u8>)
    ensures
        r@.len() == 64,
        r@.subrange(32, 64) == ed25519_pubkey(r@.subrange(0, 32)),
{
    solana_sdk::signature::Keypair::new().to_bytes().to_vec()
}

/// Relies on `solana_sdk::signature::Keypair::new_from_array` and
/// `Signer::sign_message`: the Ed25519 signature, a 64-byte deterministic
/// function of the secret key and the message; the delegated library's
/// strict verifier accepts it under the public key derived from the same
/// secret.
#[verifier::external_body]
fn sign_raw(secret: &Vec<u8>, msg: &Vec<u8>) -> (r: Vec<u8>)
    requires
        secret@.len() == 32,
    ensures
        r@ == ed25519_sign(secret@, msg@),
        r@.len() == 64,
        ed25519_verified(r@, ed25519_pubkey(secret@), msg@),
{
    let arr: [u8; 32] = secret.as_slice().try_into().unwrap();
    solana_sdk::signature::Keypair::new_from_array(arr)
        .sign_message(msg.as_slice())
        .as_array()
        .to_vec()
}

/// Relies on
/// `solana_sdk::signature::generate_seed_from_seed_phrase_and_passphrase`:
/// 64 bytes of PBKDF2-HMAC-SHA512 over the phrase with the salted
/// passphrase, a deterministic function of the two texts.
#[verifier::external_body]
fn stretch_seed_raw(phrase: &Vec<u8>, passphrase: &Vec<u8>) -> (r: Vec<u8>)
    requires
        valid_utf8(phrase@),
        valid_utf8(passphrase@),
    ensures
        r@ == stretched_seed(phrase@, passphrase@),
        r@.len() == 64,
{
    solana_sdk::signature::generate_seed_from_seed_phrase_and_passphrase(
        core::str::from_utf8(phrase.as_slice()).unwrap(),
        core::str::from_utf8(passphrase.as_slice()).unwrap(),
    )
}

/// The text round trip is lossless: the base58 rendering of valid key-pair
/// bytes (which `to_base58_string` returns, decoding back to those bytes)
/// is accepted by the parser and recovers exactly the key pair's bytes.
pub proof fn lemma_keypair_text_round_trip(kp: Seq<u8>, text: Seq<u8>)
    requires
        keypair_bytes_valid(kp),
        b58_decoded(text) == Some(kp),
    ensures
        keypair_parse_ok(text),
        b58_decoded(text)->Some_0 == kp,
{
}

fn keypair_wrong_length_text() -> (s: String)
    ensures
        s@.len() > 0,
{
    proof {
        reveal_strlit("candidate keypair byte array is the wrong length");
    }
    "candidate keypair byte array is the wrong length".to_owned()
}

fn keypair_mismatch_text() -> (s: String)
    ensures
        s@.len() > 0,
{
    proof {
        reveal_strlit("keypair bytes do not specify same pubkey as derived from their secret key");
    }
    "keypair bytes do not specify same pubkey as derived from their secret key".to_owned()
}

fn seed_too_short_text() -> (s: String)
    ensures
        s@.len() > 0,
{
    proof {
        reveal_strlit("Seed is too short");
    }
    "Seed is too short".to_owned()
}

fn keypair_utf8_text() -> (s: String)
    ensures
        s@.len() > 0,
{
    proof {
        reveal_strlit("invalid utf-8 sequence");
    }
    "invalid utf-8 sequence".to_owned()
}

/// Construct a key pair from 32 secret-key bytes followed by the expected
/// public key, as a verified validation: success exactly when the input is
/// 64 bytes whose second half equals the public key derived from the first.
pub fn from_bytes(kt: &mut HandleTable<KeyPair>, bytes: &Vec<u8>) -> (r: ResultExport<u64>)
    requires
        old(kt).can_insert(),
    ensures
        r.wf(),
        keypair_bytes_valid(bytes@) ==> r.is_error == 0 && final(kt).live(r.result)
            && final(kt)@.len() == old(kt)@.len() + 1
            && r.result == old(kt)@.len() + 1
            && final(kt).value(r.result)@ == bytes@,
        !keypair_bytes_valid(bytes@) ==> r.is_err() && r.result == 0 && final(kt)@ == old(kt)@,
        forall|h2: u64| old(kt).live(h2) ==> #[trigger] final(kt).live(h2)
            && final(kt).value(h2) == old(kt).value(h2),
{
    if bytes.len() != KEYPAIR_LENGTH {
        return ResultExport::make_err(0u64, keypair_wrong_length_text());
    }
    let secret = copy_range(bytes, 0, 32);
    let given_pubkey = copy_range(bytes, 32, 64);
    let derived = derive_pubkey_bytes(&secret);
    if !bytes_eq(&given_pubkey, &derived) {
        return ResultExport::make_err(0u64, keypair_mismatch_text());
    }
    let stored = copy_bytes(bytes);
    let h = kt.insert(KeyPair::from_vec(stored));
    ResultExport::make_ok(h)
}

/// Construct a fresh random key pair.
pub fn new_keypair(kt: &mut HandleTable<KeyPair>) -> (h: u64)
    requires
        old(kt).can_insert(),
    ensures
        h != 0,
        final(kt).live(h),
        keypair_bytes_valid(final(kt).value(h)@),
        final(kt)@.len() == old(kt)@.len() + 1,
        h == old(kt)@.len() + 1,
        forall|h2: u64| old(kt).live(h2) ==> #[trigger] final(kt).live(h2)
            && final(kt).value(h2) == old(kt).value(h2),
{
    let bytes = new_keypair_bytes();
    kt.insert(KeyPair::from_vec(bytes))
}

/// Export the key pair's bytes as an owned buffer by raw parts.
pub fn to_bytes(kt: &HandleTable<KeyPair>, bt: &mut BufferTable, h: u64) -> (parts: VecRawParts)
    requires
        kt.live(h),
        old(bt)@.len() + 1 < u64::MAX,
    ensures
        final(bt).holds(parts),
        final(bt).bytes_of(parts) == kt.value(h)@,
        parts.length == 64,
        final(bt)@.len() == old(bt)@.len() + 1,
        parts.data == old(bt)@.len() + 1,
        forall|p: VecRawParts| old(bt).holds(p) ==> #[trigger] final(bt).holds(p)
            && final(bt).bytes_of(p) == old(bt).bytes_of(p),
{
    let v = kt.get(h).to_vec();
    to_raw_parts(bt, v)
}

/// A key-pair text parses when it is wholly base58 and decodes to valid
/// key-pair bytes.
pub open spec fn keypair_parse_ok(s: Seq<u8>) -> bool {
    b58_decoded(s) matches Some(b) && keypair_bytes_valid(b)
}

/// Construct a key pair from base58 text; the text must decode to 64 bytes
/// that pass the key-pair validation.
pub fn from_base58_string(kt: &mut HandleTable<KeyPair>, s: &Vec<u8>) -> (r: ResultExport<u64>)
    requires
        old(kt).can_insert(),
    ensures
        r.wf(),
        keypair_parse_ok(s@) ==> r.is_error == 0 && final(kt).live(r.result)
            && final(kt)@.len() == old(kt)@.len() + 1
            && r.result == old(kt)@.len() + 1
            && final(kt).value(r.result)@ == b58_decoded(s@)->Some_0
            && b58_of(b58_decoded(s@)->Some_0) == s@,
        !keypair_parse_ok(s@) ==> r.is_err() && r.result == 0 && final(kt)@ == old(kt)@,
        forall|h2: u64| old(kt).live(h2) ==> #[trigger] final(kt).live(h2)
            && final(kt).value(h2) == old(kt).value(h2),
{
    match b58_decode(s) {
        None => ResultExport::make_err(0u64, keypair_wrong_length_text()),
        Some(bytes) => from_bytes(kt, &bytes),
    }
}

/// Render the key pair as base58 text: at most 88 bytes, decoding back to
/// the key pair's bytes.
pub fn to_base58_string(kt: &HandleTable<KeyPair>, h: u64) -> (r: Vec<u8>)
    requires
        kt.live(h),
    ensures
        r@ == b58_of(kt.value(h)@),
        b58_decoded(r@) == Some(kt.value(h)@),
        r@.len() <= 88,
{
    let v = kt.get(h).to_vec();
    b58_encode(&v)
}

/// Export the 32 secret-key bytes as an owned buffer by raw parts.
pub fn secret(kt: &HandleTable<KeyPair>, bt: &mut BufferTable, h: u64) -> (parts: VecRawParts)
    requires
        kt.live(h),
        old(bt)@.len() + 1 < u64::MAX,
    ensures
        final(bt).holds(parts),
        final(bt).bytes_of(parts) == kt.value(h)@.subrange(0, 32),
        parts.length == 32,
        final(bt)@.len() == old(bt)@.len() + 1,
        parts.data == old(bt)@.len() + 1,
        forall|p: VecRawParts| old(bt).holds(p) ==> #[trigger] final(bt).holds(p)
            && final(bt).bytes_of(p) == old(bt).bytes_of(p),
{
    let v = kt.get(h).to_vec();
    let s = copy_range(&v, 0, 32);
    to_raw_parts(bt, s)
}

/// Extract the public key as a fresh public-key handle: the second half of
/// the key pair's bytes, which is the key derived from the secret half.
pub fn pubkey(kt: &HandleTable<KeyPair>, pt: &mut HandleTable<PublicKey>, h: u64) -> (ph: u64)
    requires
        kt.live(h),
        old(pt).can_insert(),
    ensures
        ph != 0,
        final(pt).live(ph),
        final(pt)@.len() == old(pt)@.len() + 1,
        ph == old(pt)@.len() + 1,
        final(pt).value(ph)@ == kt.value(h)@.subrange(32, 64),
        final(pt).value(ph)@ == ed25519_pubkey(kt.value(h)@.subrange(0, 32)),
        forall|h2: u64| old(pt).live(h2) ==> #[trigger] final(pt).live(h2)
            && final(pt).value(h2) == old(pt).value(h2),
{
    let v = kt.get(h).to_vec();
    let pk = copy_range(&v, 32, 64);
    pt.insert(PublicKey::from_vec(pk))
}

/// Sign a message with the key pair's secret key, returning a fresh
/// signature handle to the deterministic Ed25519 signature.
pub fn sign_message(
    kt: &HandleTable<KeyPair>,
    st: &mut HandleTable<SignatureValue>,
    h: u64,
    message: &Vec<u8>,
) -> (sh: u64)
    requires
        kt.live(h),
        old(st).can_insert(),
    ensures
        sh != 0,
        final(st).live(sh),
        final(st)@.len() == old(st)@.len() + 1,
        sh == old(st)@.len() + 1,
        final(st).value(sh)@ == ed25519_sign(kt.value(h)@.subrange(0, 32), message@),
        final(st).value(sh)@.len() == 64,
        ed25519_verified(final(st).value(sh)@, kt.value(h)@.subrange(32, 64), message@),
        forall|h2: u64| old(st).live(h2) ==> #[trigger] final(st).live(h2)
            && final(st).value(h2) == old(st).value(h2),
{
    let v = kt.get(h).to_vec();
    let s = copy_range(&v, 0, 32);
    let sig = sign_raw(&s, message);
    st.insert(SignatureValue::from_vec(sig))
}

/// Whether the key pair requires user interaction to sign: the delegated
/// flag is constantly false for an in-memory key pair, passed on unchanged.
pub fn is_interactive(kt: &HandleTable<KeyPair>, h: u64) -> (r: u8)
    requires
        kt.live(h),
    ensures
        r == 0,
{
    0
}

/// Construct the key-pair bytes a seed determines: the first 32 seed bytes
/// are the secret key; fewer than 32 seed bytes is a reported error.
pub fn keypair_from_seed_bytes(seed: &Vec<u8>) -> (r: Result<Vec<u8>, String>)
    ensures
        seed@.len() >= 32 ==> (r matches Ok(b) && b@ == seed@.subrange(0, 32) + ed25519_pubkey(
            seed@.subrange(0, 32),
        ) && keypair_bytes_valid(b@)),
        seed@.len() < 32 ==> (r matches Err(msg) && msg@.len() > 0),
{
    if seed.len() < SECRET_KEY_LENGTH {
        return Err(seed_too_short_text());
    }
    let s = copy_range(seed, 0, 32);
    let pk = derive_pubkey_bytes(&s);
    let mut b = s;
    append_bytes(&mut b, &pk);
    proof {
        assert(b@.subrange(0, 32) =~= seed@.subrange(0, 32));
        assert(b@.subrange(32, 64) =~= ed25519_pubkey(seed@.subrange(0, 32)));
    }
    Ok(b)
}

/// Construct a key pair from the entropy of a derived seed (a seed is
/// always 64 bytes, so this always succeeds).
pub fn keypair_from_seed_entropy(
    kt: &mut HandleTable<KeyPair>,
    seed_bytes: &Vec<u8>,
) -> (r: ResultExport<u64>)
    requires
        old(kt).can_insert(),
    ensures
        r.wf(),
        seed_bytes@.len() >= 32 ==> r.is_error == 0 && final(kt).live(r.result)
            && final(kt)@.len() == old(kt)@.len() + 1
            && r.result == old(kt)@.len() + 1
            && final(kt).value(r.result)@ == seed_bytes@.subrange(0, 32) + ed25519_pubkey(
                seed_bytes@.subrange(0, 32),
            ),
        seed_bytes@.len() < 32 ==> r.is_err() && r.result == 0 && final(kt)@ == old(kt)@,
        forall|h2: u64| old(kt).live(h2) ==> #[trigger] final(kt).live(h2)
            && final(kt).value(h2) == old(kt).value(h2),
{
    match keypair_from_seed_bytes(seed_bytes) {
        Ok(b) => {
            let h = kt.insert(KeyPair::from_vec(b));
            ResultExport::make_ok(h)
        },
        Err(msg) => ResultExport::make_err(0u64, msg),
    }
}

/// Construct a key pair from a seed phrase and a passphrase: the phrase is
/// stretched to a 64-byte seed, whose first half becomes the secret key.
/// Malformed text is a checked error.
pub fn from_seed_phrase_and_passphrase(
    kt: &mut HandleTable<KeyPair>,
    seed_phrase: &Vec<u8>,
    passphrase: &Vec<u8>,
) -> (r: ResultExport<u64>)
    requires
        old(kt).can_insert(),
    ensures
        r.wf(),
        valid_utf8(seed_phrase@) && valid_utf8(passphrase@) ==> r.is_error == 0
            && final(kt).live(r.result)
            && final(kt)@.len() == old(kt)@.len() + 1
            && r.result == old(kt)@.len() + 1
            && final(kt).value(r.result)@ == stretched_seed(seed_phrase@, passphrase@).subrange(
                0,
                32,
            ) + ed25519_pubkey(stretched_seed(seed_phrase@, passphrase@).subrange(0, 32)),
        !(valid_utf8(seed_phrase@) && valid_utf8(passphrase@)) ==> r.is_err() && r.result == 0
            && final(kt)@ == old(kt)@,
        forall|h2: u64| old(kt).live(h2) ==> #[trigger] final(kt).live(h2)
            && final(kt).value(h2) == old(kt).value(h2),
{
    if !utf8_check(seed_phrase) || !utf8_check(passphrase) {
        return ResultExport::make_err(0u64, keypair_utf8_text());
    }
    let seed = stretch_seed_raw(seed_phrase, passphrase);
    keypair_from_seed_entropy(kt, &seed)
}

/// Destroy a key-pair handle.  The null handle is a no-op; a live handle
/// becomes freed; a stale handle is refused and nothing changes.
pub fn free_keypair(kt: &mut HandleTable<KeyPair>, h: u64)
    ensures
        h == 0 ==> final(kt)@ == old(kt)@,
        h != 0 && old(kt).live(h) ==> !final(kt).live(h),
        h != 0 && !old(kt).live(h) ==> final(kt)@ == old(kt)@,
        forall|h2: u64| h2 != h && old(kt).live(h2) ==> #[trigger] final(kt).live(h2)
            && final(kt).value(h2) == old(kt).value(h2),
{
    let _ = kt.free(h);
}

} // verus!
