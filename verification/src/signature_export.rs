//! The signature adapter: opaque handles to 64-byte Ed25519 signatures,
//! verification against a public key and a message, and the base58 text
//! form.

use vstd::prelude::*;
use crate::b58::{b58_of, b58_decoded, b58_encode, b58_decode};
use crate::common_types::{ResultExport, copy_bytes};
use crate::handle::HandleTable;

verus! {

/// Number of bytes in a signature.
pub const SIGNATURE_BYTES: usize = 64;

/// Number of bytes in a public key.
pub const PUBLIC_KEY_LENGTH: usize = 32;

/// Maximum byte length of a base58-encoded signature.
pub const MAX_BASE58_SIGNATURE_LEN: usize = 88;

/// A 64-byte signature held behind an opaque handle.
pub struct SignatureValue {
    bytes: Vec<u8>,
}

impl View for SignatureValue {
    type V = Seq<u8>;

    closed spec fn view(&self) -> Seq<u8> {
        self.bytes@
    }
}

impl SignatureValue {
    #[verifier::type_invariant]
    spec fn type_inv(self) -> bool {
        self.bytes@.len() == 64
    }

    /// Wrap 64 bytes as a signature.
    pub fn from_vec(bytes: Vec<u8>) -> (r: SignatureValue)
        requires
            bytes@.len() == 64,
        ensures
            r@ == bytes@,
    {
        SignatureValue { bytes }
    }

    /// The signature's bytes, freshly copied.
    pub fn to_vec(&self) -> (r: Vec<u8>)
        ensures
            r@ == self@,
            r@.len() == 64,
    {
        proof {
            use_type_invariant(self);
        }
        copy_bytes(&self.bytes)
    }
}

/// Whether a 64-byte signature verifies a message under a public key, by
/// the strict Ed25519 rules of the delegated library: `false` whenever the
/// public key bytes cannot be parsed as a key.
pub uninterp spec fn ed25519_verified(sig: Seq<u8>, pubkey: Seq<u8>, msg: Seq<u8>) -> bool;

/// Relies on `solana_sdk::signature::Signature::verify`: the outcome is a
/// function of the signature, public-key and message bytes alone, and is
/// `false` when the public key cannot be parsed.
#[verifier::external_body]
fn verify_raw(sig: &Vec<u8>, pubkey_bytes: &Vec<u8>, msg: &Vec<u8>) -> (r: bool)
    requires
        sig@.len() == 64,
    ensures
        r == ed25519_verified(sig@, pubkey_bytes@, msg@),
        pubkey_bytes@.len() != 32 ==> !r,
{
    let arr: [u8; 64] = sig.as_slice().try_into().unwrap();
    solana_sdk::signature::Signature::from(arr).verify(pubkey_bytes.as_slice(), msg.as_slice())
}

/// Relies on `solana_sdk::signature::Signature::new_unique`: 64 random
/// bytes, not produced by signing anything, so only the length is stated.
#[verifier::external_body]
fn unique_signature_bytes() -> (r: Vec<u8>)
    ensures
        r@.len() == 64,
{
    solana_sdk::signature::Signature::new_unique().as_array().to_vec()
}

/// A signature text parses when it is at most 88 bytes, every character is
/// base58, and the decoded value is exactly 64 bytes.
pub open spec fn signature_parse_ok(s: Seq<u8>) -> bool {
    &&& s.len() <= 88
    &&& b58_decoded(s) matches Some(b) && b.len() == 64
}

/// The bytes a well-formed signature text decodes to.
pub open spec fn signature_parsed(s: Seq<u8>) -> Seq<u8> {
    b58_decoded(s)->Some_0
}

/// The text round trip is lossless: the base58 rendering of a 64-byte
/// signature (which `signature_to_str` returns, at most 88 bytes and
/// decoding back to the signature) is accepted by the parser and recovers
/// exactly the signature's bytes.
pub proof fn lemma_signature_text_round_trip(sig: Seq<u8>, text: Seq<u8>)
    requires
        sig.len() == 64,
        text.len() <= 88,
        b58_decoded(text) == Some(sig),
    ensures
        signature_parse_ok(text),
        signature_parsed(text) == sig,
{
}

fn sig_wrong_size_text() -> (s: String)
    ensures
        s@.len() > 0,
{
    proof {
        reveal_strlit("string decoded to wrong size for signature");
    }
    "string decoded to wrong size for signature".to_owned()
}

fn sig_invalid_text() -> (s: String)
    ensures
        s@.len() > 0,
{
    proof {
        reveal_strlit("failed to decode string to signature");
    }
    "failed to decode string to signature".to_owned()
}

/// Construct a signature from raw bytes; a length other than 64 is a
/// caller-side contract violation, excluded here and asserted at the
/// boundary.
pub fn from_slice(st: &mut HandleTable<SignatureValue>, bytes: Vec<u8>) -> (h: u64)
    requires
        bytes@.len() == 64,
        old(st).can_insert(),
    ensures
        h != 0,
        final(st).live(h),
        final(st).value(h)@ == bytes@,
        final(st)@.len() == old(st)@.len() + 1,
        h == old(st)@.len() + 1,
        forall|h2: u64| old(st).live(h2) ==> #[trigger] final(st).live(h2)
            && final(st).value(h2) == old(st).value(h2),
{
    st.insert(SignatureValue::from_vec(bytes))
}

/// Construct a fresh random signature (for tests only; it signs nothing).
pub fn new_unique(st: &mut HandleTable<SignatureValue>) -> (h: u64)
    requires
        old(st).can_insert(),
    ensures
        h != 0,
        final(st).live(h),
        final(st).value(h)@.len() == 64,
        final(st)@.len() == old(st)@.len() + 1,
        h == old(st)@.len() + 1,
        forall|h2: u64| old(st).live(h2) ==> #[trigger] final(st).live(h2)
            && final(st).value(h2) == old(st).value(h2),
{
    let bytes = unique_signature_bytes();
    st.insert(SignatureValue::from_vec(bytes))
}

/// Verify the signature against a public key and a message: 1 exactly when
/// the delegated strict verification accepts.
pub fn verify(
    st: &HandleTable<SignatureValue>,
    h: u64,
    pubkey_bytes: &Vec<u8>,
    message_bytes: &Vec<u8>,
) -> (r: u8)
    requires
        st.live(h),
    ensures
        r == 1 <==> ed25519_verified(st.value(h)@, pubkey_bytes@, message_bytes@),
        pubkey_bytes@.len() != 32 ==> r == 0,
        r == 0 || r == 1,
{
    let sig = st.get(h).to_vec();
    if verify_raw(&sig, pubkey_bytes, message_bytes) {
        1
    } else {
        0
    }
}

/// Construct a signature from base58 text.  Success exactly when the text
/// is at most 88 bytes, wholly base58, and decodes to 64 bytes; otherwise a
/// failure envelope with non-empty error text and the null handle.
pub fn signature_from_str(st: &mut HandleTable<SignatureValue>, s: &Vec<u8>) -> (r: ResultExport<
    u64,
>)
    requires
        old(st).can_insert(),
    ensures
        r.wf(),
        signature_parse_ok(s@) ==> r.is_error == 0 && final(st).live(r.result)
            && final(st)@.len() == old(st)@.len() + 1
            && r.result == old(st)@.len() + 1
            && final(st).value(r.result)@ == signature_parsed(s@)
            && b58_of(signature_parsed(s@)) == s@,
        !signature_parse_ok(s@) ==> r.is_err() && r.result == 0 && final(st)@ == old(st)@,
        forall|h2: u64| old(st).live(h2) ==> #[trigger] final(st).live(h2)
            && final(st).value(h2) == old(st).value(h2),
{
    if s.len() > MAX_BASE58_SIGNATURE_LEN {
        return ResultExport::make_err(0u64, sig_wrong_size_text());
    }
    match b58_decode(s) {
        None => ResultExport::make_err(0u64, sig_invalid_text()),
        Some(bytes) => {
            if bytes.len() == SIGNATURE_BYTES {
                let h = st.insert(SignatureValue::from_vec(bytes));
                ResultExport::make_ok(h)
            } else {
                ResultExport::make_err(0u64, sig_wrong_size_text())
            }
        },
    }
}

/// Render the signature as base58 text: at most 88 bytes, decoding back to
/// the signature's bytes.
pub fn signature_to_str(st: &HandleTable<SignatureValue>, h: u64) -> (r: Vec<u8>)
    requires
        st.live(h),
    ensures
        r@ == b58_of(st.value(h)@),
        b58_decoded(r@) == Some(st.value(h)@),
        r@.len() <= 88,
{
    let v = st.get(h).to_vec();
    b58_encode(&v)
}

/// Destroy a signature handle.  The null handle is a no-op; a live handle
/// becomes freed; a stale handle is refused and nothing changes.
pub fn free_signature(st: &mut HandleTable<SignatureValue>, h: u64)
    ensures
        h == 0 ==> final(st)@ == old(st)@,
        h != 0 && old(st).live(h) ==> !final(st).live(h),
        h != 0 && !old(st).live(h) ==> final(st)@ == old(st)@,
        forall|h2: u64| h2 != h && old(st).live(h2) ==> #[trigger] final(st).live(h2)
            && final(st).value(h2) == old(st).value(h2),
{
    let _ = st.free(h);
}

} // verus!
