//! Base58 text encoding, delegated to the `bs58` crate.
//!
//! The human-readable form of every primitive type is the base58 rendering
//! (Bitcoin alphabet) of its bytes.  Encoding and decoding are deterministic
//! functions of their input alone, so their results are named by the two
//! uninterpreted functions below and every contract speaks through them.
//! Text is carried as its bytes, exactly as it crosses the foreign boundary.

use vstd::prelude::*;

verus! {

/// The base58 rendering of a byte string.
pub uninterp spec fn b58_of(bytes: Seq<u8>) -> Seq<u8>;

/// What a base58 text decodes to: `None` exactly when some character is
/// outside the base58 alphabet.
pub uninterp spec fn b58_decoded(text: Seq<u8>) -> Option<Seq<u8>>;

/// Relies on `bs58::encode` (Bitcoin alphabet): the rendering is a function
/// of the bytes alone; decoding it yields the bytes back; 32 bytes render to
/// at most 44 characters and 64 bytes to at most 88 (the worst case is
/// ceil(8n / log2 58) characters for n bytes); the empty buffer renders
/// empty.
#[verifier::external_body]
pub(crate) fn b58_encode(bytes: &Vec<u8>) -> (r: Vec<u8>)
    ensures
        r@ == b58_of(bytes@),
        b58_decoded(r@) == Some(bytes@),
        bytes@.len() == 0 ==> r@.len() == 0,
        bytes@.len() == 32 ==> r@.len() <= 44,
        bytes@.len() == 64 ==> r@.len() <= 88,
{
    bs58::encode(bytes.as_slice()).into_vec()
}

/// Relies on `bs58::decode` (Bitcoin alphabet): the result is a function of
/// the text alone, failing exactly on characters outside the alphabet.  The
/// coder is a bijection between byte strings and alphabet strings (every
/// alphabet string is a canonical rendering), so a text that decodes is the
/// rendering of its bytes.
#[verifier::external_body]
pub(crate) fn b58_decode(text: &Vec<u8>) -> (r: Option<Vec<u8>>)
    ensures
        r matches Some(v) ==> b58_decoded(text@) == Some(v@) && b58_of(v@) == text@,
        r is None ==> b58_decoded(text@) is None,
{
    bs58::decode(text.as_slice()).into_vec().ok()
}

} // verus!
