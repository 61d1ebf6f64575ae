//! The hash adapter: opaque handles to fixed 32-byte hash values, with raw
//! bytes in and out and the base58 text form.

use vstd::prelude::*;
use crate::b58::{b58_of, b58_decoded, b58_encode, b58_decode};
use crate::common_types::{ResultExport, VecRawParts, BufferTable, to_raw_parts, copy_bytes};
use crate::handle::HandleTable;

verus! {

/// Number of bytes in a hash.
pub const HASH_BYTES: usize = 32;

/// A 32-byte hash value held behind an opaque handle.
pub struct HashValue {
    bytes: Vec<u8>,
}

impl View for HashValue {
    type V = Seq<u8>;

    closed spec fn view(&self) -> Seq<u8> {
        self.bytes@
    }
}

impl HashValue {
    #[verifier::type_invariant]
    spec fn type_inv(self) -> bool {
        self.bytes@.len() == 32
    }

    /// Wrap 32 bytes as a hash value.
    pub fn from_vec(bytes: Vec<u8>) -> (r: HashValue)
        requires
            bytes@.len() == 32,
        ensures
            r@ == bytes@,
    {
        HashValue { bytes }
    }

    /// The hash's bytes, freshly copied.
    pub fn to_vec(&self) -> (r: Vec<u8>)
        ensures
            r@ == self@,
            r@.len() == 32,
    {
        proof {
            use_type_invariant(self);
        }
        copy_bytes(&self.bytes)
    }
}

/// A hash as a fixed-size byte array, passed by value.
pub struct HashResult {
    pub hash: [u8; 32],
}

/// A hash text parses when it is at most 44 bytes, every character is
/// base58, and the decoded value is exactly 32 bytes.
pub open spec fn hash_parse_ok(s: Seq<u8>) -> bool {
    &&& s.len() <= 44
    &&& b58_decoded(s) matches Some(b) && b.len() == 32
}

/// The bytes a well-formed hash text decodes to.
pub open spec fn hash_parsed(s: Seq<u8>) -> Seq<u8> {
    b58_decoded(s)->Some_0
}

/// Relies on `solana_hash::Hash::new_unique`: a fresh 32-byte hash for
/// tests; the value depends on a process-wide counter, so only its length
/// is stated.
#[verifier::external_body]
fn unique_hash_bytes() -> (r: Vec<u8>)
    ensures
        r@.len() == 32,
{
    solana_hash::Hash::new_unique().to_bytes().to_vec()
}

/// The text round trip is lossless: the base58 rendering of a 32-byte hash
/// (which `hash_to_string` returns, at most 44 bytes and decoding back to
/// the hash) is accepted by the parser and recovers exactly the hash's
/// bytes.
pub proof fn lemma_hash_text_round_trip(hash: Seq<u8>, text: Seq<u8>)
    requires
        hash.len() == 32,
        text.len() <= 44,
        b58_decoded(text) == Some(hash),
    ensures
        hash_parse_ok(text),
        hash_parsed(text) == hash,
{
}

fn hash_wrong_size_text() -> (s: String)
    ensures
        s@.len() > 0,
{
    proof {
        reveal_strlit("string decoded to wrong size for hash");
    }
    "string decoded to wrong size for hash".to_owned()
}

fn hash_invalid_text() -> (s: String)
    ensures
        s@.len() > 0,
{
    proof {
        reveal_strlit("failed to decoded string to hash");
    }
    "failed to decoded string to hash".to_owned()
}

/// Construct a hash from raw bytes; a length other than 32 is a caller-side
/// contract violation, excluded here and asserted at the boundary.
pub fn hash_new(ht: &mut HandleTable<HashValue>, bytes: Vec<u8>) -> (h: u64)
    requires
        bytes@.len() == 32,
        old(ht).can_insert(),
    ensures
        h != 0,
        final(ht).live(h),
        final(ht).value(h)@ == bytes@,
        final(ht)@.len() == old(ht)@.len() + 1,
        h == old(ht)@.len() + 1,
        forall|h2: u64| old(ht).live(h2) ==> #[trigger] final(ht).live(h2)
            && final(ht).value(h2) == old(ht).value(h2),
{
    ht.insert(HashValue::from_vec(bytes))
}

/// Construct a hash from a fixed-size array's bytes.
pub fn hash_new_from_array(ht: &mut HandleTable<HashValue>, bytes: Vec<u8>) -> (h: u64)
    requires
        bytes@.len() == 32,
        old(ht).can_insert(),
    ensures
        h != 0,
        final(ht).live(h),
        final(ht).value(h)@ == bytes@,
        final(ht)@.len() == old(ht)@.len() + 1,
        h == old(ht)@.len() + 1,
        forall|h2: u64| old(ht).live(h2) ==> #[trigger] final(ht).live(h2)
            && final(ht).value(h2) == old(ht).value(h2),
{
    ht.insert(HashValue::from_vec(bytes))
}

/// Construct a fresh unique hash (for tests and benchmarks).
pub fn hash_new_unique(ht: &mut HandleTable<HashValue>) -> (h: u64)
    requires
        old(ht).can_insert(),
    ensures
        h != 0,
        final(ht).live(h),
        final(ht).value(h)@.len() == 32,
        final(ht)@.len() == old(ht)@.len() + 1,
        h == old(ht)@.len() + 1,
        forall|h2: u64| old(ht).live(h2) ==> #[trigger] final(ht).live(h2)
            && final(ht).value(h2) == old(ht).value(h2),
{
    let bytes = unique_hash_bytes();
    ht.insert(HashValue::from_vec(bytes))
}

/// Construct a hash from base58 text.  Success exactly when the text is at
/// most 44 bytes, wholly base58, and decodes to 32 bytes; otherwise a
/// failure envelope with non-empty error text and the null handle.
pub fn hash_from_string(ht: &mut HandleTable<HashValue>, s: &Vec<u8>) -> (r: ResultExport<u64>)
    requires
        old(ht).can_insert(),
    ensures
        r.wf(),
        hash_parse_ok(s@) ==> r.is_error == 0 && final(ht).live(r.result)
            && final(ht)@.len() == old(ht)@.len() + 1
            && r.result == old(ht)@.len() + 1
            && final(ht).value(r.result)@ == hash_parsed(s@)
            && b58_of(hash_parsed(s@)) == s@,
        !hash_parse_ok(s@) ==> r.is_err() && r.result == 0 && final(ht)@ == old(ht)@,
        forall|h2: u64| old(ht).live(h2) ==> #[trigger] final(ht).live(h2)
            && final(ht).value(h2) == old(ht).value(h2),
{
    if s.len() > 44 {
        return ResultExport::make_err(0u64, hash_wrong_size_text());
    }
    match b58_decode(s) {
        None => ResultExport::make_err(0u64, hash_invalid_text()),
        Some(bytes) => {
            if bytes.len() == HASH_BYTES {
                let h = ht.insert(HashValue::from_vec(bytes));
                ResultExport::make_ok(h)
            } else {
                ResultExport::make_err(0u64, hash_wrong_size_text())
            }
        },
    }
}

/// Export the hash's bytes as an owned buffer by raw parts.
pub fn hash_to_bytes(ht: &HandleTable<HashValue>, bt: &mut BufferTable, h: u64) -> (parts:
    VecRawParts)
    requires
        ht.live(h),
        old(bt)@.len() + 1 < u64::MAX,
    ensures
        final(bt).holds(parts),
        final(bt).bytes_of(parts) == ht.value(h)@,
        parts.length == 32,
        final(bt)@.len() == old(bt)@.len() + 1,
        parts.data == old(bt)@.len() + 1,
        forall|p: VecRawParts| old(bt).holds(p) ==> #[trigger] final(bt).holds(p)
            && final(bt).bytes_of(p) == old(bt).bytes_of(p),
{
    let v = ht.get(h).to_vec();
    to_raw_parts(bt, v)
}

/// Export the hash as a fixed-size array, passed by value.
pub fn hash_to_result(ht: &HandleTable<HashValue>, h: u64) -> (r: HashResult)
    requires
        ht.live(h),
    ensures
        r.hash@ == ht.value(h)@,
{
    let v = ht.get(h).to_vec();
    let mut arr: [u8; 32] = [0u8; 32];
    let mut i: usize = 0;
    while i < 32
        invariant
            i <= 32,
            v@.len() == 32,
            v@ == ht.value(h)@,
            forall|j: int| 0 <= j < i ==> arr@[j] == v@[j],
        decreases 32 - i,
    {
        arr[i] = v[i];
        i = i + 1;
    }
    proof {
        assert(arr@ =~= ht.value(h)@);
    }
    HashResult { hash: arr }
}

/// Render the hash as base58 text: at most 44 bytes, decoding back to the
/// hash's bytes.
pub fn hash_to_string(ht: &HandleTable<HashValue>, h: u64) -> (r: Vec<u8>)
    requires
        ht.live(h),
    ensures
        r@ == b58_of(ht.value(h)@),
        b58_decoded(r@) == Some(ht.value(h)@),
        r@.len() <= 44,
{
    let v = ht.get(h).to_vec();
    b58_encode(&v)
}

/// Destroy a hash handle.  The null handle is a no-op; a live handle
/// becomes freed; a stale handle is refused and nothing changes.
pub fn free_hash(ht: &mut HandleTable<HashValue>, h: u64)
    ensures
        h == 0 ==> final(ht)@ == old(ht)@,
        h != 0 && old(ht).live(h) ==> !final(ht).live(h),
        h != 0 && !old(ht).live(h) ==> final(ht)@ == old(ht)@,
        forall|h2: u64| h2 != h && old(ht).live(h2) ==> #[trigger] final(ht).live(h2)
            && final(ht).value(h2) == old(ht).value(h2),
{
    let _ = ht.free(h);
}

} // verus!
