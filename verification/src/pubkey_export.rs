//! The public-key adapter: opaque handles to 32-byte public keys, the base58
//! text form, and the program-derived-address search.
//!
//! Computation on curve points and hashes is delegated to the outside
//! library behind trusted declarations; everything that decides, checks
//! lengths, assembles hash preimages or iterates bump seeds is verified
//! here.

use vstd::prelude::*;
use vstd::pervasive::VecAdditionalExecFns;
use crate::b58::{b58_of, b58_decoded, b58_encode, b58_decode};
use crate::common_types::{ResultExport, VecRawParts, BufferTable, to_raw_parts, copy_bytes,
    append_bytes};
use crate::handle::HandleTable;

verus! {

/// Number of bytes in a public key.
pub const PUBKEY_BYTES: usize = 32;

/// Maximum byte length of a derivation seed.
pub const MAX_SEED_LEN: usize = 32;

/// Maximum number of seeds in a derivation.
pub const MAX_SEEDS: usize = 16;

/// Maximum byte length of a base58-encoded public key.
pub const MAX_BASE58_LEN: usize = 44;

/// A 32-byte public key held behind an opaque handle.
pub struct PublicKey {
    bytes: Vec<u8>,
}

impl View for PublicKey {
    type V = Seq<u8>;

    closed spec fn view(&self) -> Seq<u8> {
        self.bytes@
    }
}

impl PublicKey {
    #[verifier::type_invariant]
    spec fn type_inv(self) -> bool {
        self.bytes@.len() == 32
    }

    /// Wrap 32 bytes as a public key.
    pub fn from_vec(bytes: Vec<u8>) -> (r: PublicKey)
        requires
            bytes@.len() == 32,
        ensures
            r@ == bytes@,
    {
        PublicKey { bytes }
    }

    /// The key's bytes, freshly copied.
    pub fn to_vec(&self) -> (r: Vec<u8>)
        ensures
            r@ == self@,
            r@.len() == 32,
    {
        proof {
            use_type_invariant(self);
        }
        copy_bytes(&self.bytes)
    }
}

/// The SHA-256 digest of a byte string.
pub uninterp spec fn sha256_of(data: Seq<u8>) -> Seq<u8>;

/// Whether 32 bytes are a valid point of the Ed25519 curve subgroup (other
/// lengths never are).
pub uninterp spec fn on_curve(bytes: Seq<u8>) -> bool;

/// Relies on `solana_sdk::hash::hashv`: the SHA-256 digest of the
/// concatenation of the given slices, a 32-byte function of the data alone.
#[verifier::external_body]
fn sha256(data: &Vec<u8>) -> (r: Vec<u8>)
    ensures
        r@ == sha256_of(data@),
        r@.len() == 32,
{
    solana_sdk::hash::hashv(&[data.as_slice()]).to_bytes().to_vec()
}

/// Relies on `solana_sdk::pubkey::bytes_are_curve_point`: whether the bytes
/// decompress to a valid Ed25519 curve point, a function of the bytes alone.
#[verifier::external_body]
fn curve_point_check(bytes: &Vec<u8>) -> (r: bool)
    ensures
        r == on_curve(bytes@),
{
    solana_sdk::pubkey::bytes_are_curve_point(bytes.as_slice())
}

/// Relies on `solana_sdk::pubkey::Pubkey::new_unique`: a fresh 32-byte key
/// for tests; the value depends on a process-wide counter, so only its
/// length is stated.
#[verifier::external_body]
fn unique_pubkey_bytes() -> (r: Vec<u8>)
    ensures
        r@.len() == 32,
{
    solana_sdk::pubkey::Pubkey::new_unique().to_bytes().to_vec()
}

/// A public-key text parses when it is at most 44 bytes, every character is
/// base58, and the decoded value is exactly 32 bytes.
pub open spec fn pubkey_parse_ok(s: Seq<u8>) -> bool {
    &&& s.len() <= 44
    &&& b58_decoded(s) matches Some(b) && b.len() == 32
}

/// The bytes a well-formed public-key text decodes to.
pub open spec fn pubkey_parsed(s: Seq<u8>) -> Seq<u8> {
    b58_decoded(s)->Some_0
}

/// The text round trip is lossless: the base58 rendering of a 32-byte key
/// (which `pubkey_to_base58` returns, at most 44 bytes and decoding back to
/// the key) is accepted by the parser and recovers exactly the key's bytes.
pub proof fn lemma_pubkey_text_round_trip(key: Seq<u8>, text: Seq<u8>)
    requires
        key.len() == 32,
        text.len() <= 44,
        b58_decoded(text) == Some(key),
    ensures
        pubkey_parse_ok(text),
        pubkey_parsed(text) == key,
{
}

fn wrong_size_text() -> (s: String)
    ensures
        s@.len() > 0,
{
    proof {
        reveal_strlit("String is the wrong size");
    }
    "String is the wrong size".to_owned()
}

fn invalid_b58_text() -> (s: String)
    ensures
        s@.len() > 0,
{
    proof {
        reveal_strlit("Invalid Base58 string");
    }
    "Invalid Base58 string".to_owned()
}

/// Construct a public key from raw bytes; a length other than 32 is a
/// caller-side contract violation, excluded here and asserted at the
/// boundary.
pub fn pubkey_new_from_array(pt: &mut HandleTable<PublicKey>, bytes: Vec<u8>) -> (h: u64)
    requires
        bytes@.len() == 32,
        old(pt).can_insert(),
    ensures
        h != 0,
        final(pt).live(h),
        final(pt).value(h)@ == bytes@,
        final(pt)@ == old(pt)@.push(Some(final(pt).value(h))),
        h == old(pt)@.len() + 1,
        forall|h2: u64| old(pt).live(h2) ==> #[trigger] final(pt).live(h2)
            && final(pt).value(h2) == old(pt).value(h2),
{
    pt.insert(PublicKey::from_vec(bytes))
}

/// Construct a fresh unique public key (for tests and benchmarks).
pub fn pubkey_new_unique(pt: &mut HandleTable<PublicKey>) -> (h: u64)
    requires
        old(pt).can_insert(),
    ensures
        h != 0,
        final(pt).live(h),
        final(pt).value(h)@.len() == 32,
        final(pt)@.len() == old(pt)@.len() + 1,
        h == old(pt)@.len() + 1,
        forall|h2: u64| old(pt).live(h2) ==> #[trigger] final(pt).live(h2)
            && final(pt).value(h2) == old(pt).value(h2),
{
    let bytes = unique_pubkey_bytes();
    pt.insert(PublicKey::from_vec(bytes))
}

/// Construct a public key from base58 text.  Success exactly when the text
/// is at most 44 bytes, wholly base58, and decodes to 32 bytes; otherwise a
/// failure envelope with non-empty error text and the null handle as
/// payload.
pub fn pubkey_from_str(pt: &mut HandleTable<PublicKey>, s: &Vec<u8>) -> (r: ResultExport<u64>)
    requires
        old(pt).can_insert(),
    ensures
        r.wf(),
        pubkey_parse_ok(s@) ==> r.is_error == 0
            && final(pt).live(r.result)
            && final(pt)@.len() == old(pt)@.len() + 1
            && r.result == old(pt)@.len() + 1
            && final(pt).value(r.result)@ == pubkey_parsed(s@)
            && b58_of(pubkey_parsed(s@)) == s@,
        !pubkey_parse_ok(s@) ==> r.is_err() && r.result == 0 && final(pt)@ == old(pt)@,
        forall|h2: u64| old(pt).live(h2) ==> #[trigger] final(pt).live(h2)
            && final(pt).value(h2) == old(pt).value(h2),
{
    if s.len() > MAX_BASE58_LEN {
        return ResultExport::make_err(0u64, wrong_size_text());
    }
    match b58_decode(s) {
        None => ResultExport::make_err(0u64, invalid_b58_text()),
        Some(bytes) => {
            if bytes.len() == PUBKEY_BYTES {
                let h = pt.insert(PublicKey::from_vec(bytes));
                ResultExport::make_ok(h)
            } else {
                ResultExport::make_err(0u64, wrong_size_text())
            }
        },
    }
}

/// Export the key's bytes as an owned buffer by raw parts.
pub fn pubkey_to_bytes(pt: &HandleTable<PublicKey>, bt: &mut BufferTable, h: u64) -> (parts:
    VecRawParts)
    requires
        pt.live(h),
        old(bt)@.len() + 1 < u64::MAX,
    ensures
        final(bt).holds(parts),
        final(bt).bytes_of(parts) == pt.value(h)@,
        parts.length == 32,
        final(bt)@.len() == old(bt)@.len() + 1,
        parts.data == old(bt)@.len() + 1,
        forall|p: VecRawParts| old(bt).holds(p) ==> #[trigger] final(bt).holds(p)
            && final(bt).bytes_of(p) == old(bt).bytes_of(p),
{
    let v = pt.get(h).to_vec();
    to_raw_parts(bt, v)
}

/// Render the key as base58 text: at most 44 bytes, decoding back to the
/// key's bytes.
pub fn pubkey_to_base58(pt: &HandleTable<PublicKey>, h: u64) -> (r: Vec<u8>)
    requires
        pt.live(h),
    ensures
        r@ == b58_of(pt.value(h)@),
        b58_decoded(r@) == Some(pt.value(h)@),
        r@.len() <= 44,
{
    let v = pt.get(h).to_vec();
    b58_encode(&v)
}

/// Whether the key lies on the Ed25519 curve: 1 for yes, 0 for no.
pub fn pubkey_is_on_curve(pt: &HandleTable<PublicKey>, h: u64) -> (r: u8)
    requires
        pt.live(h),
    ensures
        r == 1 <==> on_curve(pt.value(h)@),
        r == 0 || r == 1,
{
    let v = pt.get(h).to_vec();
    if curve_point_check(&v) {
        1
    } else {
        0
    }
}

/// A derived key together with the bump seed that produced it; the null
/// handle 0 stands for "no viable address".
pub struct ProgramAddress {
    pub pubkey: u64,
    pub bump_seed: u8,
}

/// A failure of program-address derivation: a seed (or the seed list) too
/// long, or seeds whose derived point lies on the curve.
pub enum PdaError {
    MaxSeedLengthExceeded,
    InvalidSeeds,
}

/// The marker the derivation appends to its hash preimage, the bytes of
/// "ProgramDerivedAddress".
pub open spec fn pda_marker() -> Seq<u8> {
    seq![
        0x50u8, 0x72u8, 0x6fu8, 0x67u8, 0x72u8, 0x61u8, 0x6du8, 0x44u8, 0x65u8, 0x72u8, 0x69u8,
        0x76u8, 0x65u8, 0x64u8, 0x41u8, 0x64u8, 0x64u8, 0x72u8, 0x65u8, 0x73u8, 0x73u8,
    ]
}

fn pda_marker_bytes() -> (r: Vec<u8>)
    ensures
        r@ == pda_marker(),
{
    let mut v: Vec<u8> = Vec::new();
    v.push(0x50u8);
    v.push(0x72u8);
    v.push(0x6fu8);
    v.push(0x67u8);
    v.push(0x72u8);
    v.push(0x61u8);
    v.push(0x6du8);
    v.push(0x44u8);
    v.push(0x65u8);
    v.push(0x72u8);
    v.push(0x69u8);
    v.push(0x76u8);
    v.push(0x65u8);
    v.push(0x64u8);
    v.push(0x41u8);
    v.push(0x64u8);
    v.push(0x64u8);
    v.push(0x72u8);
    v.push(0x65u8);
    v.push(0x73u8);
    v.push(0x73u8);
    proof {
        assert(v@ =~= pda_marker());
    }
    v
}

/// The owner key ends with the derivation marker, which the seeded
/// derivation refuses.
pub open spec fn ends_with_pda_marker(o: Seq<u8>) -> bool {
    o.len() >= 21 && o.subrange(o.len() - 21, o.len() as int) == pda_marker()
}

fn owner_ends_with_marker(owner: &Vec<u8>) -> (r: bool)
    requires
        owner@.len() == 32,
    ensures
        r == ends_with_pda_marker(owner@),
{
    let marker = pda_marker_bytes();
    let mut i: usize = 0;
    let mut all_eq: bool = true;
    while i < 21
        invariant
            i <= 21,
            owner@.len() == 32,
            marker@ == pda_marker(),
            all_eq <==> (forall|j: int| 0 <= j < i ==> owner@[11 + j] == pda_marker()[j]),
        decreases 21 - i,
    {
        if owner[11 + i] != marker[i] {
            all_eq = false;
        }
        i = i + 1;
    }
    proof {
        if all_eq {
            assert(owner@.subrange(11, 32) =~= pda_marker());
        } else {
            assert(owner@.subrange(11, 32) != pda_marker()) by {
                let j = choose|j: int| 0 <= j < 21 && owner@[11 + j] != pda_marker()[j];
                assert(owner@.subrange(11, 32)[j] != pda_marker()[j]);
            }
        }
    }
    all_eq
}

/// The views of a list of seed buffers.
pub open spec fn views_of(seeds: Seq<Vec<u8>>) -> Seq<Seq<u8>> {
    Seq::new(seeds.len(), |i: int| seeds[i]@)
}

/// The concatenation of a list of seeds.
pub open spec fn seeds_flat(seeds: Seq<Seq<u8>>) -> Seq<u8>
    decreases seeds.len(),
{
    if seeds.len() == 0 {
        Seq::empty()
    } else {
        seeds_flat(seeds.drop_last()) + seeds.last()
    }
}

/// Every seed is at most 32 bytes.
pub open spec fn seed_lens_ok(seeds: Seq<Seq<u8>>) -> bool {
    forall|i: int| 0 <= i < seeds.len() ==> #[trigger] seeds[i].len() <= 32
}

/// The derived address of a seed list and a program id: the SHA-256 digest
/// of the seeds, the program id and the derivation marker, in that order.
pub open spec fn pda_of(seeds: Seq<Seq<u8>>, program_id: Seq<u8>) -> Seq<u8> {
    sha256_of(seeds_flat(seeds) + program_id + pda_marker())
}

/// Derive the program address of a seed list without searching for a bump
/// seed.  Fails with `MaxSeedLengthExceeded` when there are more than 16
/// seeds or a seed exceeds 32 bytes, and with `InvalidSeeds` when the
/// derived point lies on the curve (a program address must not have a
/// private-key counterpart); otherwise returns the 32 digest bytes.
pub fn program_address_bytes(seeds: &Vec<Vec<u8>>, program_id: &Vec<u8>) -> (r: Result<
    Vec<u8>,
    PdaError,
>)
    requires
        program_id@.len() == 32,
    ensures
        views_of(seeds@).len() > 16 ==> (r matches Err(e) && e is MaxSeedLengthExceeded),
        views_of(seeds@).len() <= 16 && !seed_lens_ok(views_of(seeds@)) ==> (r matches Err(e)
            && e is MaxSeedLengthExceeded),
        views_of(seeds@).len() <= 16 && seed_lens_ok(views_of(seeds@)) && on_curve(
            pda_of(views_of(seeds@), program_id@),
        ) ==> (r matches Err(e) && e is InvalidSeeds),
        views_of(seeds@).len() <= 16 && seed_lens_ok(views_of(seeds@)) && !on_curve(
            pda_of(views_of(seeds@), program_id@),
        ) ==> (r matches Ok(v) && v@ == pda_of(views_of(seeds@), program_id@) && v@.len() == 32),
{
    let n = seeds.len();
    if n > MAX_SEEDS {
        return Err(PdaError::MaxSeedLengthExceeded);
    }
    let mut i: usize = 0;
    while i < n
        invariant
            i <= n,
            n == seeds@.len(),
            forall|j: int| 0 <= j < i ==> #[trigger] views_of(seeds@)[j].len() <= 32,
        decreases n - i,
    {
        if seeds[i].len() > MAX_SEED_LEN {
            proof {
                assert(views_of(seeds@)[i as int] == seeds@[i as int]@);
                assert(!seed_lens_ok(views_of(seeds@)));
            }
            return Err(PdaError::MaxSeedLengthExceeded);
        }
        i = i + 1;
    }
    assert(seed_lens_ok(views_of(seeds@)));
    let mut buf: Vec<u8> = Vec::new();
    let mut i: usize = 0;
    proof {
        assert(buf@ =~= seeds_flat(views_of(seeds@).subrange(0, 0)));
    }
    while i < n
        invariant
            i <= n,
            n == seeds@.len(),
            buf@ == seeds_flat(views_of(seeds@).subrange(0, i as int)),
        decreases n - i,
    {
        append_bytes(&mut buf, &seeds[i]);
        proof {
            let sv = views_of(seeds@);
            assert(sv.subrange(0, i + 1).drop_last() =~= sv.subrange(0, i as int));
            assert(sv.subrange(0, i + 1).last() == sv[i as int]);
        }
        i = i + 1;
    }
    proof {
        assert(views_of(seeds@).subrange(0, n as int) =~= views_of(seeds@));
    }
    append_bytes(&mut buf, program_id);
    let marker = pda_marker_bytes();
    append_bytes(&mut buf, &marker);
    proof {
        assert(buf@ =~= seeds_flat(views_of(seeds@)) + program_id@ + pda_marker());
    }
    let digest = sha256(&buf);
    if curve_point_check(&digest) {
        Err(PdaError::InvalidSeeds)
    } else {
        Ok(digest)
    }
}

/// Search for a program address: try bump seeds from 255 down to 1,
/// appending each as a one-byte seed, and return the first whose derived
/// point is off the curve, together with that bump.  Returns `None` when
/// the seed list is unusable (16 or more seeds, or a seed over 32 bytes) or
/// every bump yields an on-curve point.  The search is bounded and keeps
/// the exact descending order and first-hit tie-break of the delegated
/// convention.
pub fn try_find_pda(seeds: &Vec<Vec<u8>>, program_id: &Vec<u8>) -> (r: Option<(Vec<u8>, u8)>)
    requires
        program_id@.len() == 32,
    ensures
        views_of(seeds@).len() >= 16 ==> r is None,
        !seed_lens_ok(views_of(seeds@)) ==> r is None,
        views_of(seeds@).len() < 16 && seed_lens_ok(views_of(seeds@)) ==> match r {
            Some((k, bump)) => {
                &&& 1 <= bump
                &&& k@ == pda_of(views_of(seeds@).push(seq![bump]), program_id@)
                &&& k@.len() == 32
                &&& !on_curve(pda_of(views_of(seeds@).push(seq![bump]), program_id@))
                &&& forall|b2: u8| bump < b2 ==> on_curve(
                    pda_of(views_of(seeds@).push(seq![b2]), program_id@),
                )
            },
            None => forall|b2: u8| 1 <= b2 ==> on_curve(
                pda_of(views_of(seeds@).push(seq![b2]), program_id@),
            ),
        },
{
    let n = seeds.len();
    if n >= MAX_SEEDS {
        return None;
    }
    let mut i: usize = 0;
    while i < n
        invariant
            i <= n,
            n == seeds@.len(),
            forall|j: int| 0 <= j < i ==> #[trigger] views_of(seeds@)[j].len() <= 32,
        decreases n - i,
    {
        if seeds[i].len() > MAX_SEED_LEN {
            proof {
                assert(views_of(seeds@)[i as int] == seeds@[i as int]@);
                assert(!seed_lens_ok(views_of(seeds@)));
            }
            return None;
        }
        i = i + 1;
    }
    assert(seed_lens_ok(views_of(seeds@)));
    let mut seeds2: Vec<Vec<u8>> = Vec::new();
    let mut i: usize = 0;
    while i < n
        invariant
            i <= n,
            n == seeds@.len(),
            seeds2@.len() == i,
            forall|j: int| 0 <= j < i ==> #[trigger] seeds2@[j]@ == seeds@[j]@,
        decreases n - i,
    {
        seeds2.push(copy_bytes(&seeds[i]));
        i = i + 1;
    }
    let mut single: Vec<u8> = Vec::new();
    single.push(255u8);
    seeds2.push(single);
    let mut bump: u16 = 255;
    while bump >= 1
        invariant
            bump <= 255,
            n == seeds@.len(),
            n < 16,
            program_id@.len() == 32,
            seed_lens_ok(views_of(seeds@)),
            seeds2@.len() == n + 1,
            forall|j: int| 0 <= j < n ==> #[trigger] seeds2@[j]@ == seeds@[j]@,
            forall|b2: u8| bump < b2 ==> on_curve(
                pda_of(views_of(seeds@).push(seq![b2]), program_id@),
            ),
        decreases bump,
    {
        let b = bump as u8;
        let mut sb: Vec<u8> = Vec::new();
        sb.push(b);
        seeds2.set(n, sb);
        proof {
            assert(views_of(seeds2@) =~= views_of(seeds@).push(seq![b]));
            assert(seed_lens_ok(views_of(seeds2@)));
        }
        match program_address_bytes(&seeds2, program_id) {
            Ok(k) => {
                return Some((k, b));
            },
            Err(PdaError::InvalidSeeds) => {},
            Err(PdaError::MaxSeedLengthExceeded) => {
                proof {
                    assert(false);
                }
            },
        }
        bump = bump - 1;
    }
    None
}

fn max_seed_text() -> (s: String)
    ensures
        s@.len() > 0,
{
    proof {
        reveal_strlit("Length of the seed is too long for address generation");
    }
    "Length of the seed is too long for address generation".to_owned()
}

fn invalid_seeds_text() -> (s: String)
    ensures
        s@.len() > 0,
{
    proof {
        reveal_strlit("Provided seeds do not result in a valid address");
    }
    "Provided seeds do not result in a valid address".to_owned()
}

fn illegal_owner_text() -> (s: String)
    ensures
        s@.len() > 0,
{
    proof {
        reveal_strlit("Provided owner is not allowed");
    }
    "Provided owner is not allowed".to_owned()
}

fn invalid_utf8_text() -> (s: String)
    ensures
        s@.len() > 0,
{
    proof {
        reveal_strlit("invalid utf-8 sequence");
    }
    "invalid utf-8 sequence".to_owned()
}

/// Derive a key from a base key, a seed text and an owner key: the SHA-256
/// digest of the three in that order.  The seed must be well-formed text of
/// at most 32 bytes, and the owner must not end with the derivation marker;
/// each violation is a failure envelope with non-empty error text.
pub fn pubkey_create_with_seed(
    pt: &mut HandleTable<PublicKey>,
    base: u64,
    seed: &Vec<u8>,
    owner: u64,
) -> (r: ResultExport<u64>)
    requires
        old(pt).can_insert(),
        old(pt).live(base),
        old(pt).live(owner),
    ensures
        r.wf(),
        !vstd::utf8::valid_utf8(seed@) ==> r.is_err() && r.result == 0 && final(pt)@ == old(pt)@,
        vstd::utf8::valid_utf8(seed@) && seed@.len() > 32 ==> r.is_err() && r.result == 0
            && final(pt)@ == old(pt)@,
        vstd::utf8::valid_utf8(seed@) && seed@.len() <= 32 && ends_with_pda_marker(
            old(pt).value(owner)@,
        ) ==> r.is_err() && r.result == 0 && final(pt)@ == old(pt)@,
        vstd::utf8::valid_utf8(seed@) && seed@.len() <= 32 && !ends_with_pda_marker(
            old(pt).value(owner)@,
        ) ==> r.is_error == 0 && final(pt).live(r.result)
            && final(pt)@.len() == old(pt)@.len() + 1
            && r.result == old(pt)@.len() + 1
            && final(pt).value(r.result)@
            == sha256_of(old(pt).value(base)@ + seed@ + old(pt).value(owner)@),
        forall|h2: u64| old(pt).live(h2) ==> #[trigger] final(pt).live(h2)
            && final(pt).value(h2) == old(pt).value(h2),
{
    if !crate::common_types::utf8_check(seed) {
        return ResultExport::make_err(0u64, invalid_utf8_text());
    }
    if seed.len() > MAX_SEED_LEN {
        return ResultExport::make_err(0u64, max_seed_text());
    }
    let owner_v = pt.get(owner).to_vec();
    if owner_ends_with_marker(&owner_v) {
        return ResultExport::make_err(0u64, illegal_owner_text());
    }
    let base_v = pt.get(base).to_vec();
    let mut buf = base_v;
    append_bytes(&mut buf, seed);
    append_bytes(&mut buf, &owner_v);
    proof {
        assert(buf@ =~= old(pt).value(base)@ + seed@ + old(pt).value(owner)@);
    }
    let digest = sha256(&buf);
    let h = pt.insert(PublicKey::from_vec(digest));
    ResultExport::make_ok(h)
}

/// Derive the program address of a seed list without a bump search,
/// enveloped: each derivation failure is rendered as its error text.
pub fn pubkey_create_program_address(
    pt: &mut HandleTable<PublicKey>,
    seeds: &Vec<Vec<u8>>,
    program_id: u64,
) -> (r: ResultExport<u64>)
    requires
        old(pt).can_insert(),
        old(pt).live(program_id),
    ensures
        r.wf(),
        views_of(seeds@).len() <= 16 && seed_lens_ok(views_of(seeds@)) && !on_curve(
            pda_of(views_of(seeds@), old(pt).value(program_id)@),
        ) ==> r.is_error == 0 && final(pt).live(r.result)
            && final(pt)@.len() == old(pt)@.len() + 1
            && r.result == old(pt)@.len() + 1
            && final(pt).value(r.result)@ == pda_of(
            views_of(seeds@),
            old(pt).value(program_id)@,
        ),
        views_of(seeds@).len() > 16 || !seed_lens_ok(views_of(seeds@)) || on_curve(
            pda_of(views_of(seeds@), old(pt).value(program_id)@),
        ) ==> r.is_err() && r.result == 0 && final(pt)@ == old(pt)@,
        forall|h2: u64| old(pt).live(h2) ==> #[trigger] final(pt).live(h2)
            && final(pt).value(h2) == old(pt).value(h2),
{
    let pid = pt.get(program_id).to_vec();
    match program_address_bytes(seeds, &pid) {
        Ok(k) => {
            let h = pt.insert(PublicKey::from_vec(k));
            ResultExport::make_ok(h)
        },
        Err(PdaError::MaxSeedLengthExceeded) => ResultExport::make_err(0u64, max_seed_text()),
        Err(PdaError::InvalidSeeds) => ResultExport::make_err(0u64, invalid_seeds_text()),
    }
}

/// Search for a program address and return a handle to the first viable
/// derived key with its bump seed; the null handle (with bump 0) reports
/// that no bump was viable or that the seed list was unusable.
pub fn pubkey_try_find_program_address(
    pt: &mut HandleTable<PublicKey>,
    seeds: &Vec<Vec<u8>>,
    program_id: u64,
) -> (r: ProgramAddress)
    requires
        old(pt).can_insert(),
        old(pt).live(program_id),
    ensures
        r.pubkey == 0 ==> r.bump_seed == 0 && final(pt)@ == old(pt)@,
        r.pubkey != 0 ==> final(pt).live(r.pubkey) && 1 <= r.bump_seed
            && final(pt)@.len() == old(pt)@.len() + 1
            && r.pubkey == old(pt)@.len() + 1
            && final(pt).value(r.pubkey)@ == pda_of(
                views_of(seeds@).push(seq![r.bump_seed]),
                old(pt).value(program_id)@,
            )
            && !on_curve(final(pt).value(r.pubkey)@)
            && (forall|b2: u8| r.bump_seed < b2 ==> on_curve(
                pda_of(views_of(seeds@).push(seq![b2]), old(pt).value(program_id)@),
            )),
        views_of(seeds@).len() < 16 && seed_lens_ok(views_of(seeds@)) && r.pubkey == 0 ==> (
            forall|b2: u8| 1 <= b2 ==> on_curve(
                pda_of(views_of(seeds@).push(seq![b2]), old(pt).value(program_id)@),
            )),
        forall|h2: u64| old(pt).live(h2) ==> #[trigger] final(pt).live(h2)
            && final(pt).value(h2) == old(pt).value(h2),
{
    let pid = pt.get(program_id).to_vec();
    match try_find_pda(seeds, &pid) {
        Some((k, bump)) => {
            let h = pt.insert(PublicKey::from_vec(k));
            ProgramAddress { pubkey: h, bump_seed: bump }
        },
        None => ProgramAddress { pubkey: 0, bump_seed: 0 },
    }
}

/// As `pubkey_try_find_program_address`; exhaustion of the bump search, a
/// statistically improbable event, is likewise reported as the null handle.
pub fn pubkey_find_program_address(
    pt: &mut HandleTable<PublicKey>,
    seeds: &Vec<Vec<u8>>,
    program_id: u64,
) -> (r: ProgramAddress)
    requires
        old(pt).can_insert(),
        old(pt).live(program_id),
    ensures
        r.pubkey == 0 ==> r.bump_seed == 0 && final(pt)@ == old(pt)@,
        r.pubkey != 0 ==> final(pt).live(r.pubkey) && 1 <= r.bump_seed
            && final(pt)@.len() == old(pt)@.len() + 1
            && r.pubkey == old(pt)@.len() + 1
            && final(pt).value(r.pubkey)@ == pda_of(
                views_of(seeds@).push(seq![r.bump_seed]),
                old(pt).value(program_id)@,
            )
            && !on_curve(final(pt).value(r.pubkey)@)
            && (forall|b2: u8| r.bump_seed < b2 ==> on_curve(
                pda_of(views_of(seeds@).push(seq![b2]), old(pt).value(program_id)@),
            )),
        views_of(seeds@).len() < 16 && seed_lens_ok(views_of(seeds@)) && r.pubkey == 0 ==> (
            forall|b2: u8| 1 <= b2 ==> on_curve(
                pda_of(views_of(seeds@).push(seq![b2]), old(pt).value(program_id)@),
            )),
        forall|h2: u64| old(pt).live(h2) ==> #[trigger] final(pt).live(h2)
            && final(pt).value(h2) == old(pt).value(h2),
{
    pubkey_try_find_program_address(pt, seeds, program_id)
}

/// A found program address verifies without a search: whenever the bump
/// search succeeds on a usable seed list, appending the returned bump as a
/// one-byte seed satisfies every condition under which the no-search
/// derivation succeeds, and derives the same address.
pub proof fn lemma_found_address_verifies(seeds: Seq<Seq<u8>>, program_id: Seq<u8>, bump: u8)
    requires
        seeds.len() < 16,
        seed_lens_ok(seeds),
        !on_curve(pda_of(seeds.push(seq![bump]), program_id)),
    ensures
        seeds.push(seq![bump]).len() <= 16,
        seed_lens_ok(seeds.push(seq![bump])),
        !on_curve(pda_of(seeds.push(seq![bump]), program_id)),
{
    let with_bump = seeds.push(seq![bump]);
    assert forall|i: int| 0 <= i < with_bump.len() implies #[trigger] with_bump[i].len()
        <= 32 by {
        if i < seeds.len() {
            assert(with_bump[i] == seeds[i]);
        } else {
            assert(with_bump[i] == seq![bump]);
        }
    }
}

/// Destroy a public-key handle.  The null handle is a no-op; a live handle
/// becomes freed; a stale handle is refused and nothing changes.
pub fn free_pubkey(pt: &mut HandleTable<PublicKey>, h: u64)
    ensures
        h == 0 ==> final(pt)@ == old(pt)@,
        h != 0 && old(pt).live(h) ==> !final(pt).live(h),
        h != 0 && !old(pt).live(h) ==> final(pt)@ == old(pt)@,
        forall|h2: u64| h2 != h && old(pt).live(h2) ==> #[trigger] final(pt).live(h2)
            && final(pt).value(h2) == old(pt).value(h2),
{
    let _ = pt.free(h);
}

} // verus!
