//! The mnemonic/seed adapter: opaque handles to mnemonic phrases of a given
//! word-count class and language, and to the 64-byte seeds derived from
//! them.
//!
//! Generating, parsing and validating phrases and stretching them into
//! seeds is delegated behind trusted declarations; the entropy-length
//! rules, the text checks and the envelope encoding are verified here.

use vstd::prelude::*;
use vstd::utf8::valid_utf8;
use crate::common_types::{ResultExport, VecRawParts, BufferTable, to_raw_parts, copy_bytes,
    utf8_check};
use crate::handle::HandleTable;
use crate::keypair_export::{KeyPair, ed25519_pubkey};

verus! {

/// A supported mnemonic language.
#[derive(Clone, Copy, Debug, PartialEq, Eq)]
pub enum Lang {
    English,
    ChineseSimplified,
    ChineseTraditional,
    French,
    Italian,
    Japanese,
    Korean,
    Spanish,
}

/// The code a language is passed across the trusted boundary as.
pub open spec fn lang_code_spec(l: Lang) -> int {
    match l {
        Lang::English => 0,
        Lang::ChineseSimplified => 1,
        Lang::ChineseTraditional => 2,
        Lang::French => 3,
        Lang::Italian => 4,
        Lang::Japanese => 5,
        Lang::Korean => 6,
        Lang::Spanish => 7,
    }
}

impl Lang {
    /// The language's code.
    pub fn code(&self) -> (r: u8)
        ensures
            r == lang_code_spec(*self),
            r < 8,
    {
        match self {
            Lang::English => 0,
            Lang::ChineseSimplified => 1,
            Lang::ChineseTraditional => 2,
            Lang::French => 3,
            Lang::Italian => 4,
            Lang::Japanese => 5,
            Lang::Korean => 6,
            Lang::Spanish => 7,
        }
    }
}

/// A mnemonic word-count class.
#[derive(Clone, Copy, Debug, PartialEq, Eq)]
pub enum MnemonicKind {
    Words12,
    Words15,
    Words18,
    Words21,
    Words24,
}

/// The number of words of a word-count class.
pub open spec fn word_count_spec(k: MnemonicKind) -> int {
    match k {
        MnemonicKind::Words12 => 12,
        MnemonicKind::Words15 => 15,
        MnemonicKind::Words18 => 18,
        MnemonicKind::Words21 => 21,
        MnemonicKind::Words24 => 24,
    }
}

impl MnemonicKind {
    /// The number of words of the class.
    pub fn word_count(&self) -> (r: u8)
        ensures
            r == word_count_spec(*self),
            r == 12 || r == 15 || r == 18 || r == 21 || r == 24,
    {
        match self {
            MnemonicKind::Words12 => 12,
            MnemonicKind::Words15 => 15,
            MnemonicKind::Words18 => 18,
            MnemonicKind::Words21 => 21,
            MnemonicKind::Words24 => 24,
        }
    }
}

/// An entropy buffer must be 16, 20, 24, 28 or 32 bytes.
pub open spec fn valid_entropy_len(n: int) -> bool {
    n == 16 || n == 20 || n == 24 || n == 28 || n == 32
}

/// The number of phrase words an entropy length yields (3 words for every
/// 4 entropy bytes).
pub open spec fn words_for_entropy(n: int) -> int {
    n * 3 / 4
}

/// The entropy length a word count calls for (4 entropy bytes for every 3
/// words).
pub open spec fn entropy_len_for_words(w: int) -> int {
    w * 4 / 3
}

/// The number of occurrences of byte `c` in `s`.
pub open spec fn count_char(s: Seq<u8>, c: u8) -> int
    decreases s.len(),
{
    if s.len() == 0 {
        0
    } else {
        count_char(s.drop_last(), c) + if s.last() == c {
            1int
        } else {
            0int
        }
    }
}

/// `s` is `words` non-empty words joined by single ASCII spaces: non-empty,
/// no space at either end, no two adjacent spaces, and exactly `words - 1`
/// spaces.
pub open spec fn space_separated_words(s: Seq<u8>, words: int) -> bool {
    &&& s.len() > 0
    &&& s[0] != 32
    &&& s[s.len() - 1] != 32
    &&& count_char(s, 32) == words - 1
    &&& forall|i: int| 0 <= i < s.len() - 1 ==> !(s[i] == 32 && #[trigger] s[i + 1] == 32)
}

/// The phrase (as UTF-8 bytes) that an entropy buffer and a language
/// determine.
pub uninterp spec fn bip39_phrase(entropy: Seq<u8>, lang_code: int) -> Seq<u8>;

/// The entropy a phrase text recovers to in a language: `None` exactly when
/// the phrase does not validate (unknown word, wrong word count, bad
/// checksum).
pub uninterp spec fn bip39_entropy(phrase: Seq<u8>, lang_code: int) -> Option<Seq<u8>>;

/// The 64-byte seed derived from a phrase and a password by the delegated
/// PBKDF2 derivation.
pub uninterp spec fn bip39_seed(phrase: Seq<u8>, password: Seq<u8>) -> Seq<u8>;

#[verifier::external_type_specification]
#[verifier::external_body]
pub struct ExLanguage(bip39::Language);

/// Relies on `bip39::Language` being selectable by code; used only inside
/// the trusted bodies below.
#[verifier::external_body]
fn language_of_code(lc: u8) -> bip39::Language {
    match lc {
        1 => bip39::Language::ChineseSimplified,
        2 => bip39::Language::ChineseTraditional,
        3 => bip39::Language::French,
        4 => bip39::Language::Italian,
        5 => bip39::Language::Japanese,
        6 => bip39::Language::Korean,
        7 => bip39::Language::Spanish,
        _ => bip39::Language::English,
    }
}

/// Relies on `bip39::Mnemonic::new`: a phrase from fresh entropy of the
/// class's size; the phrase is the joined word rendering of the entropy,
/// parses back to it, and is well-formed text of the stated word count.
#[verifier::external_body]
fn mnemonic_new_raw(wc: u8, lc: u8) -> (r: (Vec<u8>, Vec<u8>))
    requires
        wc == 12 || wc == 15 || wc == 18 || wc == 21 || wc == 24,
        lc < 8,
    ensures
        r.1@.len() == entropy_len_for_words(wc as int),
        r.0@ == bip39_phrase(r.1@, lc as int),
        bip39_entropy(r.0@, lc as int) == Some(r.1@),
        valid_utf8(r.0@),
        space_separated_words(r.0@, wc as int),
{
    let mt = bip39::MnemonicType::for_word_count(wc as usize).unwrap();
    let m = bip39::Mnemonic::new(mt, language_of_code(lc));
    (m.phrase().as_bytes().to_vec(), m.entropy().to_vec())
}

/// Relies on `bip39::Mnemonic::from_entropy`: it succeeds exactly on the
/// five valid entropy sizes, and the phrase is the joined word rendering of
/// the entropy: deterministic, parsing back to the entropy, well-formed
/// text of the matching word count.
#[verifier::external_body]
fn from_entropy_raw(entropy: &Vec<u8>, lc: u8) -> (r: Result<Vec<u8>, String>)
    requires
        lc < 8,
    ensures
        r is Ok <==> valid_entropy_len(entropy@.len() as int),
        r matches Ok(p) ==> p@ == bip39_phrase(entropy@, lc as int)
            && bip39_entropy(p@, lc as int) == Some(entropy@)
            && valid_utf8(p@)
            && space_separated_words(p@, words_for_entropy(entropy@.len() as int)),
        r matches Err(m) ==> m@.len() > 0,
{
    match bip39::Mnemonic::from_entropy(entropy.as_slice(), language_of_code(lc)) {
        Ok(m) => Ok(m.phrase().as_bytes().to_vec()),
        Err(e) => Err(e.to_string()),
    }
}

/// Relies on `bip39::Mnemonic::from_phrase`: it succeeds exactly when the
/// phrase validates in the language (known words, allowed count, checksum),
/// recovering the entropy; the stored phrase is the canonical rendering of
/// that entropy.
#[verifier::external_body]
fn from_phrase_raw(phrase: &Vec<u8>, lc: u8) -> (r: Result<(Vec<u8>, Vec<u8>), String>)
    requires
        valid_utf8(phrase@),
        lc < 8,
    ensures
        r is Ok <==> bip39_entropy(phrase@, lc as int) is Some,
        r matches Ok(pe) ==> Some(pe.1@) == bip39_entropy(phrase@, lc as int)
            && valid_entropy_len(pe.1@.len() as int)
            && pe.0@ == bip39_phrase(pe.1@, lc as int)
            && bip39_entropy(pe.0@, lc as int) == Some(pe.1@)
            && valid_utf8(pe.0@)
            && space_separated_words(pe.0@, words_for_entropy(pe.1@.len() as int)),
        r matches Err(m) ==> m@.len() > 0,
{
    let s = core::str::from_utf8(phrase.as_slice()).unwrap();
    match bip39::Mnemonic::from_phrase(s, language_of_code(lc)) {
        Ok(m) => Ok((m.phrase().as_bytes().to_vec(), m.entropy().to_vec())),
        Err(e) => Err(e.to_string()),
    }
}

/// Relies on `bip39::Seed::new`: 64 bytes of PBKDF2-HMAC-SHA512 over the
/// phrase with the salted password, a deterministic function of the two
/// texts.
#[verifier::external_body]
fn seed_raw(phrase: &Vec<u8>, password: &Vec<u8>, lc: u8) -> (r: Vec<u8>)
    requires
        valid_utf8(phrase@),
        valid_utf8(password@),
        lc < 8,
        bip39_entropy(phrase@, lc as int) is Some,
    ensures
        r@ == bip39_seed(phrase@, password@),
        r@.len() == 64,
{
    let s = core::str::from_utf8(phrase.as_slice()).unwrap();
    let m = bip39::Mnemonic::from_phrase(s, language_of_code(lc)).unwrap();
    let pw = core::str::from_utf8(password.as_slice()).unwrap();
    bip39::Seed::new(&m, pw).as_bytes().to_vec()
}

/// A validated mnemonic: its canonical phrase text, the entropy it encodes
/// and its language.
pub struct MnemonicValue {
    phrase: Vec<u8>,
    entropy: Vec<u8>,
    lang: Lang,
}

impl MnemonicValue {
    #[verifier::type_invariant]
    spec fn type_inv(self) -> bool {
        &&& valid_entropy_len(self.entropy@.len() as int)
        &&& self.phrase@ == bip39_phrase(self.entropy@, lang_code_spec(self.lang))
        &&& bip39_entropy(self.phrase@, lang_code_spec(self.lang)) == Some(self.entropy@)
        &&& valid_utf8(self.phrase@)
    }

    /// The phrase text, as UTF-8 bytes.
    pub closed spec fn phrase_view(self) -> Seq<u8> {
        self.phrase@
    }

    /// The entropy bytes.
    pub closed spec fn entropy_view(self) -> Seq<u8> {
        self.entropy@
    }

    /// The language.
    pub closed spec fn lang_view(self) -> Lang {
        self.lang
    }
}

/// A derived seed: always 64 bytes.
pub struct SeedValue {
    bytes: Vec<u8>,
}

impl View for SeedValue {
    type V = Seq<u8>;

    closed spec fn view(&self) -> Seq<u8> {
        self.bytes@
    }
}

impl SeedValue {
    #[verifier::type_invariant]
    spec fn type_inv(self) -> bool {
        self.bytes@.len() == 64
    }

    /// The seed's bytes, freshly copied.
    pub fn to_vec(&self) -> (r: Vec<u8>)
        ensures
            r@ == self@,
            r@.len() == 64,
    {
        proof {
            use_type_invariant(self);
        }
        copy_bytes(&self.bytes)
    }
}

/// The language a name denotes, or `None` for an unknown name.
pub open spec fn spec_language_from(s: Seq<char>) -> Option<Lang> {
    if s == "English"@ {
        Some(Lang::English)
    } else if s == "ChineseSimplified"@ {
        Some(Lang::ChineseSimplified)
    } else if s == "ChineseTraditional"@ {
        Some(Lang::ChineseTraditional)
    } else if s == "French"@ {
        Some(Lang::French)
    } else if s == "Italian"@ {
        Some(Lang::Italian)
    } else if s == "Japanese"@ {
        Some(Lang::Japanese)
    } else if s == "Korean"@ {
        Some(Lang::Korean)
    } else if s == "Spanish"@ {
        Some(Lang::Spanish)
    } else {
        None
    }
}

/// Parse a language name.
pub fn language_from_str(lang: &str) -> (r: Option<Lang>)
    ensures
        r == spec_language_from(lang@),
{
    let s = lang.to_owned();
    if s == "English".to_owned() {
        Some(Lang::English)
    } else if s == "ChineseSimplified".to_owned() {
        Some(Lang::ChineseSimplified)
    } else if s == "ChineseTraditional".to_owned() {
        Some(Lang::ChineseTraditional)
    } else if s == "French".to_owned() {
        Some(Lang::French)
    } else if s == "Italian".to_owned() {
        Some(Lang::Italian)
    } else if s == "Japanese".to_owned() {
        Some(Lang::Japanese)
    } else if s == "Korean".to_owned() {
        Some(Lang::Korean)
    } else if s == "Spanish".to_owned() {
        Some(Lang::Spanish)
    } else {
        None
    }
}

/// The word-count class a name denotes, or `None` for an unknown name.
pub open spec fn spec_mnemonic_type_from(s: Seq<char>) -> Option<MnemonicKind> {
    if s == "Words12"@ {
        Some(MnemonicKind::Words12)
    } else if s == "Words15"@ {
        Some(MnemonicKind::Words15)
    } else if s == "Words18"@ {
        Some(MnemonicKind::Words18)
    } else if s == "Words21"@ {
        Some(MnemonicKind::Words21)
    } else if s == "Words24"@ {
        Some(MnemonicKind::Words24)
    } else {
        None
    }
}

/// Parse a word-count class name.
pub fn mnemonic_type_from_str(mtype: &str) -> (r: Option<MnemonicKind>)
    ensures
        r == spec_mnemonic_type_from(mtype@),
{
    let s = mtype.to_owned();
    if s == "Words12".to_owned() {
        Some(MnemonicKind::Words12)
    } else if s == "Words15".to_owned() {
        Some(MnemonicKind::Words15)
    } else if s == "Words18".to_owned() {
        Some(MnemonicKind::Words18)
    } else if s == "Words21".to_owned() {
        Some(MnemonicKind::Words21)
    } else if s == "Words24".to_owned() {
        Some(MnemonicKind::Words24)
    } else {
        None
    }
}

/// Seed derivation is reproducible: two seeds derived from the same phrase
/// and the same password hold identical bytes, since the derivation is a
/// function of the two texts alone.
pub proof fn lemma_seed_reproducible(s1: Seq<u8>, s2: Seq<u8>, phrase: Seq<u8>, password: Seq<u8>)
    requires
        s1 == bip39_seed(phrase, password),
        s2 == bip39_seed(phrase, password),
    ensures
        s1 == s2,
{
}

fn bip39_utf8_text() -> (s: String)
    ensures
        s@.len() > 0,
{
    proof {
        reveal_strlit("invalid utf-8 sequence");
    }
    "invalid utf-8 sequence".to_owned()
}

/// Generate a fresh mnemonic of the given word-count class and language.
pub fn mnemonic_new(mt: &mut HandleTable<MnemonicValue>, kind: MnemonicKind, lang: Lang) -> (h:
    u64)
    requires
        old(mt).can_insert(),
    ensures
        h != 0,
        final(mt).live(h),
        final(mt)@.len() == old(mt)@.len() + 1,
        h == old(mt)@.len() + 1,
        final(mt).value(h).lang_view() == lang,
        final(mt).value(h).entropy_view().len() == entropy_len_for_words(word_count_spec(kind)),
        final(mt).value(h).phrase_view() == bip39_phrase(
            final(mt).value(h).entropy_view(),
            lang_code_spec(lang),
        ),
        bip39_entropy(final(mt).value(h).phrase_view(), lang_code_spec(lang)) == Some(
            final(mt).value(h).entropy_view(),
        ),
        space_separated_words(final(mt).value(h).phrase_view(), word_count_spec(kind)),
        forall|h2: u64| old(mt).live(h2) ==> #[trigger] final(mt).live(h2)
            && final(mt).value(h2) == old(mt).value(h2),
{
    let wc = kind.word_count();
    let lc = lang.code();
    let (phrase, entropy) = mnemonic_new_raw(wc, lc);
    mt.insert(MnemonicValue { phrase, entropy, lang })
}

/// Construct a mnemonic from pre-generated entropy.  Success exactly when
/// the entropy is 16, 20, 24, 28 or 32 bytes.
pub fn from_entropy(mt: &mut HandleTable<MnemonicValue>, entropy: &Vec<u8>, lang: Lang) -> (r:
    ResultExport<u64>)
    requires
        old(mt).can_insert(),
    ensures
        r.wf(),
        valid_entropy_len(entropy@.len() as int) ==> r.is_error == 0 && final(mt).live(r.result)
            && final(mt)@.len() == old(mt)@.len() + 1
            && r.result == old(mt)@.len() + 1
            && final(mt).value(r.result).entropy_view() == entropy@
            && final(mt).value(r.result).lang_view() == lang
            && final(mt).value(r.result).phrase_view() == bip39_phrase(
                entropy@,
                lang_code_spec(lang),
            )
            && bip39_entropy(final(mt).value(r.result).phrase_view(), lang_code_spec(lang))
                == Some(entropy@),
        !valid_entropy_len(entropy@.len() as int) ==> r.is_err() && r.result == 0
            && final(mt)@ == old(mt)@,
        forall|h2: u64| old(mt).live(h2) ==> #[trigger] final(mt).live(h2)
            && final(mt).value(h2) == old(mt).value(h2),
{
    let lc = lang.code();
    match from_entropy_raw(entropy, lc) {
        Ok(phrase) => {
            let e = copy_bytes(entropy);
            let h = mt.insert(MnemonicValue { phrase, entropy: e, lang });
            ResultExport::make_ok(h)
        },
        Err(msg) => ResultExport::make_err(0u64, msg),
    }
}

/// Construct a mnemonic from an existing phrase, validating word length and
/// checksum.  Success exactly when the phrase is well-formed text that
/// validates in the language.
pub fn from_phrase(mt: &mut HandleTable<MnemonicValue>, phrase: &Vec<u8>, lang: Lang) -> (r:
    ResultExport<u64>)
    requires
        old(mt).can_insert(),
    ensures
        r.wf(),
        valid_utf8(phrase@) && bip39_entropy(phrase@, lang_code_spec(lang)) is Some ==> r.is_error
            == 0 && final(mt).live(r.result)
            && final(mt)@.len() == old(mt)@.len() + 1
            && r.result == old(mt)@.len() + 1
            && Some(final(mt).value(r.result).entropy_view()) == bip39_entropy(
                phrase@,
                lang_code_spec(lang),
            )
            && final(mt).value(r.result).phrase_view() == bip39_phrase(
                final(mt).value(r.result).entropy_view(),
                lang_code_spec(lang),
            )
            && final(mt).value(r.result).lang_view() == lang,
        !(valid_utf8(phrase@) && bip39_entropy(phrase@, lang_code_spec(lang)) is Some) ==> r.is_err()
            && r.result == 0 && final(mt)@ == old(mt)@,
        forall|h2: u64| old(mt).live(h2) ==> #[trigger] final(mt).live(h2)
            && final(mt).value(h2) == old(mt).value(h2),
{
    if !utf8_check(phrase) {
        return ResultExport::make_err(0u64, bip39_utf8_text());
    }
    let lc = lang.code();
    match from_phrase_raw(phrase, lc) {
        Ok((p, e)) => {
            let h = mt.insert(MnemonicValue { phrase: p, entropy: e, lang });
            ResultExport::make_ok(h)
        },
        Err(msg) => ResultExport::make_err(0u64, msg),
    }
}

/// Validate a phrase: the envelope carries 1 exactly when the phrase is
/// well-formed text that validates in the language, and 0 with the error
/// text otherwise.
pub fn validate(phrase: &Vec<u8>, lang: Lang) -> (r: ResultExport<u8>)
    ensures
        r.wf(),
        valid_utf8(phrase@) && bip39_entropy(phrase@, lang_code_spec(lang)) is Some ==> r.is_error
            == 0 && r.result == 1,
        !(valid_utf8(phrase@) && bip39_entropy(phrase@, lang_code_spec(lang)) is Some) ==> r.is_err()
            && r.result == 0,
{
    if !utf8_check(phrase) {
        return ResultExport::make_err(0u8, bip39_utf8_text());
    }
    let lc = lang.code();
    match from_phrase_raw(phrase, lc) {
        Ok(_) => ResultExport::make_ok(1u8),
        Err(msg) => ResultExport::make_err(0u8, msg),
    }
}

/// The mnemonic's phrase text, freshly copied.
pub fn phrase(mt: &HandleTable<MnemonicValue>, h: u64) -> (r: Vec<u8>)
    requires
        mt.live(h),
    ensures
        r@ == mt.value(h).phrase_view(),
{
    let m = mt.get(h);
    proof {
        use_type_invariant(m);
    }
    copy_bytes(&m.phrase)
}

/// The mnemonic's phrase text, as `phrase`; the consuming rendering of the
/// original interface coincides with it.
pub fn into_phrase(mt: &HandleTable<MnemonicValue>, h: u64) -> (r: Vec<u8>)
    requires
        mt.live(h),
    ensures
        r@ == mt.value(h).phrase_view(),
{
    phrase(mt, h)
}

/// Export the mnemonic's entropy as an owned buffer by raw parts.
pub fn entropy(mt: &HandleTable<MnemonicValue>, bt: &mut BufferTable, h: u64) -> (parts:
    VecRawParts)
    requires
        mt.live(h),
        old(bt)@.len() + 1 < u64::MAX,
    ensures
        final(bt).holds(parts),
        final(bt).bytes_of(parts) == mt.value(h).entropy_view(),
        parts.length == mt.value(h).entropy_view().len(),
        final(bt)@.len() == old(bt)@.len() + 1,
        parts.data == old(bt)@.len() + 1,
        forall|p: VecRawParts| old(bt).holds(p) ==> #[trigger] final(bt).holds(p)
            && final(bt).bytes_of(p) == old(bt).bytes_of(p),
{
    let m = mt.get(h);
    proof {
        use_type_invariant(m);
    }
    let e = copy_bytes(&m.entropy);
    to_raw_parts(bt, e)
}

/// Derive a 64-byte seed from the mnemonic and a password.  Malformed
/// password text is a checked error.
pub fn seed_new(
    mt: &HandleTable<MnemonicValue>,
    st: &mut HandleTable<SeedValue>,
    h: u64,
    password: &Vec<u8>,
) -> (r: ResultExport<u64>)
    requires
        mt.live(h),
        old(st).can_insert(),
    ensures
        r.wf(),
        valid_utf8(password@) ==> r.is_error == 0 && final(st).live(r.result)
            && final(st)@.len() == old(st)@.len() + 1
            && r.result == old(st)@.len() + 1
            && final(st).value(r.result)@ == bip39_seed(mt.value(h).phrase_view(), password@)
            && final(st).value(r.result)@.len() == 64,
        !valid_utf8(password@) ==> r.is_err() && r.result == 0 && final(st)@ == old(st)@,
        forall|h2: u64| old(st).live(h2) ==> #[trigger] final(st).live(h2)
            && final(st).value(h2) == old(st).value(h2),
{
    if !utf8_check(password) {
        return ResultExport::make_err(0u64, bip39_utf8_text());
    }
    let m = mt.get(h);
    proof {
        use_type_invariant(m);
    }
    let p = copy_bytes(&m.phrase);
    let lc = m.lang.code();
    let seed = seed_raw(&p, password, lc);
    let sh = st.insert(SeedValue { bytes: seed });
    ResultExport::make_ok(sh)
}

/// Export the seed's 64 bytes as an owned buffer by raw parts.
pub fn as_bytes(st: &HandleTable<SeedValue>, bt: &mut BufferTable, h: u64) -> (parts: VecRawParts)
    requires
        st.live(h),
        old(bt)@.len() + 1 < u64::MAX,
    ensures
        final(bt).holds(parts),
        final(bt).bytes_of(parts) == st.value(h)@,
        parts.length == 64,
        final(bt)@.len() == old(bt)@.len() + 1,
        parts.data == old(bt)@.len() + 1,
        forall|p: VecRawParts| old(bt).holds(p) ==> #[trigger] final(bt).holds(p)
            && final(bt).bytes_of(p) == old(bt).bytes_of(p),
{
    let v = st.get(h).to_vec();
    to_raw_parts(bt, v)
}

/// Construct a key pair from the entropy of a derived seed handle: a seed
/// is always 64 bytes, so the first 32 become the secret key and the
/// construction always succeeds.
pub fn keypair_from_seed_entropy(
    st: &HandleTable<SeedValue>,
    kt: &mut HandleTable<KeyPair>,
    sh: u64,
) -> (r: ResultExport<u64>)
    requires
        st.live(sh),
        old(kt).can_insert(),
    ensures
        r.wf(),
        r.is_error == 0,
        final(kt).live(r.result),
        final(kt)@.len() == old(kt)@.len() + 1,
        r.result == old(kt)@.len() + 1,
        final(kt).value(r.result)@ == st.value(sh)@.subrange(0, 32) + ed25519_pubkey(
            st.value(sh)@.subrange(0, 32),
        ),
        forall|h2: u64| old(kt).live(h2) ==> #[trigger] final(kt).live(h2)
            && final(kt).value(h2) == old(kt).value(h2),
{
    let sb = st.get(sh).to_vec();
    crate::keypair_export::keypair_from_seed_entropy(kt, &sb)
}

/// Destroy a mnemonic handle.  The null handle is a no-op; a live handle
/// becomes freed; a stale handle is refused and nothing changes.
pub fn free_mnemonic(mt: &mut HandleTable<MnemonicValue>, h: u64)
    ensures
        h == 0 ==> final(mt)@ == old(mt)@,
        h != 0 && old(mt).live(h) ==> !final(mt).live(h),
        h != 0 && !old(mt).live(h) ==> final(mt)@ == old(mt)@,
        forall|h2: u64| h2 != h && old(mt).live(h2) ==> #[trigger] final(mt).live(h2)
            && final(mt).value(h2) == old(mt).value(h2),
{
    let _ = mt.free(h);
}

/// Destroy a seed handle.  The null handle is a no-op; a live handle
/// becomes freed; a stale handle is refused and nothing changes.
pub fn free_seed(st: &mut HandleTable<SeedValue>, h: u64)
    ensures
        h == 0 ==> final(st)@ == old(st)@,
        h != 0 && old(st).live(h) ==> !final(st).live(h),
        h != 0 && !old(st).live(h) ==> final(st)@ == old(st)@,
        forall|h2: u64| h2 != h && old(st).live(h2) ==> #[trigger] final(st).live(h2)
            && final(st).value(h2) == old(st).value(h2),
{
    let _ = st.free(h);
}

} // verus!
