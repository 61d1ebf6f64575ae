//! Flat result/option envelopes and the buffer transfer protocol.
//!
//! A fallible operation crosses the boundary as a `ResultExport`: a flag, a
//! payload that is always written (the zero value on failure), and an error
//! text that is present exactly on failure.  An owned byte buffer crosses as a
//! `VecRawParts` triple; the caller must hand the identical triple back to
//! reclaim or release the buffer.  Buffers in flight are kept in a
//! `BufferTable`, so that a stale or foreign triple is detected instead of
//! corrupting the heap.

use vstd::prelude::*;
use vstd::pervasive::VecAdditionalExecFns;

verus! {

/// Success/failure envelope: `is_error == 0` means the payload is meaningful
/// and the error text absent; `is_error == 1` means the payload is a zero
/// placeholder and the error text present.
pub struct ResultExport<T> {
    pub is_error: u8,
    pub result: T,
    pub error: Option<String>,
}

impl<T> ResultExport<T> {
    /// The flag, the payload and the error text agree.
    pub open spec fn wf(self) -> bool {
        &&& self.is_error == 0 || self.is_error == 1
        &&& (self.is_error == 0 <==> self.error is None)
    }

    /// The envelope reports success and carries `v`.
    pub open spec fn is_ok_with(self, v: T) -> bool {
        &&& self.wf()
        &&& self.is_error == 0
        &&& self.result == v
    }

    /// The envelope reports failure with non-empty error text.
    pub open spec fn is_err(self) -> bool {
        &&& self.wf()
        &&& self.is_error == 1
        &&& self.error matches Some(msg) && msg@.len() > 0
    }

    /// Wrap a successful payload.
    pub fn make_ok(v: T) -> (r: ResultExport<T>)
        ensures
            r.is_ok_with(v),
    {
        ResultExport { is_error: 0, result: v, error: None }
    }

    /// Wrap a failure: `zero` is the placeholder payload the caller can still
    /// destructure, `msg` the rendered error text.
    pub fn make_err(zero: T, msg: String) -> (r: ResultExport<T>)
        requires
            msg@.len() > 0,
        ensures
            r.is_err(),
            r.result == zero,
            r.error == Some(msg),
    {
        ResultExport { is_error: 1, result: zero, error: Some(msg) }
    }
}

/// Presence/absence envelope for legitimately absent successes.
pub struct OptionExport<T> {
    pub has_value: u8,
    pub value: T,
}

impl<T> OptionExport<T> {
    /// The flag is a boolean.
    pub open spec fn wf(self) -> bool {
        self.has_value == 0 || self.has_value == 1
    }

    /// Wrap a present value.
    pub fn make_some(v: T) -> (r: OptionExport<T>)
        ensures
            r.wf(),
            r.has_value == 1,
            r.value == v,
    {
        OptionExport { has_value: 1, value: v }
    }

    /// Wrap an absence; `zero` is the placeholder payload.
    pub fn make_none(zero: T) -> (r: OptionExport<T>)
        ensures
            r.wf(),
            r.has_value == 0,
            r.value == zero,
    {
        OptionExport { has_value: 0, value: zero }
    }
}

/// An owned byte buffer by raw parts: a buffer ticket (`data`, 0 for the null
/// buffer), its byte length and its capacity.  The zero-length buffer always
/// encodes as the null/zero/zero triple.
pub struct VecRawParts {
    pub data: u64,
    pub length: u32,
    pub capacity: u32,
}

impl Default for VecRawParts {
    /// The null triple.
    fn default() -> (r: Self)
        ensures
            r.data == 0,
            r.length == 0,
            r.capacity == 0,
    {
        VecRawParts { data: 0, length: 0, capacity: 0 }
    }
}

/// The buffers currently handed out to the caller, by ticket.  Ticket `d`
/// refers to slot `d - 1`; a slot is `None` once its buffer was reclaimed.
/// Slots are never reused, so a stale ticket is always detected.
pub struct BufferTable {
    pub bufs: Vec<Option<Vec<u8>>>,
}

impl View for BufferTable {
    type V = Seq<Option<Seq<u8>>>;

    open spec fn view(&self) -> Seq<Option<Seq<u8>>> {
        self.bufs@.map(|i: int, b: Option<Vec<u8>>| match b {
            Some(v) => Some(v@),
            None => None,
        })
    }
}

impl BufferTable {
    /// The triple refers to a live buffer of the table (or is the null triple).
    pub open spec fn holds(self, parts: VecRawParts) -> bool {
        if parts.capacity == 0 {
            parts.data == 0 && parts.length == 0
        } else {
            &&& 1 <= parts.data <= self@.len()
            &&& self@[parts.data - 1] matches Some(b) && b.len() == parts.length
            &&& parts.capacity == parts.length
        }
    }

    /// The bytes a triple stands for: the stored buffer, or the empty sequence
    /// for the null triple.
    pub open spec fn bytes_of(self, parts: VecRawParts) -> Seq<u8> {
        if parts.capacity == 0 {
            Seq::empty()
        } else {
            self@[parts.data - 1]->Some_0
        }
    }

    pub fn new() -> (r: BufferTable)
        ensures
            r@.len() == 0,
    {
        BufferTable { bufs: Vec::new() }
    }
}

/// Hand a buffer's ownership to the caller as a raw-parts triple.  An empty
/// buffer is encoded as the null/zero/zero triple and not retained.
pub fn to_raw_parts(table: &mut BufferTable, v: Vec<u8>) -> (parts: VecRawParts)
    requires
        v@.len() <= u32::MAX,
        old(table)@.len() + 1 < u64::MAX,
    ensures
        final(table).holds(parts),
        final(table).bytes_of(parts) == v@,
        parts.length == v@.len(),
        parts.capacity == parts.length,
        v@.len() == 0 ==> parts.data == 0 && parts.length == 0 && parts.capacity == 0
            && final(table)@ == old(table)@,
        v@.len() > 0 ==> final(table)@ == old(table)@.push(Some(v@))
            && parts.data == old(table)@.len() + 1,
        forall|p: VecRawParts| old(table).holds(p) ==> #[trigger] final(table).holds(p)
            && final(table).bytes_of(p) == old(table).bytes_of(p),
{
    if v.len() == 0 {
        VecRawParts { data: 0, length: 0, capacity: 0 }
    } else {
        let len = v.len() as u32;
        let ticket = (table.bufs.len() as u64) + 1;
        table.bufs.push(Some(v));
        VecRawParts { data: ticket, length: len, capacity: len }
    }
}

/// Reclaim a buffer previously handed out, reconstructing the exact bytes.
/// The null triple (capacity 0) is special-cased before anything else and
/// yields the empty buffer.
pub fn from_raw_parts(table: &mut BufferTable, parts: VecRawParts) -> (v: Vec<u8>)
    requires
        old(table).holds(parts),
    ensures
        v@ == old(table).bytes_of(parts),
        v@.len() == parts.length,
        parts.capacity == 0 ==> final(table)@ == old(table)@,
        parts.capacity != 0 ==> final(table)@ == old(table)@.update(parts.data - 1, None),
        forall|p: VecRawParts| old(table).holds(p) && p.data != parts.data
            ==> #[trigger] final(table).holds(p) && final(table).bytes_of(p) == old(
            table,
        ).bytes_of(p),
{
    if parts.capacity == 0 {
        Vec::new()
    } else {
        let n = table.bufs.len();
        assert(parts.data - 1 < n);
        let idx = (parts.data - 1) as usize;
        let mut slot: Option<Vec<u8>> = None;
        table.bufs.set_and_swap(idx, &mut slot);
        proof {
            assert(table@ =~= old(table)@.update(parts.data - 1, None));
        }
        slot.unwrap()
    }
}

/// Release a buffer previously handed out.  The null triple is a no-op; a
/// live triple releases its buffer; any other triple is refused.
pub fn free_vec(table: &mut BufferTable, parts: VecRawParts) -> (ok: bool)
    ensures
        parts.capacity == 0 ==> final(table)@ == old(table)@ && ok,
        parts.capacity != 0 && old(table).holds(parts) ==> ok
            && final(table)@ == old(table)@.update(parts.data - 1, None),
        parts.capacity != 0 && !old(table).holds(parts) ==> !ok
            && final(table)@ == old(table)@,
        forall|p: VecRawParts| old(table).holds(p) && p.data != parts.data
            ==> #[trigger] final(table).holds(p) && final(table).bytes_of(p) == old(
            table,
        ).bytes_of(p),
{
    if parts.capacity == 0 {
        return true;
    }
    let n = table.bufs.len();
    if parts.data == 0 || parts.data > n as u64 {
        return false;
    }
    let idx = (parts.data - 1) as usize;
    let matches_parts: bool = match &table.bufs[idx] {
        Some(b) => b.len() == parts.length as usize && parts.capacity == parts.length,
        None => false,
    };
    if matches_parts {
        table.bufs.set(idx, None);
        proof {
            assert(table@ =~= old(table)@.update(parts.data - 1, None));
        }
        true
    } else {
        false
    }
}

/// Pre-allocate a zero-filled buffer of `byte_length` bytes, written into the
/// caller-supplied out-parameter as a raw-parts triple.
pub fn init_vec(table: &mut BufferTable, byte_length: u32, out_raw_parts: &mut VecRawParts)
    requires
        old(table)@.len() + 1 < u64::MAX,
    ensures
        final(table).holds(*final(out_raw_parts)),
        final(table).bytes_of(*final(out_raw_parts)) == Seq::<u8>::new(
            byte_length as nat,
            |i: int| 0u8,
        ),
        final(out_raw_parts).length == byte_length,
        final(table)@.len() <= old(table)@.len() + 1,
        forall|p: VecRawParts| old(table).holds(p) ==> #[trigger] final(table).holds(p)
            && final(table).bytes_of(p) == old(table).bytes_of(p),
{
    let v: Vec<u8> = vec![0u8; byte_length as usize];
    proof {
        assert(v@ =~= Seq::<u8>::new(byte_length as nat, |i: int| 0u8));
    }
    let parts = to_raw_parts(table, v);
    *out_raw_parts = parts;
}

/// Relies on `core::str::from_utf8`: it succeeds exactly on well-formed
/// UTF-8.  Foreign text arrives as bytes; text that is required to be
/// well-formed is checked with this before use, and malformed text is a
/// checked error, never undefined behaviour.
#[verifier::external_body]
pub(crate) fn utf8_check(v: &Vec<u8>) -> (r: bool)
    ensures
        r == vstd::utf8::valid_utf8(v@),
{
    core::str::from_utf8(v.as_slice()).is_ok()
}

/// Byte-for-byte copy of a buffer.
pub fn copy_bytes(src: &Vec<u8>) -> (r: Vec<u8>)
    ensures
        r@ == src@,
{
    let mut r: Vec<u8> = Vec::new();
    let mut i: usize = 0;
    proof {
        assert(r@ =~= src@.subrange(0, 0));
    }
    while i < src.len()
        invariant
            i <= src@.len(),
            r@ == src@.subrange(0, i as int),
        decreases src@.len() - i,
    {
        r.push(src[i]);
        proof {
            assert(r@ =~= src@.subrange(0, i + 1));
        }
        i = i + 1;
    }
    proof {
        assert(r@ =~= src@);
    }
    r
}

/// Copy of the bytes of `src` from `from` (inclusive) to `to` (exclusive).
pub fn copy_range(src: &Vec<u8>, from: usize, to: usize) -> (r: Vec<u8>)
    requires
        from <= to <= src@.len(),
    ensures
        r@ == src@.subrange(from as int, to as int),
{
    let mut r: Vec<u8> = Vec::new();
    let mut i: usize = from;
    proof {
        assert(r@ =~= src@.subrange(from as int, from as int));
    }
    while i < to
        invariant
            from <= i <= to <= src@.len(),
            r@ == src@.subrange(from as int, i as int),
        decreases to - i,
    {
        r.push(src[i]);
        proof {
            assert(r@ =~= src@.subrange(from as int, i + 1));
        }
        i = i + 1;
    }
    r
}

/// Whether two buffers hold the same bytes.
pub fn bytes_eq(a: &Vec<u8>, b: &Vec<u8>) -> (r: bool)
    ensures
        r == (a@ == b@),
{
    if a.len() != b.len() {
        return false;
    }
    let mut i: usize = 0;
    while i < a.len()
        invariant
            i <= a@.len(),
            a@.len() == b@.len(),
            forall|j: int| 0 <= j < i ==> a@[j] == b@[j],
        decreases a@.len() - i,
    {
        if a[i] != b[i] {
            return false;
        }
        i = i + 1;
    }
    proof {
        assert(a@ =~= b@);
    }
    true
}

/// Append `src` to `dst` byte for byte.
pub fn append_bytes(dst: &mut Vec<u8>, src: &Vec<u8>)
    ensures
        final(dst)@ == old(dst)@ + src@,
{
    let mut i: usize = 0;
    proof {
        assert(dst@ =~= old(dst)@ + src@.subrange(0, 0));
    }
    while i < src.len()
        invariant
            i <= src@.len(),
            dst@ == old(dst)@ + src@.subrange(0, i as int),
        decreases src@.len() - i,
    {
        dst.push(src[i]);
        proof {
            assert(dst@ =~= old(dst)@ + src@.subrange(0, i + 1));
        }
        i = i + 1;
    }
    proof {
        assert(dst@ =~= old(dst)@ + src@);
    }
}

/// The buffer round trip is lossless: handing a buffer out with
/// `to_raw_parts` and reclaiming it with `from_raw_parts` yields the exact
/// bytes, for every byte sequence.
pub proof fn lemma_buffer_round_trip(table: BufferTable, v: Seq<u8>, table2: BufferTable, parts: VecRawParts)
    requires
        v.len() == 0 ==> parts.data == 0 && parts.length == 0 && parts.capacity == 0
            && table2@ == table@,
        v.len() > 0 ==> parts.data == table@.len() + 1 && parts.length == v.len()
            && parts.capacity == parts.length && table2@ == table@.push(Some(v)),
        parts.length == v.len(),
    ensures
        table2.holds(parts),
        table2.bytes_of(parts) == v,
{
}

} // verus!
