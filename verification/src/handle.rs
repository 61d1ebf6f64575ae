//! Opaque handle lifecycle.
//!
//! A handle is a non-zero ticket the caller treats as opaque; the value it
//! names lives in a `HandleTable`.  A value is unallocated until a
//! constructor inserts it, live while its slot is occupied, and freed once
//! the matching destructor empties the slot.  Slots are never reused, so a
//! double free or a use after free is detected and refused instead of being
//! undefined behaviour; freeing the null handle 0 is an explicit no-op.
//! The price of that stale-handle detection is that a freed slot stays
//! behind empty, so a table grows with the number of values ever created,
//! not with the number currently live.

use vstd::prelude::*;
use vstd::pervasive::VecAdditionalExecFns;

verus! {

pub struct HandleTable<T> {
    pub slots: Vec<Option<T>>,
}

impl<T> View for HandleTable<T> {
    type V = Seq<Option<T>>;

    open spec fn view(&self) -> Seq<Option<T>> {
        self.slots@
    }
}

impl<T> HandleTable<T> {
    /// Handle `h` names a live value.
    pub open spec fn live(self, h: u64) -> bool {
        1 <= h <= self@.len() && self@[h - 1] is Some
    }

    /// The value handle `h` names (meaningful only while `live(h)`).
    pub open spec fn value(self, h: u64) -> T
        recommends
            self.live(h),
    {
        self@[h - 1]->Some_0
    }

    /// Another insertion cannot overflow the ticket space.
    pub open spec fn can_insert(self) -> bool {
        self@.len() + 1 < u64::MAX
    }

    pub fn new() -> (r: HandleTable<T>)
        ensures
            r@.len() == 0,
    {
        HandleTable { slots: Vec::new() }
    }

    /// Move a value into the table: unallocated becomes live, and the fresh
    /// handle is returned.  Every previously live handle is untouched.
    pub fn insert(&mut self, v: T) -> (h: u64)
        requires
            old(self).can_insert(),
        ensures
            final(self)@ == old(self)@.push(Some(v)),
            h == old(self)@.len() + 1,
            h != 0,
            final(self).live(h),
            final(self).value(h) == v,
            forall|h2: u64| old(self).live(h2) ==> #[trigger] final(self).live(h2)
                && final(self).value(h2) == old(self).value(h2),
            !old(self).live(h),
    {
        let h = (self.slots.len() as u64) + 1;
        self.slots.push(Some(v));
        h
    }

    /// Borrow the value a live handle names, read-only, scoped to the call.
    pub fn get(&self, h: u64) -> (r: &T)
        requires
            self.live(h),
        ensures
            *r == self.value(h),
    {
        let n = self.slots.len();
        assert(h - 1 < n);
        let idx = (h - 1) as usize;
        self.slots[idx].as_ref().unwrap()
    }

    /// Whether `h` names a live value.
    pub fn is_live(&self, h: u64) -> (r: bool)
        ensures
            r == self.live(h),
    {
        let n = self.slots.len();
        if h == 0 || h > n as u64 {
            return false;
        }
        let idx = (h - 1) as usize;
        self.slots[idx].is_some()
    }

    /// The single matching destructor call: live becomes freed.  The null
    /// handle is a no-op that succeeds; a handle that is not live (already
    /// freed, or never allocated) is refused, and nothing changes.
    pub fn free(&mut self, h: u64) -> (ok: bool)
        ensures
            h == 0 ==> ok && final(self)@ == old(self)@,
            h != 0 && old(self).live(h) ==> ok
                && final(self)@ == old(self)@.update(h - 1, None)
                && !final(self).live(h),
            h != 0 && !old(self).live(h) ==> !ok && final(self)@ == old(self)@,
            forall|h2: u64| h2 != h && old(self).live(h2) ==> #[trigger] final(self).live(h2)
                && final(self).value(h2) == old(self).value(h2),
    {
        if h == 0 {
            return true;
        }
        let n = self.slots.len();
        if h > n as u64 {
            return false;
        }
        let idx = (h - 1) as usize;
        if self.slots[idx].is_some() {
            self.slots.set(idx, None);
            true
        } else {
            false
        }
    }
}

} // verus!
