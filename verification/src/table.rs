//! The typed handle table.
//!
//! Every bridge object the guest can reach — device records, opened device
//! handles, transfer records — lives in a table and is named by a `u32`
//! handle. Possessing the handle grants the capability. A handle stays bound
//! to the same record until the record is deleted; deleted handles are never
//! reissued, so a stale handle can never reach another guest's record.

use vstd::prelude::*;

verus! {

/// A table of records addressed by `u32` handles. A slot is `Some` while
/// its record is live and `None` once deleted.
pub struct Table<T> {
    slots: Vec<Option<T>>,
}

impl<T> Table<T> {
    /// The slot sequence: one entry per handle ever issued.
    pub closed spec fn view(&self) -> Seq<Option<T>> {
        self.slots@
    }

    /// True while `h` names a live record.
    pub open spec fn contains(&self, h: u32) -> bool {
        h < self@.len() && self@[h as int] is Some
    }

    /// The record `h` names.
    pub open spec fn at(&self, h: u32) -> T
        recommends
            self.contains(h),
    {
        self@[h as int]->Some_0
    }

    /// An empty table.
    pub fn new() -> (r: Table<T>)
        ensures
            r@ == Seq::<Option<T>>::empty(),
    {
        Table { slots: Vec::new() }
    }

    /// Insert a record and return its fresh handle.
    pub fn push(&mut self, value: T) -> (h: u32)
        requires
            old(self)@.len() < u32::MAX,
        ensures
            final(self)@ == old(self)@.push(Some(value)),
            h == old(self)@.len(),
            !old(self).contains(h) && final(self).contains(h),
            final(self).at(h) == value,
    {
        let h = self.slots.len() as u32;
        self.slots.push(Some(value));
        h
    }

    /// Borrow the record a live handle names.
    pub fn get(&self, h: u32) -> (r: &T)
        requires
            self.contains(h),
        ensures
            *r == self.at(h),
    {
        match &self.slots[h as usize] {
            Some(v) => v,
            None => unreached(),
        }
    }

    /// Borrow the record mutably; the table afterwards holds whatever the
    /// borrower made of it.
    pub fn get_mut(&mut self, h: u32) -> (r: &mut T)
        requires
            old(self).contains(h),
        ensures
            *r == old(self).at(h),
            final(self)@ == old(self)@.update(h as int, Some(*final(r))),
    {
        match &mut self.slots[h as usize] {
            Some(v) => v,
            None => unreached(),
        }
    }

    /// Delete a live record and take it out of the table. The handle is
    /// never reissued.
    pub fn delete(&mut self, h: u32) -> (r: T)
        requires
            old(self).contains(h),
        ensures
            final(self)@ == old(self)@.update(h as int, None),
            r == old(self).at(h),
            !final(self).contains(h),
    {
        let slot = &mut self.slots[h as usize];
        match slot.take() {
            Some(v) => v,
            None => unreached(),
        }
    }

    /// Whether `h` names a live record.
    pub fn has(&self, h: u32) -> (r: bool)
        ensures
            r == self.contains(h),
    {
        (h as usize) < self.slots.len() && self.slots[h as usize].is_some()
    }
}

} // verus!
