//! Ownership slot for a native driver handle.
//!
//! Every wrapper object keeps its native handle in a [`HandleSlot`]: the
//! slot is filled exactly once at construction and emptied exactly once at
//! teardown, which makes a double release unprovable for verified callers
//! and observable (`None`) for tolerant ones.

use vstd::prelude::*;

verus! {

/// A native handle slot that can be emptied at most once.
#[derive(Clone, Copy, Debug, PartialEq, Eq, Structural)]
pub struct HandleSlot {
    /// The native handle, present until the owner releases it.
    pub handle: Option<u64>,
}

impl HandleSlot {
    /// The slot still owns its handle.
    pub open spec fn is_held(self) -> bool {
        self.handle is Some
    }

    /// The handle the slot owns; meaningful only while [`Self::is_held`].
    pub open spec fn raw(self) -> u64
        recommends
            self.is_held(),
    {
        self.handle->0
    }

    /// Wraps a freshly created native handle.
    pub fn new(handle: u64) -> (s: HandleSlot)
        ensures
            s.is_held(),
            s.raw() == handle,
    {
        HandleSlot { handle: Some(handle) }
    }

    /// Surrenders the handle for destruction. A verified caller can only
    /// do this once per slot.
    pub fn take(&mut self) -> (h: u64)
        requires
            old(self).is_held(),
        ensures
            !final(self).is_held(),
            h == old(self).raw(),
    {
        let h = self.handle.unwrap();
        self.handle = None;
        h
    }

    /// Surrenders the handle if it is still owned; a second call observes
    /// `None` instead of releasing anything twice.
    pub fn try_take(&mut self) -> (h: Option<u64>)
        ensures
            !final(self).is_held(),
            h == old(self).handle,
    {
        let h = self.handle;
        self.handle = None;
        h
    }

    /// Reads the handle without giving up ownership.
    pub fn peek(&self) -> (h: u64)
        requires
            self.is_held(),
        ensures
            h == self.raw(),
    {
        self.handle.unwrap()
    }
}

} // verus!
