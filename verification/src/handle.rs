//! Process-wide slot for the connected backend client: empty at first,
//! populated exactly once when bootstrap succeeds, read by every handler
//! afterwards.  A second write is refused and leaves the slot unchanged.

use vstd::prelude::*;

verus! {

/// Single-writer, multi-reader slot for a connected client handle.
pub struct SharedHandle<T> {
    slot: Option<T>,
}

impl<T> SharedHandle<T> {
    /// What the slot holds.
    pub closed spec fn contents(&self) -> Option<T> {
        self.slot
    }

    /// The empty slot, before bootstrap has run.
    pub fn new() -> (r: SharedHandle<T>)
        ensures
            r.contents() is None,
    {
        SharedHandle { slot: None }
    }

    /// Whether bootstrap has populated the slot.
    pub fn is_populated(&self) -> (r: bool)
        ensures
            r <==> self.contents() is Some,
    {
        self.slot.is_some()
    }

    /// Populate the slot.  True when the slot was empty and now holds the
    /// value; a second write is refused and changes nothing.
    pub fn populate(&mut self, value: T) -> (r: bool)
        ensures
            old(self).contents() is None ==> (r && final(self).contents() == Some(value)),
            old(self).contents() is Some ==> (!r && final(self).contents() == old(
                self,
            ).contents()),
    {
        match self.slot {
            None => {
                self.slot = Some(value);
                true
            },
            Some(_) => false,
        }
    }

    /// Read the populated handle; `None` only before bootstrap completed,
    /// which no handler should ever see.
    pub fn get(&self) -> (r: Option<&T>)
        ensures
            r matches Some(v) ==> self.contents() == Some(*v),
            r is None <==> self.contents() is None,
    {
        self.slot.as_ref()
    }
}

} // verus!
