//! A global slot: a container that is materialized at most once per process
//! and whose contents, an optional value, may be replaced arbitrarily often
//! afterwards.
//!
//! The slot distinguishes "has this storage ever been created" (answered once,
//! never reversed) from "what value lives there right now" (answered per
//! call). The state is kept as an explicit enumeration: either the slot was
//! never touched, or it holds an optional value. Once it leaves the untouched
//! state it never returns to it; only the inner optional value toggles.

use vstd::prelude::*;

verus! {

/// Error reported when a one-time initialization is attempted twice.
///
/// The replace path never produces it: a `set` on an already materialized
/// slot falls back to replacing the contents in place, so in this sequential
/// core every operation returns `Ok`.
#[derive(Debug, PartialEq, Eq, Structural, Clone, Copy)]
pub enum SlotError {
    AlreadyInitialized,
}

enum SlotContents<T> {
    /// The slot has never been touched.
    Uninitialized,
    /// The slot was materialized; it currently holds this optional value.
    Holding(Option<T>),
}

/// A container holding at most one value of type `T`.
///
/// Its view is `Option<Option<T>>`: `None` while the slot has never been
/// touched, `Some(c)` once it was materialized with current contents `c`.
pub struct GlobalSlot<T> {
    state: SlotContents<T>,
}

impl<T> View for GlobalSlot<T> {
    type V = Option<Option<T>>;

    closed spec fn view(&self) -> Option<Option<T>> {
        match self.state {
            SlotContents::Uninitialized => None,
            SlotContents::Holding(c) => Some(c),
        }
    }
}

impl<T> GlobalSlot<T> {
    /// Creates a slot that has never been touched.
    pub fn new() -> (r: Self)
        ensures
            r@ is None,
    {
        GlobalSlot { state: SlotContents::Uninitialized }
    }

    /// Installs `value` as the slot's contents, replacing whatever was there.
    ///
    /// A slot that was never touched is materialized holding `value`
    /// directly; one that was is updated in place. Either way the slot ends
    /// up materialized with exactly `value` inside, and the call reports
    /// success: losing a first-initialization race is resolved by falling
    /// back to the replace path, never by failing the caller.
    pub fn set(&mut self, value: Option<T>) -> (r: Result<(), SlotError>)
        ensures
            r is Ok,
            final(self)@ == Some(value),
    {
        self.state = SlotContents::Holding(value);
        Ok(())
    }

    /// Returns a reference to the slot's contents if the slot was ever
    /// materialized, and nothing if it was never touched.
    ///
    /// After an explicit teardown (`set(None)`) the slot still reports
    /// itself present: the reference is returned and yields `None` inside.
    pub fn get(&self) -> (r: Option<&Option<T>>)
        ensures
            r is Some <==> self@ is Some,
            r matches Some(c) ==> self@ == Some(*c),
    {
        match &self.state {
            SlotContents::Uninitialized => None,
            SlotContents::Holding(c) => Some(c),
        }
    }
}

} // verus!
