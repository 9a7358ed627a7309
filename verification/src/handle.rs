//! The opaque handle: a single slot that the host holds without looking
//! inside, and releases at most once to effect.

use vstd::prelude::*;

verus! {

/// A slot that owns a guard until it is released. Once empty it stays empty.
pub struct OpaqueHandle<G> {
    slot: Option<G>,
}

impl<G> OpaqueHandle<G> {
    /// What the handle holds: the guard, or nothing once it was released.
    pub closed spec fn view(&self) -> Option<G> {
        self.slot
    }

    /// The handle after a release: empty, whatever it held.
    pub open spec fn released(self) -> OpaqueHandle<G> {
        OpaqueHandle::of(None)
    }

    /// The handle that holds `slot`.
    pub closed spec fn of(slot: Option<G>) -> OpaqueHandle<G> {
        OpaqueHandle { slot }
    }

    /// How many teardowns a release of this handle performs: one where it holds
    /// a guard, none where it is empty.
    pub open spec fn teardowns(self) -> nat {
        if self@ is Some {
            1
        } else {
            0
        }
    }

    /// A fresh handle that holds `value`.
    pub fn wrap(value: G) -> (handle: OpaqueHandle<G>)
        ensures
            handle@ == Some(value),
            handle == OpaqueHandle::of(Some(value)),
    {
        OpaqueHandle { slot: Some(value) }
    }

    /// A fresh handle around a slot that may already be empty.
    pub fn hold(slot: Option<G>) -> (handle: OpaqueHandle<G>)
        ensures
            handle@ == slot,
            handle == OpaqueHandle::of(slot),
    {
        OpaqueHandle { slot }
    }

    /// Whether the handle still holds its guard.
    pub fn is_held(&self) -> (held: bool)
        ensures
            held == (self@ is Some),
    {
        self.slot.is_some()
    }

    /// Empties the slot and hands out what it held.
    pub fn take(&mut self) -> (taken: Option<G>)
        ensures
            taken == old(self)@,
            *final(self) == old(self).released(),
            final(self)@ is None,
    {
        self.slot.take()
    }

    /// Releases the handle: empties the slot and lets what it held go out of
    /// scope. Says whether there was anything to tear down.
    pub fn take_and_drop(&mut self) -> (torn_down: bool)
        ensures
            torn_down == (old(self)@ is Some),
            *final(self) == old(self).released(),
            final(self)@ is None,
    {
        let taken = self.take();
        taken.is_some()
    }
}

/// The view of a handle is the slot it was made of.
pub proof fn lemma_view_of<G>(slot: Option<G>)
    ensures
        OpaqueHandle::of(slot)@ == slot,
{
}

/// Releasing twice is safe: the first release leaves the handle empty, the
/// second finds nothing and changes nothing, so over both releases at most
/// one teardown is performed.
pub proof fn lemma_release_is_idempotent<G>(handle: OpaqueHandle<G>)
    ensures
        handle.released()@ is None,
        handle.released().released() == handle.released(),
        handle.released().teardowns() == 0,
        handle.teardowns() + handle.released().teardowns() <= 1,
{
}

} // verus!
