//! The session-state binder: attaching plugin-defined state to an opaque
//! host-owned session handle and retrieving it on later callbacks.
//!
//! The host stores, inside each session handle, one untyped pointer-sized
//! attachment slot for the plugin's use; it never interprets what the plugin
//! writes there.  This module models that slot as [`AttachmentSlot`]: the
//! wrapper the plugin parks in the slot, together with the reference count
//! that keeps it alive.  Every operation's contract says that it performs
//! exactly one step of the [`crate::lifecycle`] transition system, so the
//! lifecycle lemmas (no premature free, exactly-once destruction) apply to
//! every interleaving of these operations.
//!
//! The raw pointer writes and casts that realize this model inside the host's
//! memory live outside the verified library; they carry no logic beyond the
//! conversions.

use vstd::prelude::*;

use crate::lifecycle::LifecycleState;
use crate::lifecycle::SessionEvent;
use crate::lifecycle::inv;
use crate::lifecycle::step;

verus! {

/// Session state bound to one opaque host handle.  Exactly one wrapper
/// exists per session; it is never moved once attached and is shared by
/// reference until the last ownership unit is given back.
pub struct SessionHandle<T> {
    /// Identity of the host handle this wrapper is bound to: the address of
    /// the host-owned structure, opaque to the plugin.
    pub handle: u64,
    state: T,
}

impl<T> SessionHandle<T> {
    /// Identity of the host handle this wrapper is bound to.
    pub closed spec fn handle_id(self) -> u64 {
        self.handle
    }
}

impl<T> View for SessionHandle<T> {
    type V = T;

    /// A wrapper is viewed as the session state it carries.
    closed spec fn view(&self) -> T {
        self.state
    }
}

/// The plugin's model of one host session handle: the attachment slot the
/// host reserves for the plugin, together with the reference count that
/// governs the attached wrapper's lifetime.
pub struct AttachmentSlot<T> {
    wrapper: Option<SessionHandle<T>>,
    established: bool,
    persistent: bool,
    borrows: u64,
    freed: bool,
}

impl<T> AttachmentSlot<T> {
    /// The slot's position in the attachment lifecycle.
    pub closed spec fn lifecycle(self) -> LifecycleState {
        LifecycleState {
            established: self.established,
            persistent: self.persistent,
            borrows: self.borrows as nat,
            freed: self.freed,
        }
    }

    /// The wrapper currently parked in the slot, if any.
    pub closed spec fn attachment(self) -> Option<SessionHandle<T>> {
        self.wrapper
    }

    /// Internal coherence: the wrapper is present exactly from establishment
    /// until destruction, and the lifecycle invariant holds.
    pub closed spec fn wf(self) -> bool {
        &&& self.wrapper is Some <==> self.established && !self.freed
        &&& inv(self.lifecycle())
    }

    /// A host handle as first seen: the attachment slot is unset.
    pub fn new() -> (s: Self)
        ensures
            s.wf(),
            s.lifecycle() == LifecycleState::initial(),
            s.attachment() is None,
    {
        AttachmentSlot { wrapper: None, established: false, persistent: false, borrows: 0, freed: false }
    }

    /// Whether state is currently attached and not yet torn down.
    pub fn is_attached(&self) -> (r: bool)
        ensures
            r == self.lifecycle().attached(),
    {
        self.established && self.persistent
    }

    /// Take one counted borrow of the attached wrapper, as a callback does
    /// when it keeps a shared reference for the duration of its call.
    pub fn acquire(&mut self)
        requires
            old(self).wf(),
            old(self).lifecycle().attached(),
            old(self).lifecycle().borrows < u64::MAX,
        ensures
            final(self).wf(),
            final(self).lifecycle() == step(old(self).lifecycle(), SessionEvent::Acquire),
            final(self).attachment() == old(self).attachment(),
    {
        self.borrows = self.borrows + 1;
    }

    /// Give back one counted borrow.  If it was the last outstanding
    /// ownership unit, the wrapper is detached and handed to the caller for
    /// destruction; the lifecycle lemmas show this happens exactly once.
    pub fn release(&mut self) -> (r: Option<SessionHandle<T>>)
        requires
            old(self).wf(),
            old(self).lifecycle().borrows > 0,
        ensures
            final(self).wf(),
            final(self).lifecycle() == step(old(self).lifecycle(), SessionEvent::Release),
            final(self).lifecycle().freed ==> r == old(self).attachment() && final(self).attachment() is None,
            !final(self).lifecycle().freed ==> r is None && final(self).attachment() == old(self).attachment(),
    {
        self.borrows = self.borrows - 1;
        if self.borrows == 0 && !self.persistent {
            self.freed = true;
            self.wrapper.take()
        } else {
            None
        }
    }

    /// Reclaim the persistent ownership unit when the host signals that the
    /// session is permanently gone.  If no borrow is still outstanding, the
    /// wrapper is detached and handed to the caller for destruction.
    pub fn teardown(&mut self) -> (r: Option<SessionHandle<T>>)
        requires
            old(self).wf(),
            old(self).lifecycle().attached(),
        ensures
            final(self).wf(),
            final(self).lifecycle() == step(old(self).lifecycle(), SessionEvent::Teardown),
            final(self).lifecycle().freed ==> r == old(self).attachment() && final(self).attachment() is None,
            !final(self).lifecycle().freed ==> r is None && final(self).attachment() == old(self).attachment(),
    {
        self.persistent = false;
        if self.borrows == 0 {
            self.freed = true;
            self.wrapper.take()
        } else {
            None
        }
    }

    /// Replace the session state, as a callback does when it mutates the
    /// state it retrieved; the old state is returned.  A later retrieval on
    /// the same handle sees the new state.
    pub fn set_state(&mut self, state: T) -> (prev: T)
        requires
            old(self).wf(),
            old(self).lifecycle().established,
            !old(self).lifecycle().freed,
        ensures
            final(self).wf(),
            final(self).lifecycle() == old(self).lifecycle(),
            final(self).attachment() is Some,
            final(self).attachment().unwrap()@ == state,
            final(self).attachment().unwrap().handle_id() == old(self).attachment().unwrap().handle_id(),
            prev == old(self).attachment().unwrap()@,
    {
        match self.wrapper.take() {
            Some(w) => {
                let SessionHandle { handle, state: prev } = w;
                self.wrapper = Some(SessionHandle { handle, state });
                prev
            },
            None => vstd::pervasive::unreached(),
        }
    }
}

/// A well-formed slot's lifecycle state satisfies the lifecycle invariant,
/// so the lifecycle lemmas — no premature free, exactly-once destruction —
/// apply to any sequence of operations on it.
pub proof fn lemma_wf_implies_inv<T>(slot: AttachmentSlot<T>)
    requires
        slot.wf(),
    ensures
        inv(slot.lifecycle()),
{
}

impl<T> SessionHandle<T> {
    /// Allocate the wrapper for a new session and park it in the handle's
    /// attachment slot.  The slot must be unset: the host guarantees it is
    /// zeroed when the session is new, and attaching twice is a contract
    /// violation.  Establishing creates the persistent ownership unit that
    /// only [`AttachmentSlot::teardown`] reclaims.
    pub fn establish(slot: &mut AttachmentSlot<T>, handle: u64, state: T)
        requires
            old(slot).wf(),
            !old(slot).lifecycle().established,
        ensures
            final(slot).wf(),
            final(slot).lifecycle() == step(old(slot).lifecycle(), SessionEvent::Establish),
            final(slot).attachment() is Some,
            final(slot).attachment().unwrap().handle_id() == handle,
            final(slot).attachment().unwrap()@ == state,
    {
        slot.wrapper = Some(SessionHandle { handle, state });
        slot.established = true;
        slot.persistent = true;
        slot.borrows = 0;
        slot.freed = false;
    }

    /// Retrieve the wrapper parked in a handle's attachment slot.  Valid only
    /// between establishment and destruction — calling it on a handle that
    /// was never established, or whose wrapper has been destroyed, violates
    /// the host lifecycle contract and is ruled out by the precondition, not
    /// checked at run time.  Never allocates, never blocks.
    pub fn from_ptr<'a>(slot: &'a AttachmentSlot<T>) -> (r: &'a SessionHandle<T>)
        requires
            slot.wf(),
            slot.lifecycle().established,
            !slot.lifecycle().freed,
        ensures
            *r == slot.attachment().unwrap(),
    {
        match &slot.wrapper {
            Some(w) => w,
            None => vstd::pervasive::unreached(),
        }
    }

    /// Read access to the session state the wrapper carries.
    pub fn state(&self) -> (r: &T)
        ensures
            *r == self@,
    {
        &self.state
    }
}

} // verus!
