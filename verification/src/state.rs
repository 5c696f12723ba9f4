//! What outlives a single request: the session to continue, and the handle
//! by which the request in flight can be cancelled.

use crate::text::{copy_text, text_of};
use vstd::prelude::*;

verus! {

/// The last session identifier that a run announced, if any.
#[derive(Debug)]
pub struct SessionStore {
    current: Option<String>,
}

impl View for SessionStore {
    type V = Option<Seq<char>>;

    closed spec fn view(&self) -> Option<Seq<char>> {
        text_of(self.current)
    }
}

impl SessionStore {
    /// A store that holds no session.
    pub fn new() -> (store: SessionStore)
        ensures
            store@ is None,
    {
        SessionStore { current: None }
    }

    /// The session held, if any.
    pub fn read(&self) -> (session: Option<String>)
        ensures
            text_of(session) == self@,
    {
        copy_text(&self.current)
    }

    /// Holds `session` from now on, in place of what was held.
    pub fn set(&mut self, session: String)
        ensures
            final(self)@ == Some(session@),
        no_unwind
    {
        self.current = Some(session);
    }

    /// Holds no session from now on.
    pub fn clear(&mut self)
        ensures
            final(self)@ is None,
        no_unwind
    {
        self.current = None;
    }
}

/// The place of the one handle by which the request in flight is cancelled.
/// A handle is the number under which the caller keeps the writable end of
/// the agent's input; to give a handle up is to close that end.
#[derive(Debug)]
pub struct CancellationSlot {
    current: Option<u64>,
}

impl View for CancellationSlot {
    type V = Option<u64>;

    closed spec fn view(&self) -> Option<u64> {
        self.current
    }
}

impl CancellationSlot {
    /// An empty slot.
    pub fn new() -> (slot: CancellationSlot)
        ensures
            slot@ is None,
    {
        CancellationSlot { current: None }
    }

    /// The handle held, if any.
    pub fn current(&self) -> (handle: Option<u64>)
        ensures
            handle == self@,
    {
        self.current
    }

    /// Puts `handle` into the slot. The handle that was there, if any, is
    /// handed back to be closed.
    pub fn install(&mut self, handle: u64) -> (displaced: Option<u64>)
        ensures
            final(self)@ == Some(handle),
            displaced == old(self)@,
        no_unwind
    {
        let displaced = self.current;
        self.current = Some(handle);
        displaced
    }

    /// Empties the slot. The handle that was there, if any, is handed back
    /// to be closed.
    pub fn release(&mut self) -> (released: Option<u64>)
        ensures
            final(self)@ is None,
            released == old(self)@,
        no_unwind
    {
        let released = self.current;
        self.current = None;
        released
    }
}

/// The mathematical value of a [`Coordinator`].
pub struct CoordinatorView {
    /// The session that the next query continues.
    pub session: Option<Seq<char>>,
    /// The handle of the request in flight.
    pub holder: Option<u64>,
    /// How many handles were issued so far; the next one bears this number.
    pub issued: nat,
}

impl CoordinatorView {
    /// The handle held was issued before.
    pub open spec fn well_formed(self) -> bool {
        self.holder matches Some(handle) ==> handle < self.issued
    }

    /// Whether a handle is left to issue.
    pub open spec fn can_install(self) -> bool {
        self.issued < u64::MAX
    }

    /// The state once the session is reset.
    pub open spec fn after_reset(self) -> CoordinatorView {
        CoordinatorView { session: None, ..self }
    }

    /// The state once the request in flight is cancelled.
    pub open spec fn after_cancel(self) -> CoordinatorView {
        CoordinatorView { holder: None, ..self }
    }

    /// The state once a fresh handle is issued and installed.
    pub open spec fn after_install(self) -> CoordinatorView {
        CoordinatorView { holder: Some(self.issued as u64), issued: self.issued + 1, ..self }
    }

    /// The state once the run that owns `handle` gives it up: the slot is
    /// emptied where it still holds that handle.
    pub open spec fn after_release_of(self, handle: Option<u64>) -> CoordinatorView {
        if handle is Some && self.holder == handle {
            CoordinatorView { holder: None, ..self }
        } else {
            self
        }
    }

    /// The state once a run that announced `observed` has succeeded.
    pub open spec fn after_success(self, observed: Option<Seq<char>>) -> CoordinatorView {
        match observed {
            Some(session) => CoordinatorView { session: Some(session), ..self },
            None => self,
        }
    }
}

/// The state that all requests share: the session store and the
/// cancellation slot, and the count of the handles issued.
#[derive(Debug)]
pub struct Coordinator {
    session: SessionStore,
    slot: CancellationSlot,
    issued: u64,
}

impl View for Coordinator {
    type V = CoordinatorView;

    closed spec fn view(&self) -> CoordinatorView {
        CoordinatorView { session: self.session@, holder: self.slot@, issued: self.issued as nat }
    }
}

impl Coordinator {
    #[verifier::type_invariant]
    spec fn valid(self) -> bool {
        self@.well_formed()
    }

    /// No session, no request in flight, no handle issued.
    pub fn new() -> (coordinator: Coordinator)
        ensures
            coordinator@ == (CoordinatorView { session: None, holder: None, issued: 0 }),
    {
        Coordinator { session: SessionStore::new(), slot: CancellationSlot::new(), issued: 0 }
    }

    /// The session that the next query continues, if any.
    pub fn current_session(&self) -> (session: Option<String>)
        ensures
            text_of(session) == self@.session,
    {
        self.session.read()
    }

    /// The handle of the request in flight, if any. It was issued before.
    pub fn current_handle(&self) -> (handle: Option<u64>)
        ensures
            handle == self@.holder,
            self@.well_formed(),
    {
        proof {
            use_type_invariant(self);
        }
        self.slot.current()
    }

    /// Forgets the session: the next query starts a new one.
    pub fn reset_session(&mut self)
        ensures
            final(self)@ == old(self)@.after_reset(),
    {
        proof {
            use_type_invariant(&*self);
        }
        self.session.clear();
    }

    /// Cancels the request in flight: its handle leaves the slot and is
    /// handed back to be closed. Without a request in flight nothing changes.
    pub fn cancel(&mut self) -> (released: Option<u64>)
        ensures
            final(self)@ == old(self)@.after_cancel(),
            released == old(self)@.holder,
    {
        proof {
            use_type_invariant(&*self);
        }
        self.slot.release()
    }

    /// Issues a fresh handle and installs it, where one is left to issue.
    /// The handle displaced, if any, is handed back to be closed.
    pub fn install(&mut self) -> (installed: Option<Installed>)
        ensures
            match installed {
                Some(i) => old(self)@.can_install() && final(self)@ == old(self)@.after_install()
                    && i.handle == old(self)@.issued && i.displaced == old(self)@.holder,
                None => !old(self)@.can_install() && final(self)@ == old(self)@,
            },
    {
        proof {
            use_type_invariant(&*self);
        }
        if self.issued == u64::MAX {
            return None;
        }
        let handle = self.issued;
        self.issued = handle + 1;
        let displaced = self.slot.install(handle);
        Some(Installed { handle, displaced })
    }

    /// Gives up `handle` where the slot still holds it, and says whether it
    /// did.
    pub fn release_of(&mut self, handle: Option<u64>) -> (released: bool)
        ensures
            final(self)@ == old(self)@.after_release_of(handle),
            released == (handle is Some && old(self)@.holder == handle),
    {
        proof {
            use_type_invariant(&*self);
        }
        match (handle, self.slot.current()) {
            (Some(mine), Some(held)) => {
                if mine == held {
                    self.slot.release();
                    true
                } else {
                    false
                }
            },
            _ => false,
        }
    }

    /// Keeps the session that a run announced, where it announced one.
    pub fn keep_session(&mut self, observed: Option<String>)
        ensures
            final(self)@ == old(self)@.after_success(text_of(observed)),
    {
        proof {
            use_type_invariant(&*self);
        }
        match observed {
            Some(session) => {
                self.session.set(session);
            },
            None => {},
        }
    }
}

/// What installing a handle gave.
#[derive(Debug, Clone, Copy, PartialEq, Eq)]
pub struct Installed {
    /// The handle under which the caller keeps the new input end.
    pub handle: u64,
    /// The handle that left the slot, to be closed.
    pub displaced: Option<u64>,
}

/// After a cancellation the slot is empty; the handle that the next request
/// installs is one that was never issued before, so it is not the one that
/// was cancelled.
pub proof fn law_cancelled_handle_not_reused(before: CoordinatorView)
    requires
        before.well_formed(),
        before.can_install(),
    ensures
        before.after_cancel().holder is None,
        before.after_cancel().after_install().well_formed(),
        before.after_cancel().after_install().holder == Some(before.issued as u64),
        before.after_cancel().after_install().holder != before.holder,
        forall|earlier: u64|
            earlier < before.issued ==> before.after_cancel().after_install().holder != Some(
                earlier,
            ),
{
}

/// The slot holds at most one handle: installing one displaces the one
/// before, and every step keeps the state well formed.
pub proof fn law_steps_keep_well_formed(before: CoordinatorView, handle: Option<u64>)
    requires
        before.well_formed(),
    ensures
        before.after_reset().well_formed(),
        before.after_cancel().well_formed(),
        before.can_install() ==> before.after_install().well_formed(),
        before.after_release_of(handle).well_formed(),
        forall|observed: Option<Seq<char>>| #[trigger]
            before.after_success(observed).well_formed(),
{
}

} // verus!
