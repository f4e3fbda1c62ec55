use vstd::prelude::*;

use std::collections::HashSet;

use crate::bridge::{bytes_of, unsigned_bytes, LoadResult};
use crate::message::{Message, WireMessage};
use crate::options::GfxLayer;

verus! {

broadcast use vstd::std_specs::hash::group_hash_axioms;

/// Where a session stands in its life. A session begins `Created`, becomes
/// `Active` once the engine is attached, and ends `Destroyed`.
#[derive(Copy, Clone, Debug, PartialEq, Eq, Structural)]
pub enum SessionState {
    Created,
    Active,
    Destroyed,
}

/// A failed session operation. Each names a misuse by the embedding code or
/// a setup failure, never a transient condition.
#[derive(Copy, Clone, Debug, PartialEq, Eq, Structural)]
pub enum SessionError {
    /// The window handle is null.
    InvalidHandle,
    /// The engine was attached a second time: to the session, or to a
    /// window that already has a live session.
    AlreadyAttached,
    /// A message was dispatched before the engine was attached.
    NotAttached,
    /// The session was used after its `Destroy` message.
    UsedAfterDestroy,
    /// A mouse message names a button outside the engine's protocol.
    InvalidMessage,
    /// A deferred load was completed that is not in flight.
    UnknownRequest { request_id: u64 },
    /// A deferred load was begun for a request id that is already in flight.
    DuplicateRequest { request_id: u64 },
    /// A window was released whose session is not destroyed.
    NotDestroyed,
}

/// The state a message leaves a session in, and what dispatching it answers.
pub open spec fn dispatch_step(state: SessionState, m: Message) -> (
    Result<WireMessage, SessionError>,
    SessionState,
) {
    match state {
        SessionState::Destroyed => (Err(SessionError::UsedAfterDestroy), state),
        SessionState::Created => (Err(SessionError::NotAttached), state),
        SessionState::Active => if !m.wf() {
            (Err(SessionError::InvalidMessage), state)
        } else if m is Destroy {
            (Ok(m.wire()), SessionState::Destroyed)
        } else {
            (Ok(m.wire()), state)
        },
    }
}

/// What completing request `id` answers when `pending` are in flight, and
/// the requests in flight afterwards.
pub open spec fn complete_step(pending: Set<u64>, id: u64) -> (Result<(), SessionError>, Set<u64>) {
    if pending.contains(id) {
        (Ok(()), pending.remove(id))
    } else {
        (Err(SessionError::UnknownRequest { request_id: id }), pending)
    }
}

/// What opening a session on `handle` answers when the windows `live` have
/// a session, and the windows with a session afterwards.
pub open spec fn create_step(live: Set<u64>, handle: u64) -> (Result<(), SessionError>, Set<u64>) {
    if handle == 0 {
        (Err(SessionError::InvalidHandle), live)
    } else if live.contains(handle) {
        (Err(SessionError::AlreadyAttached), live)
    } else {
        (Ok(()), live.insert(handle))
    }
}

/// The windows of a process that have a live session.
pub struct WindowRegistry {
    live: HashSet<u64>,
}

impl WindowRegistry {
    /// The handles of the windows with a live session.
    pub closed spec fn live(&self) -> Set<u64> {
        self.live@
    }

    /// No window has a session.
    pub fn new() -> (r: WindowRegistry)
        ensures
            r.live() == Set::<u64>::empty(),
    {
        WindowRegistry { live: HashSet::new() }
    }

    /// Whether the window `handle` has a live session.
    pub fn is_live(&self, handle: u64) -> (r: bool)
        ensures
            r == self.live().contains(handle),
    {
        self.live.contains(&handle)
    }

    /// Frees the window of a destroyed session for a new one. A session
    /// that is not destroyed keeps its window.
    pub fn release(&mut self, session: &Session) -> (r: Result<(), SessionError>)
        ensures
            session.spec_state() == SessionState::Destroyed ==> r is Ok && final(self).live()
                == old(self).live().remove(session.spec_handle()),
            session.spec_state() != SessionState::Destroyed ==> r == Err::<(), SessionError>(
                SessionError::NotDestroyed,
            ) && final(self).live() == old(self).live(),
    {
        if let SessionState::Destroyed = session.state {
            self.live.remove(&session.handle);
            Ok(())
        } else {
            Err(SessionError::NotDestroyed)
        }
    }
}

/// One engine window driven by a host: its handle, where it stands in its
/// life, and the deferred loads in flight on it.
pub struct Session {
    handle: u64,
    state: SessionState,
    pending: HashSet<u64>,
}

impl Session {
    /// The window handle that the session drives.
    pub closed spec fn spec_handle(&self) -> u64 {
        self.handle
    }

    /// Where the session stands in its life.
    pub closed spec fn spec_state(&self) -> SessionState {
        self.state
    }

    /// The request ids of the deferred loads in flight.
    pub closed spec fn pending(&self) -> Set<u64> {
        self.pending@
    }

    /// Opens a session on the window `handle`, and gives the message that
    /// creates the engine instance for it. The engine is not yet attached.
    /// A window has one session at a time: `windows` holds the handles with a
    /// live session, and a handle among them is refused.
    pub fn create(
        windows: &mut WindowRegistry,
        handle: u64,
        backend: GfxLayer,
        transparent: bool,
    ) -> (r: Result<(Session, WireMessage), SessionError>)
        ensures
            (r is Ok, final(windows).live()) == (
                create_step(old(windows).live(), handle).0 is Ok,
                create_step(old(windows).live(), handle).1,
            ),
            r is Err ==> r == Err::<(Session, WireMessage), SessionError>(
                create_step(old(windows).live(), handle).0->Err_0,
            ),
            r matches Ok((s, w)) ==> (s.spec_handle() == handle && s.spec_state()
                == SessionState::Created && s.pending() == Set::<u64>::empty()
                && w == (Message::Create { backend, transparent }).wire()),
    {
        if handle == 0 {
            return Err(SessionError::InvalidHandle);
        }
        if windows.live.contains(&handle) {
            return Err(SessionError::AlreadyAttached);
        }
        windows.live.insert(handle);
        let m = Message::create(backend, transparent);
        let s = Session { handle, state: SessionState::Created, pending: HashSet::new() };
        Ok((s, m.to_wire()))
    }

    /// The window handle that the session drives.
    pub fn handle(&self) -> (r: u64)
        ensures
            r == self.spec_handle(),
    {
        self.handle
    }

    /// Where the session stands in its life.
    pub fn state(&self) -> (r: SessionState)
        ensures
            r == self.spec_state(),
    {
        self.state
    }

    /// Records that the engine is attached. The engine is attached once.
    pub fn attach(&mut self) -> (r: Result<(), SessionError>)
        ensures
            final(self).spec_handle() == old(self).spec_handle(),
            final(self).pending() == old(self).pending(),
            old(self).spec_state() == SessionState::Created ==> r is Ok && final(self).spec_state()
                == SessionState::Active,
            old(self).spec_state() == SessionState::Active ==> r == Err::<(), SessionError>(
                SessionError::AlreadyAttached,
            ) && final(self).spec_state() == SessionState::Active,
            old(self).spec_state() == SessionState::Destroyed ==> r == Err::<(), SessionError>(
                SessionError::UsedAfterDestroy,
            ) && final(self).spec_state() == SessionState::Destroyed,
    {
        match self.state {
            SessionState::Created => {
                self.state = SessionState::Active;
                Ok(())
            },
            SessionState::Active => Err(SessionError::AlreadyAttached),
            SessionState::Destroyed => Err(SessionError::UsedAfterDestroy),
        }
    }

    /// Renders `m` for the engine. Messages go out one at a time, in the
    /// order they are dispatched; `Destroy` ends the session, and its
    /// deferred loads with it.
    pub fn dispatch(&mut self, m: &Message) -> (r: Result<WireMessage, SessionError>)
        ensures
            (r, final(self).spec_state()) == dispatch_step(old(self).spec_state(), *m),
            final(self).spec_handle() == old(self).spec_handle(),
            old(self).spec_state() == SessionState::Active && final(self).spec_state()
                == SessionState::Destroyed ==> final(self).pending() == Set::<u64>::empty(),
            !(old(self).spec_state() == SessionState::Active && final(self).spec_state()
                == SessionState::Destroyed) ==> final(self).pending() == old(self).pending(),
    {
        match self.state {
            SessionState::Destroyed => {
                return Err(SessionError::UsedAfterDestroy);
            },
            SessionState::Created => {
                return Err(SessionError::NotAttached);
            },
            SessionState::Active => {},
        }
        if !m.is_valid() {
            return Err(SessionError::InvalidMessage);
        }
        let w = m.to_wire();
        if let Message::Destroy = m {
            self.state = SessionState::Destroyed;
            self.pending = HashSet::new();
        }
        Ok(w)
    }

    /// Records how the host answered the engine's request `request_id`: an
    /// answer of `Delayed` puts the request in flight until it is completed.
    pub fn record_load(&mut self, request_id: u64, result: Option<LoadResult>) -> (r: Result<
        (),
        SessionError,
    >)
        ensures
            final(self).spec_handle() == old(self).spec_handle(),
            final(self).spec_state() == old(self).spec_state(),
            old(self).spec_state() == SessionState::Destroyed ==> r == Err::<(), SessionError>(
                SessionError::UsedAfterDestroy,
            ) && final(self).pending() == old(self).pending(),
            old(self).spec_state() != SessionState::Destroyed && result != Some(LoadResult::Delayed)
                ==> r is Ok && final(self).pending() == old(self).pending(),
            old(self).spec_state() != SessionState::Destroyed && result == Some(LoadResult::Delayed)
                && old(self).pending().contains(request_id) ==> r == Err::<(), SessionError>(
                SessionError::DuplicateRequest { request_id },
            ) && final(self).pending() == old(self).pending(),
            old(self).spec_state() != SessionState::Destroyed && result == Some(LoadResult::Delayed)
                && !old(self).pending().contains(request_id) ==> r is Ok && final(self).pending()
                == old(self).pending().insert(request_id),
    {
        if let SessionState::Destroyed = self.state {
            return Err(SessionError::UsedAfterDestroy);
        }
        if let Some(LoadResult::Delayed) = result {
            if self.pending.contains(&request_id) {
                return Err(SessionError::DuplicateRequest { request_id });
            }
            self.pending.insert(request_id);
        }
        Ok(())
    }

    /// Whether the load `request_id` is in flight.
    pub fn is_pending(&self, request_id: u64) -> (r: bool)
        ensures
            r == self.pending().contains(request_id),
    {
        self.pending.contains(&request_id)
    }

    /// Completes the deferred load `request_id` with `data`, giving the bytes
    /// to deliver to the engine. A request is completed once: completing one
    /// that is not in flight fails and changes nothing.
    pub fn complete(&mut self, request_id: u64, data: &[i8]) -> (r: Result<Vec<u8>, SessionError>)
        ensures
            final(self).spec_handle() == old(self).spec_handle(),
            final(self).spec_state() == old(self).spec_state(),
            (r is Ok, final(self).pending()) == (
                complete_step(old(self).pending(), request_id).0 is Ok,
                complete_step(old(self).pending(), request_id).1,
            ),
            r matches Ok(v) ==> v@ == bytes_of(data@),
            r is Err ==> r == Err::<Vec<u8>, SessionError>(
                SessionError::UnknownRequest { request_id },
            ),
    {
        if !self.pending.contains(&request_id) {
            return Err(SessionError::UnknownRequest { request_id });
        }
        self.pending.remove(&request_id);
        Ok(unsigned_bytes(data))
    }
}

/// Once a session is destroyed, every message is refused as a use after
/// destruction, and the session stays destroyed.
pub proof fn lemma_destroyed_refuses_all(m: Message)
    ensures
        dispatch_step(SessionState::Destroyed, m) == (
            Err::<WireMessage, SessionError>(SessionError::UsedAfterDestroy),
            SessionState::Destroyed,
        ),
{
}

/// Dispatching `Destroy` to an active session, then any message, answers
/// the second with a use after destruction.
pub proof fn lemma_destroy_then_any(m: Message)
    ensures
        dispatch_step(SessionState::Active, Message::Destroy).1 == SessionState::Destroyed,
        dispatch_step(dispatch_step(SessionState::Active, Message::Destroy).1, m).0 == Err::<
            WireMessage,
            SessionError,
        >(SessionError::UsedAfterDestroy),
{
}

/// A deferred load completes exactly once: its first completion succeeds and
/// takes it out of flight, and a second fails and changes nothing.
pub proof fn lemma_complete_once(pending: Set<u64>, id: u64)
    requires
        !pending.contains(id),
    ensures
        complete_step(pending.insert(id), id).0 is Ok,
        complete_step(pending.insert(id), id).1 == pending,
        complete_step(complete_step(pending.insert(id), id).1, id) == (
            Err::<(), SessionError>(SessionError::UnknownRequest { request_id: id }),
            complete_step(pending.insert(id), id).1,
        ),
{
    assert(pending.insert(id).remove(id) =~= pending);
}

/// A window has one session at a time: opening a second session on a window
/// whose session is live is refused, and changes nothing.
pub proof fn lemma_one_session_per_window(live: Set<u64>, handle: u64)
    requires
        create_step(live, handle).0 is Ok,
    ensures
        create_step(create_step(live, handle).1, handle) == (
            Err::<(), SessionError>(SessionError::AlreadyAttached),
            create_step(live, handle).1,
        ),
{
}

} // verus!
