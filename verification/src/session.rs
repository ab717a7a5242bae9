//! The session lifecycle: one live connection walks
//! `Connecting -> Authenticated -> Joined -> Closed`, and `Closed` is
//! terminal. The id is set at creation and the identity at authentication;
//! neither changes afterwards.

use vstd::prelude::*;

verus! {

/// Where a session stands in its lifecycle.
#[derive(Clone, Copy, PartialEq, Eq, Structural, Debug)]
pub enum SessionState {
    /// Connected, credential not yet accepted.
    Connecting,
    /// Credential accepted, not yet registered.
    Authenticated,
    /// Registered in the registry and receiving broadcasts.
    Joined,
    /// Terminal: the registry entry is gone and no operation is valid.
    Closed,
}

/// One live, authenticated interactive connection.
pub struct Session {
    /// Process-unique, assigned monotonically, never reused.
    pub session_id: u64,
    /// The authenticated username; empty until authentication succeeds.
    pub identity: Vec<u8>,
    /// Lifecycle state.
    pub state: SessionState,
}

impl Session {
    /// A fresh, unauthenticated session under the given id.
    pub fn connect(session_id: u64) -> (s: Session)
        ensures
            s.session_id == session_id,
            s.identity@ == Seq::<u8>::empty(),
            s.state is Connecting,
    {
        let identity: Vec<u8> = Vec::new();
        Session { session_id, identity, state: SessionState::Connecting }
    }

    /// `Connecting -> Authenticated`: the store accepted the credential and
    /// the identity is bound to the session, once and for all.
    pub fn accept_auth(&mut self, identity: Vec<u8>)
        requires
            old(self).state is Connecting,
        ensures
            final(self).session_id == old(self).session_id,
            final(self).identity@ == identity@,
            final(self).state is Authenticated,
    {
        self.identity = identity;
        self.state = SessionState::Authenticated;
    }
}

} // verus!
