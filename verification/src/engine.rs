//! The chat engine: drives the session lifecycle against the registry and
//! turns each event into the actions the transport and store layers must
//! perform, in order. Persistence actions precede broadcast sends, so a
//! message reaches the durable log before its live fan-out begins.

use vstd::prelude::*;
use crate::command::{
    classify, help_text, help_text_vec, help_token, interrupt_seq, quit_token, Command,
};
use crate::line::{
    chat_line, clone_bytes, joined_line, left_line, render_chat_line, render_joined_line,
    render_left_line, trimmed,
};
use crate::registry::{Entry, Registry};
use crate::session::{Session, SessionState};

verus! {

/// One side effect the engine asks its caller to perform.
pub enum Action {
    /// Push `line` to the sink of session `session_id`; a failed send is
    /// swallowed at that sink and aborts nothing else.
    Send { session_id: u64, line: Vec<u8> },
    /// Append a chat message to the durable store; failure is logged and
    /// the following sends still go out.
    Append { identity: Vec<u8>, content: Vec<u8> },
    /// Close the connection of session `session_id`.
    Disconnect { session_id: u64 },
}

pub open spec fn is_send_to(a: Action, sid: u64, l: Seq<u8>) -> bool {
    a matches Action::Send { session_id, line } && session_id == sid && line@ == l
}

pub open spec fn is_append_of(a: Action, id: Seq<u8>, c: Seq<u8>) -> bool {
    a matches Action::Append { identity, content } && identity@ == id && content@ == c
}

pub open spec fn is_disconnect_of(a: Action, sid: u64) -> bool {
    a matches Action::Disconnect { session_id } && session_id == sid
}

/// One `Send` of `line` per registered row, in row order.
pub open spec fn fanout_ok(acts: Seq<Action>, es: Seq<Entry>, line: Seq<u8>) -> bool {
    &&& acts.len() == es.len()
    &&& forall|i: int| 0 <= i < es.len() ==> is_send_to(acts[i], es[i].session_id, line)
}

/// The inputs that close the session: the interrupt byte or `"/quit"`.
pub open spec fn quits(data: Seq<u8>) -> bool {
    data == interrupt_seq() || trimmed(data) == quit_token()
}

/// The inputs that become chat content: everything that neither quits nor
/// is blank nor asks for help.
pub open spec fn chat_input(data: Seq<u8>) -> bool {
    &&& !quits(data)
    &&& trimmed(data).len() > 0
    &&& trimmed(data) != help_token()
}

/// The multi-session chat engine: the registry of joined sessions and the
/// monotone session id counter.
pub struct Engine {
    /// The one table shared by all sessions.
    pub registry: Registry,
    /// The id the next session will get; only the engine advances it.
    pub next_id: u64,
}

impl Engine {
    /// The id the next session will get; every registered id is below it.
    pub open spec fn next_session_id(&self) -> u64 {
        self.next_id
    }

    /// Well-formed: unique registry ids, all below the id counter.
    pub open spec fn wf(&self) -> bool {
        &&& self.registry.wf()
        &&& forall|sid: u64|
            self.registry.as_map().contains_key(sid) ==> sid < self.next_session_id()
    }

    /// An engine with no sessions.
    pub fn new() -> (r: Engine)
        ensures
            r.wf(),
            r.registry.rows() == Seq::<Entry>::empty(),
            r.registry.as_map() == Map::<u64, Seq<u8>>::empty(),
            r.next_session_id() == 1,
    {
        Engine { registry: Registry::new(), next_id: 1 }
    }

    /// A new connection gets the next id, never one seen before, and starts
    /// unauthenticated and outside the registry.
    pub fn new_session(&mut self) -> (s: Session)
        requires
            old(self).wf(),
            old(self).next_session_id() < u64::MAX,
        ensures
            final(self).wf(),
            s.session_id == old(self).next_session_id(),
            s.state is Connecting,
            s.identity@ == Seq::<u8>::empty(),
            final(self).next_session_id() == old(self).next_session_id() + 1,
            final(self).registry == old(self).registry,
            !final(self).registry.as_map().contains_key(s.session_id),
    {
        let sid = self.next_id;
        self.next_id = self.next_id + 1;
        proof {
            if self.registry.as_map().contains_key(sid) {
                assert(sid < sid);
            }
        }
        Session::connect(sid)
    }

    /// Fans a rendered line out: one send per registered session, in row
    /// order, so two broadcasts by one cause reach every sink in the same
    /// relative order.
    pub fn broadcast(&self, line: &Vec<u8>) -> (r: Vec<Action>)
        ensures
            fanout_ok(r@, self.registry.rows(), line@),
    {
        let mut r: Vec<Action> = Vec::new();
        let n = self.registry.len();
        let mut k: usize = 0;
        while k < n
            invariant
                0 <= k <= n,
                n == self.registry.rows().len(),
                r@.len() == k,
                forall|i: int|
                    0 <= i < k ==> is_send_to(
                        r@[i],
                        self.registry.rows()[i].session_id,
                        line@,
                    ),
            decreases n - k,
        {
            let sid = self.registry.entry_id_at(k);
            r.push(Action::Send { session_id: sid, line: clone_bytes(line) });
            k = k + 1;
        }
        r
    }

    /// `Authenticated -> Joined`: registers the session, replays the given
    /// history lines to its own sink in their given order, then announces
    /// the arrival to every registered session, the new one included.
    pub fn join(&mut self, s: &mut Session, history: &Vec<Vec<u8>>) -> (r: Vec<Action>)
        requires
            old(self).wf(),
            old(s).state is Authenticated,
            old(s).session_id < old(self).next_session_id(),
            !old(self).registry.as_map().contains_key(old(s).session_id),
        ensures
            final(self).wf(),
            final(s).session_id == old(s).session_id,
            final(s).identity@ == old(s).identity@,
            final(s).state is Joined,
            final(self).next_session_id() == old(self).next_session_id(),
            final(self).registry.as_map() == old(self).registry.as_map().insert(
                old(s).session_id,
                old(s).identity@,
            ),
            final(self).registry.rows().len() == old(self).registry.rows().len() + 1,
            forall|i: int|
                0 <= i < old(self).registry.rows().len() ==> final(self).registry.rows()[i]
                    == old(self).registry.rows()[i],
            final(self).registry.rows().last().session_id == old(s).session_id,
            final(self).registry.rows().last().identity@ == old(s).identity@,
            r@.len() == history@.len() + final(self).registry.rows().len(),
            forall|i: int|
                0 <= i < history@.len() ==> is_send_to(r@[i], old(s).session_id, history@[i]@),
            forall|i: int|
                0 <= i < final(self).registry.rows().len() ==> is_send_to(
                    r@[history@.len() + i],
                    final(self).registry.rows()[i].session_id,
                    joined_line(old(s).identity@),
                ),
    {
        let sid = s.session_id;
        let mut r: Vec<Action> = Vec::new();
        let hn = history.len();
        let mut k: usize = 0;
        while k < hn
            invariant
                0 <= k <= hn,
                hn == history@.len(),
                r@.len() == k,
                forall|i: int| 0 <= i < k ==> is_send_to(r@[i], sid, history@[i]@),
            decreases hn - k,
        {
            r.push(Action::Send { session_id: sid, line: clone_bytes(&history[k]) });
            k = k + 1;
        }
        let ident = clone_bytes(&s.identity);
        self.registry.insert(sid, ident);
        s.state = SessionState::Joined;
        proof {
            assert forall|sid2: u64|
                self.registry.as_map().contains_key(sid2) implies sid2
                < self.next_session_id() by {
                if sid2 != sid {
                    assert(old(self).registry.as_map().contains_key(sid2));
                }
            }
        }
        let jl = render_joined_line(&s.identity);
        let ghost jline = jl@;
        let n = self.registry.len();
        let mut k2: usize = 0;
        while k2 < n
            invariant
                0 <= k2 <= n,
                n == self.registry.rows().len(),
                hn == history@.len(),
                r@.len() == hn + k2,
                jl@ == jline,
                forall|i: int| 0 <= i < hn ==> is_send_to(r@[i], sid, history@[i]@),
                forall|i: int|
                    0 <= i < k2 ==> is_send_to(
                        r@[hn + i],
                        self.registry.rows()[i].session_id,
                        jline,
                    ),
            decreases n - k2,
        {
            let rid = self.registry.entry_id_at(k2);
            r.push(Action::Send { session_id: rid, line: clone_bytes(&jl) });
            k2 = k2 + 1;
        }
        r
    }

    /// Interprets one line of input from a joined session: a quit or the
    /// interrupt byte asks for a disconnect; blank input does nothing; a
    /// help request is answered on the issuing session's own sink only; any
    /// other line becomes a chat message, handed to the store before it is
    /// fanned out to every registered session.
    pub fn handle_line(&self, s: &Session, data: &Vec<u8>) -> (r: Vec<Action>)
        requires
            s.state is Joined,
        ensures
            quits(data@) ==> r@.len() == 1 && is_disconnect_of(r@[0], s.session_id),
            (!quits(data@) && trimmed(data@).len() == 0) ==> r@.len() == 0,
            (!quits(data@) && trimmed(data@) == help_token()) ==> {
                &&& self.registry.as_map().contains_key(s.session_id) ==> r@.len() == 1
                    && is_send_to(r@[0], s.session_id, help_text())
                &&& !self.registry.as_map().contains_key(s.session_id) ==> r@.len() == 0
            },
            chat_input(data@) ==> {
                &&& r@.len() == 1 + self.registry.rows().len()
                &&& is_append_of(r@[0], s.identity@, trimmed(data@))
                &&& forall|i: int|
                    0 <= i < self.registry.rows().len() ==> is_send_to(
                        r@[1 + i],
                        self.registry.rows()[i].session_id,
                        chat_line(s.identity@, trimmed(data@)),
                    )
            },
    {
        let c = classify(data);
        match c {
            Command::Interrupt | Command::Quit => {
                let mut r: Vec<Action> = Vec::new();
                r.push(Action::Disconnect { session_id: s.session_id });
                r
            },
            Command::Empty => {
                proof {
                    assert(quit_token().len() == 5);
                }
                Vec::new()
            },
            Command::Help => {
                proof {
                    assert(help_token()[1] != quit_token()[1]);
                }
                let mut r: Vec<Action> = Vec::new();
                if self.registry.contains(s.session_id) {
                    r.push(Action::Send { session_id: s.session_id, line: help_text_vec() });
                }
                r
            },
            Command::Chat(content) => {
                let mut r: Vec<Action> = Vec::new();
                r.push(Action::Append {
                    identity: clone_bytes(&s.identity),
                    content: clone_bytes(&content),
                });
                let line = render_chat_line(&s.identity, &content);
                let ghost cline = line@;
                let n = self.registry.len();
                let mut k: usize = 0;
                while k < n
                    invariant
                        0 <= k <= n,
                        n == self.registry.rows().len(),
                        r@.len() == 1 + k,
                        line@ == cline,
                        is_append_of(r@[0], s.identity@, content@),
                        cline == chat_line(s.identity@, content@),
                        forall|i: int|
                            0 <= i < k ==> is_send_to(
                                r@[1 + i],
                                self.registry.rows()[i].session_id,
                                cline,
                            ),
                    decreases n - k,
                {
                    let rid = self.registry.entry_id_at(k);
                    r.push(Action::Send { session_id: rid, line: clone_bytes(&line) });
                    k = k + 1;
                }
                r
            },
        }
    }

    /// `Joined -> Closed`: removes the session's own entry and announces
    /// the departure to the remaining sessions. On a session that is not
    /// joined — already closed, or never admitted — nothing happens beyond
    /// the state settling on `Closed`: closing twice broadcasts nothing.
    pub fn close_session(&mut self, s: &mut Session) -> (r: Vec<Action>)
        requires
            old(self).wf(),
        ensures
            final(self).wf(),
            final(s).session_id == old(s).session_id,
            final(s).identity@ == old(s).identity@,
            final(s).state is Closed,
            final(self).next_session_id() == old(self).next_session_id(),
            old(s).state is Joined ==> final(self).registry.as_map()
                == old(self).registry.as_map().remove(old(s).session_id),
            old(s).state is Joined ==> fanout_ok(
                r@,
                final(self).registry.rows(),
                left_line(old(s).identity@),
            ),
            !(old(s).state is Joined) ==> *final(self) == *old(self) && r@.len() == 0,
    {
        if s.state == SessionState::Joined {
            self.registry.remove(s.session_id);
            s.state = SessionState::Closed;
            proof {
                assert forall|sid2: u64|
                    self.registry.as_map().contains_key(sid2) implies sid2
                    < self.next_session_id() by {
                    assert(old(self).registry.as_map().contains_key(sid2));
                }
            }
            let ll = render_left_line(&s.identity);
            self.broadcast(&ll)
        } else {
            s.state = SessionState::Closed;
            Vec::new()
        }
    }
}

} // verus!
