//! The durable store: credentials and the append-only message log, held in
//! sqlite through rusqlite. Every answer depends on what is on disk, so the
//! wrappers promise nothing of their results; the verified callers state
//! what follows from each possible answer.

use vstd::prelude::*;
use crate::history::replay_window;
use crate::line::clone_bytes;
use crate::session::Session;

verus! {

/// rusqlite's connection handle, declared so it can stand in a field; its
/// values are opaque to the verifier.
#[verifier::external_type_specification]
#[verifier::external_body]
pub struct ExConnection(rusqlite::Connection);

/// The credential and message store, behind one sqlite connection. The web
/// front-end shares the same tables as a store co-tenant.
pub struct Store {
    conn: rusqlite::Connection,
}

impl Store {
    /// Wraps an open connection whose `users` and `messages` tables exist.
    pub fn new(conn: rusqlite::Connection) -> (r: Store) {
        Store { conn }
    }

    /// Relies on rusqlite's `Connection::query_row` over
    /// `SELECT id FROM users WHERE username=?1 AND password=?2`: `Some(id)`
    /// exactly when a stored row matched both fields.
    #[verifier::external_body]
    fn query_credential(&self, user: &Vec<u8>, pass: &Vec<u8>) -> (r: Option<i64>) {
        let u = String::from_utf8_lossy(user).into_owned();
        let p = String::from_utf8_lossy(pass).into_owned();
        self.conn.query_row(
            "SELECT id FROM users WHERE username=?1 AND password=?2",
            (u, p),
            |row| row.get::<_, i64>(0),
        ).ok()
    }

    /// Relies on rusqlite's `Connection::query_row` over
    /// `SELECT id FROM users WHERE username=?1`.
    #[verifier::external_body]
    fn query_user_id(&self, user: &Vec<u8>) -> (r: Option<i64>) {
        let u = String::from_utf8_lossy(user).into_owned();
        self.conn.query_row(
            "SELECT id FROM users WHERE username=?1",
            (u,),
            |row| row.get::<_, i64>(0),
        ).ok()
    }

    /// Relies on rusqlite's `Connection::execute` over
    /// `INSERT INTO users (username, password) VALUES (?1, ?2)`; a duplicate
    /// username fails the table's UNIQUE constraint.
    #[verifier::external_body]
    fn exec_insert_user(&self, user: &Vec<u8>, pass: &Vec<u8>) -> (r: bool) {
        let u = String::from_utf8_lossy(user).into_owned();
        let p = String::from_utf8_lossy(pass).into_owned();
        self.conn.execute(
            "INSERT INTO users (username, password) VALUES (?1, ?2)",
            (u, p),
        ).is_ok()
    }

    /// Relies on rusqlite's `Connection::execute` over
    /// `INSERT INTO messages (user_id, content) VALUES (?1, ?2)`.
    #[verifier::external_body]
    fn exec_insert_message(&self, user_id: i64, content: &Vec<u8>) -> (r: bool) {
        let c = String::from_utf8_lossy(content).into_owned();
        self.conn.execute(
            "INSERT INTO messages (user_id, content) VALUES (?1, ?2)",
            (user_id, c),
        ).is_ok()
    }

    /// Relies on rusqlite's `Statement::query_map` over the join of
    /// `messages` and `users`, ordered by timestamp descending with
    /// `LIMIT 20`, so the rows come back most-recent-first and never number
    /// more than twenty, whatever is on disk; on any store fault the result
    /// is empty rather than an error.
    #[verifier::external_body]
    fn query_recent(&self) -> (r: Vec<(Vec<u8>, Vec<u8>)>)
        ensures
            r@.len() <= 20,
    {
        let mut stmt = match self.conn.prepare(
            "SELECT users.username, messages.content FROM messages JOIN users ON users.id = messages.user_id ORDER BY messages.ts DESC LIMIT 20",
        ) {
            Ok(s) => s,
            Err(_) => return Vec::new(),
        };
        let rows = stmt.query_map([], |row| {
            Ok((row.get::<_, String>(0)?.into_bytes(), row.get::<_, String>(1)?.into_bytes()))
        });
        match rows {
            Ok(it) => it.collect::<Result<Vec<_>, _>>().unwrap_or_default(),
            Err(_) => Vec::new(),
        }
    }

    /// The stored user id matching the credential, for the web login's
    /// cookie; `None` on any mismatch, with no word on which field failed.
    pub fn login_user(&self, user: &Vec<u8>, pass: &Vec<u8>) -> (r: Option<i64>) {
        self.query_credential(user, pass)
    }

    /// Whether the offered credential exactly matches a stored one.
    pub fn verify_credential(&self, user: &Vec<u8>, pass: &Vec<u8>) -> (r: bool) {
        self.query_credential(user, pass).is_some()
    }

    /// Registers a new identity; `false` when the store refused it (already
    /// taken, or a store fault).
    pub fn register_user(&self, user: &Vec<u8>, pass: &Vec<u8>) -> (r: bool) {
        self.exec_insert_user(user, pass)
    }

    /// Appends one chat message attributed to `identity`; `false` when the
    /// identity is unknown or the store refused the insert. The caller
    /// broadcasts either way: live chat is preferred over durability.
    pub fn append_message(&self, identity: &Vec<u8>, content: &Vec<u8>) -> (r: bool) {
        let uid = self.query_user_id(identity);
        match uid {
            Some(user_id) => self.exec_insert_message(user_id, content),
            None => false,
        }
    }

    /// Appends one chat message under a stored user id, as the web
    /// front-end posts it; `false` when the store refused the insert.
    pub fn append_message_by_id(&self, user_id: i64, content: &Vec<u8>) -> (r: bool) {
        self.exec_insert_message(user_id, content)
    }

    /// The most recent messages, most recent first, as `(identity, content)`
    /// rows — at most twenty of them; empty on a store fault, so a failed
    /// fetch never blocks a join.
    pub fn recent_messages(&self) -> (r: Vec<(Vec<u8>, Vec<u8>)>)
        ensures
            r@.len() <= 20,
    {
        self.query_recent()
    }

    /// The history replay for a joining session: at most twenty lines, the
    /// recent window in natural reading order.
    pub fn recent_rendered(&self) -> (r: Vec<Vec<u8>>)
        ensures
            r@.len() <= 20,
    {
        let rows = self.query_recent();
        replay_window(&rows)
    }

    /// Credential negotiation: checks the offered credential against the
    /// store. On an exact match the session advances to `Authenticated`
    /// with the identity bound; otherwise it stays `Connecting`, untouched,
    /// and never reaches the registry.
    pub fn authenticate(&self, s: &mut Session, user: &Vec<u8>, pass: &Vec<u8>) -> (r: bool)
        requires
            old(s).state is Connecting,
        ensures
            r ==> final(s).state is Authenticated && final(s).identity@ == user@
                && final(s).session_id == old(s).session_id,
            !r ==> *final(s) == *old(s),
    {
        if self.verify_credential(user, pass) {
            let identity = clone_bytes(user);
            s.accept_auth(identity);
            true
        } else {
            false
        }
    }
}

} // verus!
