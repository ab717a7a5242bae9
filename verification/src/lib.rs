//! Core of a minimal multi-user chat service: the session lifecycle state
//! machine, a registry of joined sessions, the command interpreter, the
//! broadcast fan-out, history replay, and the sqlite-backed store interface.
//!
//! The engine is a state machine from events (a session joins, a line of
//! input arrives, a session closes) to actions (send a line to a sink,
//! append a message to the store, disconnect). The transport layer performs
//! the actions; everything the engine decides is verified here.

pub mod command;
pub mod config;
pub mod engine;
pub mod history;
pub mod laws;
pub mod line;
pub mod registry;
pub mod session;
pub mod store;
