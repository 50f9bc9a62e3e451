//! A verified client adapter for CloudStaff mock sessions.
//!
//! A session is joined over a stream of JSON lines. The adapter checks every message
//! of the peer, turns the session's numbered events into the notifications that a
//! terminal renderer follows, and submits the user's turns. It fails closed: what the
//! protocol does not allow is refused, and the session ends.
//!
//! The crate decides; it does no input or output of its own. A program around it
//! reads and writes the lines, waits, and delivers what the renderer is told.

pub mod attach;
pub mod backend;
pub mod command;
pub mod command_laws;
pub mod decision_laws;
pub mod error;
pub mod history_laws;
pub mod independence;
pub mod join_laws;
pub mod json;
pub mod laws;
pub mod live_turn;
pub mod mapper;
pub mod models;
pub mod pieces;
pub mod protocol;
pub mod renderer;
pub mod session;
pub mod shape;
pub mod shutdown;
pub mod snapshot;
pub mod text;
pub mod thread_id;
pub mod transitions;
pub mod wire;
pub mod worker;
