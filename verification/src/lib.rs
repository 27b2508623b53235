//! Decision logic of an agent session that a client drives line by line.
//!
//! The client sends messages, one per line, and gets the agent's answer as a
//! series of messages that ends with a stop. Nothing here reads or writes: each
//! part is told what happened and says what to send and what to do next.
//!
//! - [`launch`]: from the command line to a running session
//! - [`session`]: the client's lines between turns
//! - [`turn`]: one turn of the agent, with its requests for approval
//! - [`shutdown`]: the end of a conversation with the agent
//! - [`input`], [`protocol`], [`text`]: lines, messages and strings
//! - [`laws`]: what holds over whole runs

pub mod input;
pub mod launch;
pub mod laws;
pub mod protocol;
pub mod session;
pub mod shutdown;
pub mod text;
pub mod turn;
