//! A scriptable stand-in for a chat platform's real-time gateway: the
//! protocol state machine of one connection, the registry of sessions that
//! outlives connections, and the script of timed actions replayed on each
//! connection that becomes ready.

pub mod config;
pub mod flags;
pub mod frame;
pub mod handler;
pub mod order;
pub mod payload;
pub mod protocol;
pub mod script;
pub mod session;
pub mod text;
