//! The core of a multi-room chat server.
//!
//! One chat actor owns every room, every message log and the user directory,
//! and answers one command at a time. One session per connection walks the
//! login and room-join handshake and turns client messages into commands for
//! that actor. Both are plain state machines here: they take an event and say
//! what to do next, and the program around them moves the bytes.

pub mod database;
pub mod directory;
pub mod error;
pub mod laws;
pub mod log;
pub mod message;
pub mod protocol;
pub mod room;
pub mod router;
pub mod session;
pub mod time;
