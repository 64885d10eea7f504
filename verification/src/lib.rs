//! The decision logic of a reverse-tunnel worker: the JSON message codec, the
//! request dispatcher, the session and supervisor state machines and the
//! configuration they read. Sockets, timers and HTTP calls live with the
//! caller, which feeds events in and carries actions out.

pub mod codec;
pub mod config;
pub mod dispatch;
pub mod json;
pub mod message;
pub mod pool;
pub mod session;
pub mod supervisor;
pub mod text;
