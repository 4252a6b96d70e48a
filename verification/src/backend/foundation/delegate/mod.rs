//! What the session delegates keep track of.

pub mod shared_context;
pub mod websocket;
