//! Cross-platform HTTP client library: authentication headers, cookies,
//! request bodies, client configuration and the decision logic of the
//! transfer backends, with their contracts proved by Verus.

pub mod text;
pub mod auth;
pub mod error;
pub mod wire;
pub mod cookies;
pub mod backend;
pub mod body;
pub mod client;
pub mod request;
pub mod websocket;
