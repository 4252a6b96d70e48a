//! WebSocket connection settings for the reqwest backend (the connection
//! itself runs over tokio-tungstenite).

use vstd::prelude::*;

verus! {

/// Builder for WebSocket connections over the reqwest backend.
pub struct ReqwestWebSocketBuilder {
    /// Largest message accepted, if set
    pub max_message_size: Option<isize>,
}

impl ReqwestWebSocketBuilder {
    /// A builder with no message size limit set.
    pub fn new() -> (b: Self)
        ensures
            b.max_message_size is None,
    {
        ReqwestWebSocketBuilder { max_message_size: None }
    }

    /// Set the largest message accepted.
    pub fn maximum_message_size(self, size: isize) -> (b: Self)
        ensures
            b.max_message_size == Some(size),
    {
        ReqwestWebSocketBuilder { max_message_size: Some(size) }
    }

    /// The size limit handed to the transport's configuration: the set
    /// value as an unsigned size (wrapping, as a cast does), or no custom
    /// configuration at all.
    pub fn transport_limit(&self) -> (limit: Option<usize>)
        ensures
            limit == match self.max_message_size {
                Some(s) => Some(s as usize),
                None => None,
            },
    {
        match self.max_message_size {
            Some(s) => Some(s as usize),
            None => None,
        }
    }
}

} // verus!
