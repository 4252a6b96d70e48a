//! Error type of the library.

use vstd::prelude::*;
use vstd::string::*;
use crate::text::{decimal, signed_decimal, spec_decimal, spec_signed_decimal};

verus! {

/// Error types for HTTP operations.
///
/// Payloads that the platform libraries produce (I/O, UTF-8 and JSON
/// failures) are carried as their message text.
#[derive(Debug)]
pub enum Error {
    /// Invalid URL was provided.
    InvalidUrl,
    /// Invalid HTTP header name or value.
    InvalidHeader,
    /// Network error reported by the platform networking stack.
    Network {
        /// Error code from the platform
        code: i64,
        /// Error message
        message: String,
    },
    /// TLS/Certificate error.
    Tls {
        /// Error message
        message: String,
    },
    /// Request timed out.
    Timeout,
    /// Request was cancelled.
    Cancelled,
    /// WebSocket connection was closed.
    WebSocketClosed,
    /// UTF-8 conversion error.
    Utf8(String),
    /// JSON serialization/deserialization error.
    Json(String),
    /// I/O error.
    Io(String),
    /// Response body exceeds maximum size.
    ResponseTooLarge,
    /// The server answered with an HTTP error status (400 or above).
    HttpError(u16),
    /// Internal library error.
    Internal(String),
}

/// The text that describes an error.
pub open spec fn spec_error_message(e: Error) -> Seq<char> {
    match e {
        Error::InvalidUrl => "Invalid URL"@,
        Error::InvalidHeader => "Invalid header"@,
        Error::Network { code, message } => "Network error: "@ + message@ + " (code: "@ + spec_signed_decimal(code as int)
            + seq![')'],
        Error::Tls { message } => "TLS error: "@ + message@,
        Error::Timeout => "Request timed out"@,
        Error::Cancelled => "Request was cancelled"@,
        Error::WebSocketClosed => "WebSocket connection was closed"@,
        Error::Utf8(m) => "UTF-8 conversion error: "@ + m@,
        Error::Json(m) => "JSON error: "@ + m@,
        Error::Io(m) => "I/O error: "@ + m@,
        Error::ResponseTooLarge => "Response body exceeds maximum size"@,
        Error::HttpError(status) => "HTTP error: "@ + spec_decimal(status as nat),
        Error::Internal(m) => "Internal error: "@ + m@,
    }
}

impl Error {
    /// The text that describes the error (what its `Display` form shows).
    pub fn to_display_string(&self) -> (text: String)
        ensures
            text@ == spec_error_message(*self),
    {
        match self {
            Error::InvalidUrl => String::from_str("Invalid URL"),
            Error::InvalidHeader => String::from_str("Invalid header"),
            Error::Network { code, message } => {
                let mut t = String::from_str("Network error: ");
                t.append(message.as_str());
                t.append(" (code: ");
                let c = signed_decimal(*code);
                t.append(c.as_str());
                t.push(')');
                t
            },
            Error::Tls { message } => {
                let mut t = String::from_str("TLS error: ");
                t.append(message.as_str());
                t
            },
            Error::Timeout => String::from_str("Request timed out"),
            Error::Cancelled => String::from_str("Request was cancelled"),
            Error::WebSocketClosed => String::from_str("WebSocket connection was closed"),
            Error::Utf8(m) => {
                let mut t = String::from_str("UTF-8 conversion error: ");
                t.append(m.as_str());
                t
            },
            Error::Json(m) => {
                let mut t = String::from_str("JSON error: ");
                t.append(m.as_str());
                t
            },
            Error::Io(m) => {
                let mut t = String::from_str("I/O error: ");
                t.append(m.as_str());
                t
            },
            Error::ResponseTooLarge => String::from_str("Response body exceeds maximum size"),
            Error::HttpError(status) => {
                let mut t = String::from_str("HTTP error: ");
                let d = decimal(*status as u128);
                t.append(d.as_str());
                t
            },
            Error::Internal(m) => {
                let mut t = String::from_str("Internal error: ");
                t.append(m.as_str());
                t
            },
        }
    }
}

} // verus!
