//! WebSocket connections over WinHTTP: the builder's settings, how a
//! message becomes a buffer to send and a received buffer a message, and
//! the close state the connection keeps.

use vstd::prelude::*;
use vstd::string::*;
use crate::cookies::opt_view;
use crate::error::Error;
use crate::auth::spec_base64;
use crate::backend::windows::http_client::spec_full_path;
use crate::text::{decimal, spec_decimal};
use crate::wire::str_eq;
use crate::websocket::{CloseCode, DEFAULT_MAX_MESSAGE_SIZE, Message, spec_close_code};

verus! {

/// Builder for WinHTTP WebSocket connections.
pub struct WindowsWebSocketBuilder {
    max_message_size: Option<isize>,
}

impl WindowsWebSocketBuilder {
    /// A builder with no message size limit set.
    pub fn new() -> (b: Self)
        ensures
            b.limit() is None,
    {
        WindowsWebSocketBuilder { max_message_size: None }
    }

    /// The size limit set, if any.
    pub closed spec fn limit(&self) -> Option<isize> {
        self.max_message_size
    }

    /// Set the largest message accepted.
    pub fn maximum_message_size(self, size: isize) -> (b: Self)
        ensures
            b.limit() == Some(size),
    {
        WindowsWebSocketBuilder { max_message_size: Some(size) }
    }

    /// The size to apply to the connection once it is open, if one was set.
    pub fn configured_size(&self) -> (size: Option<isize>)
        ensures
            size == self.limit(),
    {
        self.max_message_size
    }
}

/// The kinds of buffer WinHTTP's WebSocket functions send and receive.
#[derive(Clone, Copy, PartialEq, Eq, Structural, Debug)]
pub enum BufferType {
    /// A whole binary message
    BinaryMessage,
    /// Part of a binary message
    BinaryFragment,
    /// A whole UTF-8 message
    Utf8Message,
    /// Part of a UTF-8 message
    Utf8Fragment,
    /// A close frame
    Close,
}

/// The buffer a message is sent as: a text message as its UTF-8 bytes, a
/// binary message as its bytes.
pub fn convert_message_for_sending(message: &Message) -> (r: (BufferType, Vec<u8>))
    ensures
        message matches Message::Text(t) ==> r.0 == BufferType::Utf8Message && r.1@ == vstd::utf8::encode_utf8(t@),
        message matches Message::Binary(b) ==> r.0 == BufferType::BinaryMessage && r.1@ == b@,
{
    match message {
        Message::Text(text) => (BufferType::Utf8Message, text.as_str().as_bytes_vec()),
        Message::Binary(data) => (BufferType::BinaryMessage, data.clone()),
    }
}

/// The text `String::from_utf8`'s error shows for bytes that are not
/// UTF-8 (it names the offending sequence and where it starts).
pub uninterp spec fn utf8_error_text(bytes: Seq<u8>) -> Seq<char>;

/// Reads bytes as UTF-8 text with `String::from_utf8`; else gives the
/// text of its error.
#[verifier::external_body]
fn utf8_text(bytes: Vec<u8>) -> (res: Result<String, String>)
    ensures
        res is Ok <==> vstd::utf8::valid_utf8(bytes@),
        res matches Ok(s) ==> s@ == vstd::utf8::decode_utf8(bytes@),
        res matches Err(t) ==> t@ == utf8_error_text(bytes@),
{
    String::from_utf8(bytes).map_err(|e| e.to_string())
}

/// The bytes received: the first `n` of the buffer (all of them when it
/// is shorter).
pub open spec fn received_bytes(buffer: Seq<u8>, n: u32) -> Seq<u8> {
    if n < buffer.len() {
        buffer.take(n as int)
    } else {
        buffer
    }
}

/// The message a receive gives. A nonzero `result` is WinHTTP's error
/// code; otherwise the first `bytes_read` bytes of the buffer form a text
/// message (when they are UTF-8) or a binary message; a close frame and a
/// fragment are errors.
pub fn received_message(result: u32, buffer_type: BufferType, buffer: Vec<u8>, bytes_read: u32) -> (res: Result<Message, Error>)
    ensures
        result != 0 ==> (res matches Err(Error::Internal(m)) && m@ == "WinHttpWebSocketReceive failed with error: "@
            + spec_decimal(result as nat)),
        result == 0 && buffer_type == BufferType::Utf8Message ==> {
            let b = received_bytes(buffer@, bytes_read);
            &&& vstd::utf8::valid_utf8(b) ==> (res matches Ok(Message::Text(t)) && t@ == vstd::utf8::decode_utf8(b))
            &&& !vstd::utf8::valid_utf8(b) ==> (res matches Err(Error::Internal(m)) && m@
                == "Invalid UTF-8 in WebSocket message: "@ + utf8_error_text(b))
        },
        result == 0 && buffer_type == BufferType::BinaryMessage ==> (res matches Ok(Message::Binary(d)) && d@
            == received_bytes(buffer@, bytes_read)),
        result == 0 && buffer_type == BufferType::Close ==> (res matches Err(Error::Internal(m)) && m@
            == "WebSocket connection closed by peer"@),
        result == 0 && (buffer_type == BufferType::BinaryFragment || buffer_type == BufferType::Utf8Fragment) ==> (res
            matches Err(Error::Internal(m)) && m@ == "Unknown WebSocket message type"@),
{
    if result != 0 {
        let mut m = String::from_str("WinHttpWebSocketReceive failed with error: ");
        let d = decimal(result as u128);
        m.append(d.as_str());
        return Err(Error::Internal(m));
    }
    let ghost original = buffer@;
    let mut buffer = buffer;
    buffer.truncate(bytes_read as usize);
    assert(buffer@ =~= received_bytes(original, bytes_read));
    match buffer_type {
        BufferType::Utf8Message => match utf8_text(buffer) {
            Ok(text) => Ok(Message::Text(text)),
            Err(e) => {
                let mut m = String::from_str("Invalid UTF-8 in WebSocket message: ");
                m.append(e.as_str());
                Err(Error::Internal(m))
            },
        },
        BufferType::BinaryMessage => Ok(Message::Binary(buffer)),
        BufferType::Close => Err(Error::Internal(String::from_str("WebSocket connection closed by peer"))),
        _ => Err(Error::Internal(String::from_str("Unknown WebSocket message type"))),
    }
}

/// The error of a WinHTTP WebSocket call that returned a nonzero code:
/// "{function} failed with error: {code}".
pub open spec fn call_failure(function: Seq<char>, result: u32) -> Seq<char> {
    function + " failed with error: "@ + spec_decimal(result as nat)
}

/// The outcome of a WinHTTP WebSocket call that returns an error code:
/// `Ok` for 0, else the internal error naming the function and the code.
pub fn call_result(function: &str, result: u32) -> (res: Result<(), Error>)
    ensures
        result == 0 ==> res is Ok,
        result != 0 ==> (res matches Err(Error::Internal(m)) && m@ == call_failure(function@, result)),
{
    if result == 0 {
        Ok(())
    } else {
        let mut m = String::from_str(function);
        m.append(" failed with error: ");
        let d = decimal(result as u128);
        m.append(d.as_str());
        Err(Error::Internal(m))
    }
}

/// What a WinHTTP WebSocket connection keeps: whether it is closed, the
/// close code (0 until a close starts) and reason, and the largest message.
pub struct WindowsSocketState {
    /// Whether the connection is closed
    pub closed: bool,
    /// The close code sent, 0 when none
    pub close_code: i32,
    /// The close reason sent, if any
    pub close_reason: Option<String>,
    /// The largest message accepted, in bytes
    pub max_message_size: usize,
}

impl WindowsSocketState {
    /// A connection just opened: no close code or reason, 1 MiB messages.
    pub fn new() -> (s: Self)
        ensures
            !s.closed,
            s.close_code == 0,
            s.close_reason is None,
            s.max_message_size == DEFAULT_MAX_MESSAGE_SIZE as usize,
    {
        WindowsSocketState { closed: false, close_code: 0, close_reason: None, max_message_size: 1048576 }
    }

    /// Whether a message may be sent or received: not once closed.
    pub fn check_open(&self) -> (res: Result<(), Error>)
        ensures
            res is Ok <==> !self.closed,
            res matches Err(e) ==> (e matches Error::Internal(m) && m@ == "WebSocket connection is closed"@),
    {
        if self.closed {
            Err(Error::Internal(String::from_str("WebSocket connection is closed")))
        } else {
            Ok(())
        }
    }

    /// Starts closing with a code and reason: nothing happens once closed
    /// (returns false); otherwise the code is kept, and the reason when one
    /// is given, and the close is to be sent (returns true).
    pub fn begin_close(&mut self, code: CloseCode, reason: Option<&str>) -> (send: bool)
        ensures
            send == !old(self).closed,
            old(self).closed ==> final(self).close_code == old(self).close_code && opt_view(
                final(self).close_reason,
            ) == opt_view(old(self).close_reason),
            !old(self).closed ==> final(self).close_code == spec_close_code(code) as i32,
            !old(self).closed && reason is Some ==> opt_view(final(self).close_reason) == Some(reason->0@),
            !old(self).closed && reason is None ==> opt_view(final(self).close_reason) == opt_view(
                old(self).close_reason,
            ),
            final(self).closed == old(self).closed,
            final(self).max_message_size == old(self).max_message_size,
    {
        if self.closed {
            return false;
        }
        self.close_code = code.code() as i32;
        match reason {
            Some(r) => {
                self.close_reason = Some(String::from_str(r));
            },
            None => {},
        }
        true
    }

    /// Finishes closing with the code `WinHttpWebSocketClose` returned: on
    /// success the connection is closed, else the error is reported and it
    /// stays open.
    pub fn finish_close(&mut self, result: u32) -> (res: Result<(), Error>)
        ensures
            result == 0 ==> res is Ok && final(self).closed,
            result != 0 ==> (res matches Err(Error::Internal(m)) && m@ == call_failure(
                "WinHttpWebSocketClose"@,
                result,
            )) && final(self).closed == old(self).closed,
            final(self).close_code == old(self).close_code,
            final(self).max_message_size == old(self).max_message_size,
    {
        let r = call_result("WinHttpWebSocketClose", result);
        if r.is_ok() {
            self.closed = true;
        }
        r
    }

    /// The close code, once a close started.
    pub fn close_code(&self) -> (code: Option<isize>)
        ensures
            code == (if self.close_code == 0 {
                None
            } else {
                Some(self.close_code as isize)
            }),
    {
        if self.close_code == 0 {
            None
        } else {
            Some(self.close_code as isize)
        }
    }

    /// The close reason, if one was given.
    pub fn close_reason(&self) -> (reason: Option<String>)
        ensures
            opt_view(reason) == opt_view(self.close_reason),
    {
        match &self.close_reason {
            Some(r) => Some(r.clone()),
            None => None,
        }
    }

    /// Sets the largest message accepted (stored as an unsigned size).
    pub fn set_maximum_message_size(&mut self, size: isize)
        ensures
            final(self).max_message_size == size as usize,
            final(self).closed == old(self).closed,
            final(self).close_code == old(self).close_code,
    {
        self.max_message_size = size as usize;
    }

    /// The largest message accepted.
    pub fn maximum_message_size(&self) -> (size: isize)
        ensures
            size == self.max_message_size as isize,
    {
        self.max_message_size as isize
    }
}

/// The port a WebSocket connects to: the URL's own, else 443 for `wss`
/// and 80 otherwise.
pub open spec fn spec_ws_port(scheme: Seq<char>, port: Option<u16>) -> u16 {
    match port {
        Some(p) => p,
        None => if scheme == "wss"@ {
            443
        } else {
            80
        },
    }
}

/// Where a WebSocket connects: its host (an `InvalidUrl` error when the
/// URL has none), its port and the object it names (the path, then `?`
/// and the query when there is one).
pub fn websocket_target(scheme: &str, host: Option<String>, port: Option<u16>, path: &str, query: Option<&str>) -> (res: Result<(String, u16, String), Error>)
    ensures
        res is Err <==> host is None,
        res matches Err(e) ==> e is InvalidUrl,
        res matches Ok((h, p, f)) ==> h@ == host->0@ && p == spec_ws_port(scheme@, port) && f@ == spec_full_path(
            path@,
            match query {
                Some(q) => Some(q@),
                None => None,
            },
        ),
{
    let host = match host {
        Some(h) => h,
        None => return Err(Error::InvalidUrl),
    };
    let p = match port {
        Some(p) => p,
        None => if str_eq(scheme, "wss") {
            443
        } else {
            80
        },
    };
    let mut full = String::from_str(path);
    match query {
        Some(q) => {
            full.push('?');
            full.append(q);
        },
        None => {},
    }
    Ok((host, p, full))
}

/// Whether the connection runs over TLS: for `wss` URLs.
pub fn websocket_secure(scheme: &str) -> (r: bool)
    ensures
        r == (scheme@ == "wss"@),
{
    str_eq(scheme, "wss")
}

/// Encodes bytes in standard Base64 with padding
/// (`base64::engine::general_purpose::STANDARD`).
#[verifier::external_body]
fn standard_base64(bytes: &[u8]) -> (s: String)
    ensures
        s@ == spec_base64(bytes@),
{
    base64::Engine::encode(&base64::engine::general_purpose::STANDARD, bytes)
}

/// The header fields of the opening handshake for a key of 16 random
/// bytes: `Connection`, `Upgrade`, `Sec-WebSocket-Version` 13 and the key
/// in Base64, each line ended by CR LF.
pub open spec fn spec_upgrade_headers(key: Seq<u8>) -> Seq<char> {
    "Connection: Upgrade\r\nUpgrade: websocket\r\nSec-WebSocket-Version: 13\r\nSec-WebSocket-Key: "@ + spec_base64(key)
        + "\r\n"@
}

/// The header fields of the opening handshake (see
/// `spec_upgrade_headers`).
pub fn upgrade_headers(key: &[u8; 16]) -> (h: String)
    ensures
        h@ == spec_upgrade_headers(key@),
{
    let mut h = String::from_str(
        "Connection: Upgrade\r\nUpgrade: websocket\r\nSec-WebSocket-Version: 13\r\nSec-WebSocket-Key: ",
    );
    let k = standard_base64(key);
    h.append(k.as_str());
    h.append("\r\n");
    h
}

} // verus!
