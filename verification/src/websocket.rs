//! WebSocket messages and the connection state that every socket backend
//! keeps: whether it is closed and the largest message it accepts. The
//! transport itself runs outside; it reports each frame it reads and asks
//! before each send and close.

use vstd::prelude::*;
use vstd::string::*;
use crate::error::Error;

verus! {

/// A WebSocket message.
pub enum Message {
    /// A text message
    Text(String),
    /// A binary message
    Binary(Vec<u8>),
}

impl Message {
    /// A text message.
    pub fn text(content: &str) -> (m: Message)
        ensures
            m matches Message::Text(t) && t@ == content@,
    {
        Message::Text(String::from_str(content))
    }

    /// A binary message.
    pub fn binary(content: Vec<u8>) -> (m: Message)
        ensures
            m matches Message::Binary(b) && b@ == content@,
    {
        Message::Binary(content)
    }
}

/// Close codes of RFC 6455, section 7.4.1.
#[derive(Clone, Copy, PartialEq, Eq, Structural, Debug)]
pub enum CloseCode {
    /// 1000: normal closure
    Normal,
    /// 1001: the endpoint is going away
    GoingAway,
    /// 1002: protocol error
    ProtocolError,
    /// 1003: data of a type that cannot be accepted
    UnsupportedData,
    /// 1005: no status code was present
    NoStatusReceived,
    /// 1006: the connection closed abnormally
    Abnormal,
    /// 1007: message data inconsistent with its type
    InvalidPayload,
    /// 1008: a message violates the endpoint's policy
    PolicyViolation,
    /// 1009: a message is too big to process
    MessageTooBig,
    /// 1010: the server did not negotiate a required extension
    MandatoryExtension,
    /// 1011: the server met an unexpected condition
    InternalError,
    /// 1015: the TLS handshake failed
    TlsHandshake,
}

/// The number of a close code.
pub open spec fn spec_close_code(c: CloseCode) -> u16 {
    match c {
        CloseCode::Normal => 1000,
        CloseCode::GoingAway => 1001,
        CloseCode::ProtocolError => 1002,
        CloseCode::UnsupportedData => 1003,
        CloseCode::NoStatusReceived => 1005,
        CloseCode::Abnormal => 1006,
        CloseCode::InvalidPayload => 1007,
        CloseCode::PolicyViolation => 1008,
        CloseCode::MessageTooBig => 1009,
        CloseCode::MandatoryExtension => 1010,
        CloseCode::InternalError => 1011,
        CloseCode::TlsHandshake => 1015,
    }
}

impl CloseCode {
    /// The number of the close code, as sent in a close frame.
    pub fn code(&self) -> (n: u16)
        ensures
            n == spec_close_code(*self),
    {
        match self {
            CloseCode::Normal => 1000,
            CloseCode::GoingAway => 1001,
            CloseCode::ProtocolError => 1002,
            CloseCode::UnsupportedData => 1003,
            CloseCode::NoStatusReceived => 1005,
            CloseCode::Abnormal => 1006,
            CloseCode::InvalidPayload => 1007,
            CloseCode::PolicyViolation => 1008,
            CloseCode::MessageTooBig => 1009,
            CloseCode::MandatoryExtension => 1010,
            CloseCode::InternalError => 1011,
            CloseCode::TlsHandshake => 1015,
        }
    }
}

/// The default largest message: 1 MiB.
pub const DEFAULT_MAX_MESSAGE_SIZE: isize = 1048576;

/// What the transport read from the connection.
pub enum Frame {
    /// A text message
    Text(String),
    /// A binary message
    Binary(Vec<u8>),
    /// A close frame from the peer
    Close,
    /// A ping (answered by the transport)
    Ping,
    /// A pong
    Pong,
    /// A raw frame
    Raw,
    /// A read error, with its text
    Failed(String),
    /// The stream ended
    Ended,
}

/// What `receive` does with a frame.
pub enum Received {
    /// Hand the message to the caller
    Deliver(Message),
    /// Read the next frame
    Skip,
    /// Fail with the error
    Fail(Error),
}

/// The state of a WebSocket connection.
pub struct SocketState {
    /// Whether the connection is closed
    pub closed: bool,
    /// The largest message accepted, in bytes
    pub max_message_size: isize,
}

impl SocketState {
    /// An open connection; the largest message is the configured one, or
    /// 1 MiB.
    pub fn open(max_message_size: Option<isize>) -> (s: Self)
        ensures
            !s.closed,
            s.max_message_size == match max_message_size {
                Some(m) => m,
                None => DEFAULT_MAX_MESSAGE_SIZE,
            },
    {
        SocketState {
            closed: false,
            max_message_size: match max_message_size {
                Some(m) => m,
                None => DEFAULT_MAX_MESSAGE_SIZE,
            },
        }
    }

    /// Whether a message may be sent: not once the connection is closed.
    pub fn check_send(&self) -> (res: Result<(), Error>)
        ensures
            res is Ok <==> !self.closed,
            res matches Err(e) ==> (e matches Error::Internal(m) && m@ == "WebSocket connection is closed"@),
    {
        if self.closed {
            Err(Error::Internal(String::from_str("WebSocket connection is closed")))
        } else {
            Ok(())
        }
    }

    /// What `receive` does with a frame it read: messages are delivered,
    /// pings, pongs and raw frames skipped; a close frame, a read error
    /// or the end of the stream close the connection and fail.
    pub fn on_frame(&mut self, frame: Frame) -> (r: Received)
        requires
            !old(self).closed,
        ensures
            final(self).max_message_size == old(self).max_message_size,
            final(self).closed == (frame is Close || frame is Failed || frame is Ended),
            frame matches Frame::Text(t) ==> (r matches Received::Deliver(Message::Text(u)) && u@ == t@),
            frame matches Frame::Binary(b) ==> (r matches Received::Deliver(Message::Binary(c)) && c@ == b@),
            (frame is Ping || frame is Pong || frame is Raw) ==> r is Skip,
            frame is Close ==> (r matches Received::Fail(Error::Internal(m)) && m@ == "WebSocket connection closed by server"@),
            frame matches Frame::Failed(d) ==> (r matches Received::Fail(Error::Network { code, message })
                && code == -1 && message@ == "WebSocket error: "@ + d@),
            frame is Ended ==> (r matches Received::Fail(Error::Internal(m)) && m@ == "WebSocket stream ended"@),
    {
        match frame {
            Frame::Text(t) => Received::Deliver(Message::Text(t)),
            Frame::Binary(b) => Received::Deliver(Message::Binary(b)),
            Frame::Close => {
                self.closed = true;
                Received::Fail(Error::Internal(String::from_str("WebSocket connection closed by server")))
            },
            Frame::Ping => Received::Skip,
            Frame::Pong => Received::Skip,
            Frame::Raw => Received::Skip,
            Frame::Failed(d) => {
                self.closed = true;
                let mut message = String::from_str("WebSocket error: ");
                message.append(d.as_str());
                Received::Fail(Error::Network { code: -1, message })
            },
            Frame::Ended => {
                self.closed = true;
                Received::Fail(Error::Internal(String::from_str("WebSocket stream ended")))
            },
        }
    }

    /// Whether a receive may start: not once the connection is closed.
    pub fn check_receive(&self) -> (res: Result<(), Error>)
        ensures
            res is Ok <==> !self.closed,
            res matches Err(e) ==> (e matches Error::Internal(m) && m@ == "WebSocket connection is closed"@),
    {
        self.check_send()
    }

    /// Starts closing: returns whether a close frame must be sent (not
    /// when already closed); the connection is closed afterwards either
    /// way.
    pub fn begin_close(&mut self) -> (send_frame: bool)
        ensures
            send_frame == !old(self).closed,
            final(self).closed,
            final(self).max_message_size == old(self).max_message_size,
    {
        let send_frame = !self.closed;
        self.closed = true;
        send_frame
    }

    /// The close code: `Normal` once closed.
    pub fn close_code(&self) -> (code: Option<isize>)
        ensures
            code == (if self.closed { Some(1000isize) } else { None }),
    {
        if self.closed {
            Some(1000)
        } else {
            None
        }
    }

    /// The close reason: "Connection closed" once closed.
    pub fn close_reason(&self) -> (reason: Option<String>)
        ensures
            self.closed ==> (reason matches Some(r) && r@ == "Connection closed"@),
            !self.closed ==> reason is None,
    {
        if self.closed {
            Some(String::from_str("Connection closed"))
        } else {
            None
        }
    }

    /// Set the largest message accepted.
    pub fn set_maximum_message_size(&mut self, size: isize)
        ensures
            final(self).max_message_size == size,
            final(self).closed == old(self).closed,
    {
        self.max_message_size = size;
    }

    /// The largest message accepted.
    pub fn maximum_message_size(&self) -> (size: isize)
        ensures
            size == self.max_message_size,
    {
        self.max_message_size
    }
}

} // verus!
