use frakt::backend::foundation::delegate::websocket::{ConnectionState, WebSocketDelegate};
use frakt::backend::reqwest::websocket::ReqwestWebSocketBuilder;
use frakt::error::Error;
use frakt::websocket::{CloseCode, Frame, Message, Received, SocketState};

#[test]
fn socket_state_receive_and_close() {
    let mut s = SocketState::open(None);
    assert_eq!(s.maximum_message_size(), 1048576);
    assert!(s.check_send().is_ok());
    assert!(s.close_code().is_none() && s.close_reason().is_none());
    assert!(matches!(s.on_frame(Frame::Text("hi".to_string())), Received::Deliver(Message::Text(t)) if t == "hi"));
    assert!(matches!(s.on_frame(Frame::Ping), Received::Skip));
    assert!(matches!(s.on_frame(Frame::Binary(vec![1])), Received::Deliver(Message::Binary(b)) if b == vec![1]));
    assert!(matches!(s.on_frame(Frame::Close), Received::Fail(Error::Internal(m)) if m == "WebSocket connection closed by server"));
    assert!(matches!(s.check_send(), Err(Error::Internal(m)) if m == "WebSocket connection is closed"));
    assert!(s.check_receive().is_err());
    assert_eq!(s.close_code(), Some(1000));
    assert_eq!(s.close_reason().as_deref(), Some("Connection closed"));
    assert!(!s.begin_close());
}

#[test]
fn socket_state_close_once() {
    let mut s = SocketState::open(Some(64));
    assert_eq!(s.maximum_message_size(), 64);
    assert!(s.begin_close());
    assert!(!s.begin_close());
    s.set_maximum_message_size(5);
    assert_eq!(s.maximum_message_size(), 5);
    let mut t = SocketState::open(None);
    assert!(matches!(t.on_frame(Frame::Failed("reset".to_string())), Received::Fail(Error::Network { code: -1, message }) if message == "WebSocket error: reset"));
    let mut u = SocketState::open(None);
    assert!(matches!(u.on_frame(Frame::Ended), Received::Fail(Error::Internal(m)) if m == "WebSocket stream ended"));
}

#[test]
fn close_codes_and_messages() {
    assert_eq!(CloseCode::Normal.code(), 1000);
    assert_eq!(CloseCode::GoingAway.code(), 1001);
    assert_eq!(CloseCode::TlsHandshake.code(), 1015);
    assert!(matches!(Message::text("x"), Message::Text(t) if t == "x"));
    assert!(matches!(Message::binary(vec![2]), Message::Binary(b) if b == vec![2]));
}

#[test]
fn reqwest_websocket_builder() {
    let b = ReqwestWebSocketBuilder::new();
    assert_eq!(b.max_message_size, None);
    assert_eq!(b.transport_limit(), None);
    let b = b.maximum_message_size(4096);
    assert_eq!(b.transport_limit(), Some(4096));
}

#[test]
fn delegate_connection_state() {
    let mut d = WebSocketDelegate::new_with_channel();
    assert!(!d.is_connected());
    assert!(matches!(d.connection_state(), ConnectionState::Connecting));
    assert_eq!(d.did_open(None).as_deref(), Some(""));
    assert!(d.is_connected());
    assert!(matches!(d.connection_state(), ConnectionState::Open(None)));
    d.did_close(1000, Some("bye".to_string()));
    assert!(!d.is_connected());
    assert!(matches!(d.connection_state(), ConnectionState::Closed(Some(1000), Some(r)) if r == "bye"));
    assert!(!d.did_complete_with_error(Some("lost")));
    assert!(matches!(d.connection_state(), ConnectionState::Error(m) if m == "lost"));
    let mut e = WebSocketDelegate::new_with_channel();
    assert!(e.did_complete_with_error(Some("refused")));
    assert!(!e.did_complete_with_error(None));
    let mut f = WebSocketDelegate::new();
    assert_eq!(f.did_open(Some("chat".to_string())), None);
}

#[test]
fn connected_exactly_when_open_through_callbacks() {
    let mut d = WebSocketDelegate::new();
    let consistent = |d: &WebSocketDelegate| d.is_connected() == matches!(d.connection_state(), ConnectionState::Open(_));
    assert!(consistent(&d));
    d.did_open(Some("chat".to_string()));
    assert!(consistent(&d) && d.is_connected());
    d.did_complete_with_error(None);
    assert!(consistent(&d) && d.is_connected());
    d.did_close(1000, None);
    assert!(consistent(&d) && !d.is_connected());
    d.did_open(None);
    assert!(consistent(&d));
    d.did_complete_with_error(Some("reset"));
    assert!(consistent(&d) && !d.is_connected());
}
