use frakt::backend::windows::bits::{bits_step, monitor_stops, progress_total, BitsStep};
use frakt::backend::windows::cookies::{expiry_lines, WindowsCookieStorage};
use frakt::backend::cookie_store::StoreEntry;
use frakt::backend::windows::error::{map_windows_error, map_windows_error_with_context};
use frakt::backend::windows::http_client::{
    header_block, is_secure, lines_of, parse_headers_into_map, request_target, set_cookie_fields_of, status_from_code,
    store_cookies_from_headers, winhttp_body, CallbackState, Notification, RequestState,
};
use frakt::backend::windows::websocket::{
    call_result, convert_message_for_sending, received_message, upgrade_headers, websocket_secure, websocket_target, BufferType,
    WindowsSocketState, WindowsWebSocketBuilder,
};
use frakt::websocket::{CloseCode, Message};
use frakt::backend::windows::WindowsBackend;
use frakt::backend::BackendConfig;
use frakt::body::Body;
use frakt::error::Error;
use frakt::wire::HeaderPair;

fn pair(n: &str, v: &str) -> HeaderPair {
    HeaderPair { name: n.to_string(), value: v.to_string() }
}

#[test]
fn request_state_roundtrip() {
    for s in [
        RequestState::Connecting,
        RequestState::Sending,
        RequestState::HeadersReceived,
        RequestState::ReadingData,
        RequestState::Complete,
        RequestState::Error,
    ] {
        assert_eq!(RequestState::from_u8(s.to_u8()), s);
    }
    for v in 0..=5u8 {
        assert_eq!(RequestState::from_u8(v).to_u8(), v);
    }
    assert_eq!(RequestState::from_u8(200), RequestState::Error);
}

#[test]
fn raw_header_lines() {
    assert_eq!(lines_of("a\r\nb\n\nc"), vec!["a", "b", "", "c"]);
    assert_eq!(lines_of("x\n"), vec!["x"]);
    assert_eq!(lines_of(""), Vec::<String>::new());
    assert_eq!(lines_of("a\rb"), vec!["a\rb"]);
    assert_eq!(lines_of("a\r"), vec!["a\r"]);
    let text = "first\nsecond\r\n\r\nthird\r";
    assert_eq!(lines_of(text), text.lines().map(|l| l.to_string()).collect::<Vec<_>>());
}

#[test]
fn parse_raw_headers() {
    let mut headers = vec![];
    parse_headers_into_map(
        "HTTP/1.1 200 OK\r\nContent-Type: text/html\r\nX-A: 1\r\nx-a: 2\r\nBad Name: v\r\nNoColon\r\n\r\n",
        &mut headers,
    );
    assert_eq!(headers.len(), 2);
    assert_eq!(headers[0].name, "content-type");
    assert_eq!(headers[0].value, "text/html");
    assert_eq!(headers[1].name, "x-a");
    assert_eq!(headers[1].value, "2");
}

#[test]
fn set_cookie_lines() {
    let fields = set_cookie_fields_of("HTTP/1.1 200 OK\r\nSet-Cookie: a=1\r\nSET-COOKIE: b=2; Path=/\r\nX: y\r\n");
    assert_eq!(fields.len(), 2);
    assert_eq!(fields[0].name, "set-cookie");
    assert_eq!(fields[0].value, "a=1");
    assert_eq!(fields[1].value, "b=2; Path=/");
    let mut storage = WindowsCookieStorage::new().unwrap();
    let url = url::Url::parse("http://example.com/").unwrap();
    store_cookies_from_headers("Set-Cookie: a=1\r\n", url.as_str(), &mut storage);
    assert_eq!(storage.get_cookies_for_url(url.as_str()).unwrap()[0].value, "a=1");
}

#[test]
fn request_composition() {
    let (host, port, path) = request_target("https", Some("example.com".to_string()), None, "/a", Some("b=1")).unwrap();
    assert_eq!((host.as_str(), port, path.as_str()), ("example.com", 443, "/a?b=1"));
    let (_, port, path) = request_target("http", Some("h".to_string()), Some(8080), "/", None).unwrap();
    assert_eq!((port, path.as_str()), (8080, "/"));
    assert_eq!(request_target("http", None, None, "/", None).unwrap_err().to_display_string(), "Invalid URL");
    assert!(is_secure("https") && !is_secure("http"));
    let block = header_block(
        &Some(vec![pair("user-agent", "x")]),
        &vec![pair("accept", "*/*"), pair("x-bin", "\u{1}")],
        &Some("application/json".to_string()),
        &vec![pair("cookie", "a=1")],
    );
    assert_eq!(block, "user-agent: x\r\naccept: */*\r\nx-bin: \r\nContent-Type: application/json\r\ncookie: a=1\r\n");
    assert_eq!(header_block(&None, &vec![], &None, &vec![]), "");
    assert_eq!(status_from_code(200), 200);
    assert_eq!(status_from_code(42), 500);
    assert_eq!(status_from_code(65536 + 404), 404);
}

#[test]
fn winhttp_bodies() {
    let (data, ct) = winhttp_body(&Some(Body::form(vec![("a".to_string(), "b c".to_string())]))).unwrap();
    assert_eq!(data, b"a=b%20c".to_vec());
    assert_eq!(ct.as_deref(), Some("application/x-www-form-urlencoded"));
    let (data, ct) = winhttp_body(&None).unwrap();
    assert!(data.is_empty() && ct.is_none());
    let (_, ct) = winhttp_body(&Some(Body::json(serde_json::Value::Bool(true)))).unwrap();
    assert_eq!(ct.as_deref(), Some("application/json"));
    assert!(matches!(winhttp_body(&Some(Body::multipart(vec![]))), Err(Error::Internal(m)) if m == "Multipart not yet supported with WinHTTP"));
}

#[test]
fn callback_reactions() {
    let mut s = CallbackState::new(100, true, true);
    let a = s.on_notification(Notification::SendingRequest, true);
    assert_eq!(a.progress, Some((0, 100)));
    let a = s.on_notification(Notification::WriteComplete(60), true);
    assert_eq!(a.progress, Some((60, 100)));
    let a = s.on_notification(Notification::SendRequestComplete, true);
    assert!(matches!(a.signal, Some(Ok(()))));
    assert_eq!(s.state, RequestState::Sending);
    let a = s.on_notification(Notification::HeadersAvailable, true);
    assert!(a.store_cookies);
    let a = s.on_notification(Notification::DataAvailable(10), true);
    assert_eq!(a.start_read, Some(8192));
    assert!(s.reading);
    let a = s.on_notification(Notification::ReadComplete(10), true);
    assert_eq!(a.append_read, Some(10));
    assert!(a.query_more && a.signal.is_none());
    let a = s.on_notification(Notification::DataAvailable(0), true);
    assert!(matches!(a.signal, Some(Ok(()))));
    let a = s.on_notification(Notification::RequestError(Some((1, 12002))), true);
    assert!(matches!(a.signal, Some(Err(Error::Timeout))));
    let a = s.on_notification(Notification::RequestError(Some((3, 12029))), true);
    assert!(matches!(a.signal, Some(Err(Error::Internal(ref m))) if m == "WinHTTP async error: dwResult=3, dwError=12029"));
    let a = s.on_notification(Notification::RequestError(None), true);
    assert!(matches!(a.signal, Some(Err(Error::Internal(ref m))) if m == "Unknown WinHTTP async error"));
    assert_eq!(s.state, RequestState::Error);
    let a = s.on_read_failed();
    assert!(matches!(a.signal, Some(Err(Error::Internal(ref m))) if m == "Failed to read data"));
    let mut w = CallbackState::new(0, false, false);
    w.bytes_sent = u64::MAX;
    let a = w.on_notification(Notification::WriteComplete(2), false);
    assert_eq!(w.bytes_sent, 1);
    assert!(a.progress.is_none());
    let a = w.on_notification(Notification::ReadComplete(5), false);
    assert!(a.append_read.is_none() && matches!(a.signal, Some(Ok(()))));
}

#[test]
fn windows_error_codes() {
    assert!(matches!(map_windows_error(0x80072EE2u32 as i32, "timeout"), Error::Timeout));
    match map_windows_error(0x80072EE7u32 as i32, "dns") {
        Error::Network { code, message } => {
            assert_eq!(code, 0x80072EE7);
            assert_eq!(message, "The server name or address could not be resolved");
        },
        _ => panic!("expected a network error"),
    }
    match map_windows_error(0x80070005u32 as i32, "x") {
        Error::Internal(m) => assert_eq!(m, "Access denied"),
        _ => panic!("expected the table's report"),
    }
    match map_windows_error(0x80071234u32 as i32, "other") {
        Error::Internal(m) => assert_eq!(m, "Windows error: 0x80071234 - other"),
        _ => panic!("expected the generic report"),
    }
    match map_windows_error_with_context(0x80072F05u32 as i32, "m", "Sending") {
        Error::Network { message, .. } => assert_eq!(message, "Sending: The URL is invalid"),
        _ => panic!("expected a network error"),
    }
    match map_windows_error(5, "denied") {
        Error::Internal(m) => assert_eq!(m, "Windows error: 0x00000005 - denied"),
        _ => panic!("expected the generic report"),
    }
    match map_windows_error_with_context(1, "m", "Opening") {
        Error::Internal(m) => assert_eq!(m, "Opening: Windows error: 0x00000001 - m"),
        _ => panic!("expected the generic report"),
    }
}

#[test]
fn bits_states() {
    assert!(matches!(bits_step(4), BitsStep::Complete));
    assert!(matches!(bits_step(5), BitsStep::Done));
    assert!(matches!(bits_step(6), BitsStep::Fail(Error::Internal(ref m)) if m == "BITS job was cancelled"));
    assert!(matches!(bits_step(7), BitsStep::Fail(Error::Internal(ref m)) if m == "BITS job failed: BITS job failed with error"));
    assert!(matches!(bits_step(2), BitsStep::Wait));
    assert!(monitor_stops(4) && !monitor_stops(3));
    assert_eq!(progress_total(u64::MAX), None);
    assert_eq!(progress_total(10), Some(10));
}

#[test]
fn windows_websocket_builder() {
    let b = WindowsWebSocketBuilder::new();
    assert_eq!(b.configured_size(), None);
    assert_eq!(b.maximum_message_size(2048).configured_size(), Some(2048));
}

#[test]
fn winhttp_websocket_buffers() {
    let (t, b) = convert_message_for_sending(&Message::text("h\u{e9}"));
    assert_eq!(t, BufferType::Utf8Message);
    assert_eq!(b, vec![b'h', 0xc3, 0xa9]);
    let (t, b) = convert_message_for_sending(&Message::binary(vec![1, 2]));
    assert_eq!(t, BufferType::BinaryMessage);
    assert_eq!(b, vec![1, 2]);
    assert!(matches!(received_message(0, BufferType::Utf8Message, b"hello...".to_vec(), 5), Ok(Message::Text(s)) if s == "hello"));
    assert!(matches!(received_message(0, BufferType::BinaryMessage, vec![1, 2, 3], 9), Ok(Message::Binary(d)) if d == vec![1, 2, 3]));
    assert!(matches!(received_message(0, BufferType::Utf8Message, vec![b'a', 0xff], 2), Err(Error::Internal(m)) if m == "Invalid UTF-8 in WebSocket message: invalid utf-8 sequence of 1 bytes from index 1"));
    assert!(matches!(received_message(0, BufferType::Close, vec![], 0), Err(Error::Internal(m)) if m == "WebSocket connection closed by peer"));
    assert!(matches!(received_message(0, BufferType::Utf8Fragment, vec![b'a'], 1), Err(Error::Internal(m)) if m == "Unknown WebSocket message type"));
    assert!(matches!(received_message(12030, BufferType::BinaryMessage, vec![], 0), Err(Error::Internal(m)) if m == "WinHttpWebSocketReceive failed with error: 12030"));
    assert!(call_result("WinHttpWebSocketSend", 0).is_ok());
    assert!(matches!(call_result("WinHttpWebSocketSend", 5), Err(Error::Internal(m)) if m == "WinHttpWebSocketSend failed with error: 5"));
}

#[test]
fn winhttp_websocket_close_state() {
    let mut s = WindowsSocketState::new();
    assert!(s.check_open().is_ok());
    assert_eq!(s.close_code(), None);
    assert_eq!(s.maximum_message_size(), 1048576);
    s.set_maximum_message_size(64);
    assert_eq!(s.maximum_message_size(), 64);
    assert!(s.begin_close(CloseCode::GoingAway, Some("bye")));
    assert_eq!(s.close_code(), Some(1001));
    assert_eq!(s.close_reason().as_deref(), Some("bye"));
    assert!(matches!(s.finish_close(6), Err(Error::Internal(m)) if m == "WinHttpWebSocketClose failed with error: 6"));
    assert!(s.check_open().is_ok());
    assert!(s.begin_close(CloseCode::Normal, None));
    assert_eq!(s.close_code(), Some(1000));
    assert_eq!(s.close_reason().as_deref(), Some("bye"));
    assert!(s.finish_close(0).is_ok());
    assert!(matches!(s.check_open(), Err(Error::Internal(m)) if m == "WebSocket connection is closed"));
    assert!(!s.begin_close(CloseCode::ProtocolError, Some("x")));
    assert_eq!(s.close_code(), Some(1000));
}

fn stored(name: &str, domain: Option<&str>, path: Option<&str>) -> StoreEntry {
    StoreEntry {
        name: name.to_string(),
        value: "v".to_string(),
        domain: domain.map(|d| d.to_string()),
        path: path.map(|p| p.to_string()),
        secure: None,
        http_only: None,
    }
}

#[test]
fn cookie_expiry_lines() {
    let entries = vec![
        stored("sid", None, None),
        stored("sid", Some("example.com"), Some("/app")),
        stored("sid", Some("other.org"), Some("/")),
        stored("sid", Some("example.com"), Some("/admin")),
        stored("theme", None, None),
    ];
    let lines = expiry_lines(&entries, "sid", "example.com", "/app/page");
    assert_eq!(lines, vec![
        "sid=; Domain=example.com; Path=/; Expires=Thu, 01 Jan 1970 00:00:00 GMT".to_string(),
        "sid=; Domain=example.com; Path=/app; Expires=Thu, 01 Jan 1970 00:00:00 GMT".to_string(),
    ]);
    assert!(expiry_lines(&entries, "none", "example.com", "/").is_empty());
}

#[test]
fn winhttp_websocket_handshake() {
    let t = websocket_target("wss", Some("echo.example".to_string()), None, "/chat", Some("room=1")).unwrap();
    assert_eq!(t, ("echo.example".to_string(), 443, "/chat?room=1".to_string()));
    let t = websocket_target("ws", Some("h".to_string()), None, "/", None).unwrap();
    assert_eq!(t.1, 80);
    assert_eq!(websocket_target("ws", Some("h".to_string()), Some(9000), "/", None).unwrap().1, 9000);
    assert!(matches!(websocket_target("ws", None, None, "/", None), Err(Error::InvalidUrl)));
    assert!(websocket_secure("wss"));
    assert!(!websocket_secure("ws"));
    let key: [u8; 16] = [0, 1, 2, 3, 4, 5, 6, 7, 8, 9, 10, 11, 12, 13, 14, 15];
    assert_eq!(
        upgrade_headers(&key),
        "Connection: Upgrade\r\nUpgrade: websocket\r\nSec-WebSocket-Version: 13\r\nSec-WebSocket-Key: AAECAwQFBgcICQoLDA0ODw==\r\n"
    );
}

#[test]
fn winhttp_backend_settings() {
    let b: WindowsBackend<u8> = WindowsBackend::new(Some(1)).unwrap();
    assert_eq!(b.user_agent, "frakt/1.0");
    assert!(b.cookie_storage.is_none() && b.default_headers.is_none() && b.timeout.is_none());
    assert!(b.uses_bits());
    let mut config = BackendConfig::new();
    config.user_agent = Some("agent/2".to_string());
    config.use_cookies = Some(true);
    config.timeout = Some(std::time::Duration::from_secs(5));
    config.default_headers = Some(vec![pair("accept", "*/*")]);
    let b: WindowsBackend<u8> = WindowsBackend::with_config(config, None).unwrap();
    assert_eq!(b.user_agent, "agent/2");
    assert!(b.cookie_storage.is_some());
    assert_eq!(b.timeout, Some(std::time::Duration::from_secs(5)));
    assert_eq!(b.default_headers.as_ref().unwrap().len(), 1);
    assert!(!b.uses_bits());
    let b: WindowsBackend<u8> = WindowsBackend::with_config(BackendConfig::new(), None).unwrap();
    assert_eq!(b.user_agent, "frakt/1.0");
    assert!(b.cookie_storage.is_none());
}
