use frakt::body::{body_to_bytes, form_encode, url_encode, Body, MultipartPart};
use frakt::error::Error;

#[test]
fn percent_encoding_matches_urlencoding() {
    assert_eq!(url_encode("a b&c=d/é~"), "a%20b%26c%3Dd%2F%C3%A9~");
    assert_eq!(url_encode("AZaz09-._~"), "AZaz09-._~");
    assert_eq!(url_encode(""), "");
    assert_eq!(url_encode("a b"), urlencoding::encode("a b"));
}

#[test]
fn form_bodies() {
    assert_eq!(form_encode(&vec![]), "");
    assert_eq!(form_encode(&vec![("k".to_string(), "v".to_string())]), "k=v");
    assert_eq!(
        form_encode(&vec![("a b".to_string(), "1".to_string()), ("c".to_string(), "x&y".to_string())]),
        "a%20b=1&c=x%26y"
    );
}

#[test]
fn body_bytes_by_kind() {
    assert_eq!(body_to_bytes(&Body::empty()).unwrap(), Vec::<u8>::new());
    assert_eq!(body_to_bytes(&Body::text("héllo")).unwrap(), "héllo".as_bytes().to_vec());
    assert_eq!(body_to_bytes(&Body::bytes(vec![1, 2], "application/x-thing")).unwrap(), vec![1, 2]);
    assert_eq!(body_to_bytes(&Body::form(vec![("q".to_string(), "1 2".to_string())])).unwrap(), b"q=1%202".to_vec());
    assert!(body_to_bytes(&Body::multipart(vec![MultipartPart::text("f", "v")])).unwrap().is_empty());
    let v = serde_json::Value::String("x".to_string());
    assert_eq!(body_to_bytes(&Body::json(v)).unwrap(), b"\"x\"".to_vec());
}

#[test]
fn text_body_content_type() {
    match Body::text("hi") {
        Body::Bytes { content, content_type } => {
            assert_eq!(content, b"hi".to_vec());
            assert_eq!(content_type, "text/plain; charset=utf-8");
        }
        _ => panic!("expected bytes"),
    }
}

#[test]
fn multipart_parts() {
    let t = MultipartPart::text("field", "value");
    assert_eq!(t.name, "field");
    assert_eq!(t.content, b"value".to_vec());
    assert_eq!(t.content_type.as_deref(), Some("text/plain; charset=utf-8"));
    assert!(t.filename.is_none());
    let f = MultipartPart::file("upload", vec![9], "a.bin", Some("application/octet-stream".to_string()));
    assert_eq!(f.filename.as_deref(), Some("a.bin"));
    let copy = Body::multipart(vec![f]).duplicate();
    assert!(matches!(copy, Body::Multipart { ref parts } if parts.len() == 1 && parts[0].content == vec![9]));
}

#[test]
fn error_messages() {
    assert_eq!(Error::InvalidUrl.to_display_string(), "Invalid URL");
    assert_eq!(Error::Network { code: -1, message: "boom".to_string() }.to_display_string(), "Network error: boom (code: -1)");
    assert_eq!(Error::Network { code: 42, message: "x".to_string() }.to_display_string(), "Network error: x (code: 42)");
    assert_eq!(Error::Internal("oops".to_string()).to_display_string(), "Internal error: oops");
    assert_eq!(Error::Timeout.to_display_string(), "Request timed out");
    assert_eq!(Error::HttpError(404).to_display_string(), "HTTP error: 404");
    assert_eq!(Error::Json("bad".to_string()).to_display_string(), "JSON error: bad");
    assert_eq!(Error::Tls { message: "t".to_string() }.to_display_string(), "TLS error: t");
    assert_eq!(Error::ResponseTooLarge.to_display_string(), "Response body exceeds maximum size");
}

#[test]
fn json_body_serializes() {
    let mut m = serde_json::Map::new();
    m.insert("b".to_string(), serde_json::Value::from(2));
    m.insert("a".to_string(), serde_json::Value::Bool(true));
    let v = serde_json::Value::Object(m);
    let expected = serde_json::to_vec(&v).unwrap();
    assert_eq!(body_to_bytes(&Body::json(v)).unwrap(), expected);
}
