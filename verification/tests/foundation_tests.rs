use frakt::backend::foundation::{boundary_for, encode_multipart_data, foundation_body, foundation_headers, foundation_status, foundation_url_scheme, header_assignments};
use frakt::backend::foundation::delegate::shared_context::{DownloadContext, TaskSharedContext};
use frakt::backend::foundation::error::map_ns_error;
use frakt::backend::foundation::FoundationBackend;
use frakt::backend::BackendConfig;
use frakt::error::Error;
use frakt::body::{Body, MultipartPart};
use frakt::wire::HeaderPair;

fn pair(n: &str, v: &str) -> HeaderPair {
    HeaderPair { name: n.to_string(), value: v.to_string() }
}

#[test]
fn multipart_encoding() {
    let b = boundary_for(123);
    assert_eq!(b, "----formdata-frakt-123");
    let parts = vec![
        MultipartPart::text("field", "value"),
        MultipartPart::file("file", vec![0xff, 0x00], "a.bin", None),
    ];
    let data = encode_multipart_data("XYZ", &parts);
    let mut expected = b"\r\n--XYZ\r\nContent-Disposition: form-data; name=\"field\"\r\nContent-Type: text/plain; charset=utf-8\r\n\r\nvalue".to_vec();
    expected.extend_from_slice(b"\r\n--XYZ\r\nContent-Disposition: form-data; name=\"file\"; filename=\"a.bin\"\r\n\r\n");
    expected.extend_from_slice(&[0xff, 0x00]);
    expected.extend_from_slice(b"\r\n--XYZ--\r\n");
    assert_eq!(data, expected);
    assert_eq!(encode_multipart_data("B", &vec![]), b"\r\n--B--\r\n".to_vec());
}

#[test]
fn foundation_bodies() {
    assert!(foundation_body(&Body::empty(), "b").unwrap().is_none());
    let (t, d) = foundation_body(&Body::bytes(vec![1], "application/x-custom"), "b").unwrap().unwrap();
    assert_eq!((t.as_str(), d), ("application/x-custom", vec![1]));
    let (t, d) = foundation_body(&Body::form(vec![("a".to_string(), "1".to_string())]), "b").unwrap().unwrap();
    assert_eq!((t.as_str(), d), ("application/x-www-form-urlencoded", b"a=1".to_vec()));
    let (t, _) = foundation_body(&Body::multipart(vec![]), "BND").unwrap().unwrap();
    assert_eq!(t, "multipart/form-data; boundary=BND");
    let (t, d) = foundation_body(&Body::json(serde_json::Value::Null), "b").unwrap().unwrap();
    assert_eq!((t.as_str(), d), ("application/json", b"null".to_vec()));
}

#[test]
fn foundation_header_order() {
    let a = header_assignments(&Some(vec![pair("user-agent", "x")]), &vec![pair("accept", "*/*")], &Some("text/plain".to_string()));
    let got: Vec<(String, String)> = a.into_iter().map(|p| (p.name, p.value)).collect();
    assert_eq!(
        got,
        vec![
            ("user-agent".to_string(), "x".to_string()),
            ("accept".to_string(), "*/*".to_string()),
            ("Content-Type".to_string(), "text/plain".to_string())
        ]
    );
    assert!(header_assignments(&None, &vec![], &None).is_empty());
}

#[test]
fn ns_error_mapping() {
    assert!(matches!(map_ns_error(true, "NSURLErrorDomain", -1001, "t".to_string()), Error::Timeout));
    assert!(matches!(map_ns_error(true, "NSURLErrorDomain", -999, "c".to_string()), Error::Cancelled));
    assert!(matches!(map_ns_error(true, "NSURLErrorDomain", -1100, "cert".to_string()), Error::Tls { message } if message == "cert"));
    assert!(matches!(map_ns_error(true, "NSURLErrorDomain", -1200, "cert".to_string()), Error::Tls { .. }));
    assert!(matches!(map_ns_error(true, "NSURLErrorDomain", -1202, "cert".to_string()), Error::Network { code: -1202, .. }));
    assert!(matches!(map_ns_error(true, "NSURLErrorDomain", -1000, "bad".to_string()), Error::Tls { .. }));
    assert!(matches!(map_ns_error(true, "NSURLErrorDomain", -1, "offline".to_string()), Error::Network { code: -1, message } if message == "offline"));
    match map_ns_error(false, "NSPOSIXErrorDomain", -5, "io".to_string()) {
        Error::Internal(m) => assert_eq!(m, "Domain: NSPOSIXErrorDomain, Code: -5, Message: io"),
        _ => panic!("expected an internal error"),
    }
}

#[test]
fn foundation_response_fields() {
    assert_eq!(foundation_status(Some(404)), 404);
    assert_eq!(foundation_status(Some(42)), 200);
    assert_eq!(foundation_status(Some(65536 + 201)), 201);
    assert_eq!(foundation_status(None), 200);
    let h = foundation_headers(&vec![pair("Content-Type", "a/b"), pair("bad name", "x"), pair("X-A", "1"), pair("content-type", "c/d"), pair("X-B", "bad\u{1}")]);
    assert_eq!(h.len(), 2);
    assert_eq!(h[0].name, "content-type");
    assert_eq!(h[0].value, "c/d");
    assert_eq!(h[1].name, "x-a");
    assert_eq!(h[1].value, "1");
}

#[test]
fn shared_context_buffer_limit() {
    let mut c: TaskSharedContext<u16, String> = TaskSharedContext::new();
    assert!(!c.is_completed());
    c.set_max_response_buffer_size(4);
    assert!(c.append_data(&[1, 2, 3]).is_ok());
    assert!(matches!(c.append_data(&[4, 5]), Err(Error::ResponseTooLarge)));
    assert_eq!(c.response_buffer, vec![1, 2, 3]);
    assert!(c.append_data(&[4]).is_ok());
    assert_eq!(c.take_response_buffer().unwrap(), vec![1, 2, 3, 4]);
    assert!(c.response_buffer.is_empty());
    assert_eq!(c.on_data_received(&[9, 9]), None);
    assert_eq!(c.response_buffer, vec![9, 9]);
    assert_eq!(c.on_data_received(&[1, 2, 3]), None);
    assert_eq!(c.response_buffer, vec![9, 9]);
    assert_eq!(c.get_progress(), (2, None));
    c.set_error("failed".to_string());
    assert!(c.is_completed());
    assert_eq!(c.error.as_deref(), Some("failed"));
}

#[test]
fn shared_context_progress() {
    let mut c: TaskSharedContext<u16, String> = TaskSharedContext::with_progress_callback();
    c.on_response(200, 10);
    assert_eq!(c.response, Some(200));
    assert_eq!(c.update_progress(4), Some((4, Some(10))));
    assert_eq!(c.get_progress(), (4, Some(10)));
    c.on_response(201, -1);
    assert_eq!(c.total_bytes_expected, 10);
    let mut d: TaskSharedContext<u16, String> = TaskSharedContext::with_download(Some("/tmp/f".to_string()), true);
    assert_eq!(d.on_download_progress(5, 0), Some((5, None)));
    assert_eq!(d.on_download_progress(3, 20), None);
    assert_eq!(d.get_progress(), (5, Some(20)));
    assert_eq!(d.on_download_progress(8, -1), Some((8, Some(20))));
    d.bytes_downloaded = u64::MAX;
    assert_eq!(d.update_progress(2), Some((1, Some(20))));
    d.on_complete(None);
    assert!(d.is_completed());
    assert!(d.error.is_none());
    let mut dc = d.download_context.take().unwrap();
    assert_eq!(dc.destination_path.as_deref(), Some("/tmp/f"));
    dc.set_download_location("file:///tmp/x".to_string());
    dc.set_final_location("/tmp/f".to_string());
    assert_eq!(dc.download_location.as_deref(), Some("file:///tmp/x"));
    assert_eq!(dc.final_location.as_deref(), Some("/tmp/f"));
    let fresh = DownloadContext::new(None);
    assert!(fresh.destination_path.is_none() && fresh.final_location.is_none());
    let mut q: TaskSharedContext<u16, String> = TaskSharedContext::new();
    assert_eq!(q.update_progress(7), None);
    q.on_complete(Some("e".to_string()));
    assert!(q.is_completed());
}

#[test]
fn foundation_backend_settings() {
    let b: FoundationBackend<u8, u16> = FoundationBackend::new(7, 9).unwrap();
    assert_eq!(*b.session(), 7);
    assert!(b.cookie_jar().is_none());
    assert!(b.default_headers().is_none());
    let mut config = BackendConfig::new();
    config.default_headers = Some(vec![pair("accept", "*/*")]);
    let b: FoundationBackend<u8, u16> = FoundationBackend::with_config(config, 1, 2).unwrap();
    assert_eq!(b.default_headers().as_ref().unwrap()[0].value, "*/*");
    assert!(b.cookie_jar().is_none());
    let b: FoundationBackend<u8, u16> = FoundationBackend::with_session(3, 4);
    assert_eq!(*b.session(), 3);
}

#[test]
fn url_scheme_must_be_http_or_https() {
    assert!(foundation_url_scheme(Some("http")).is_ok());
    assert!(foundation_url_scheme(Some("https")).is_ok());
    assert!(matches!(foundation_url_scheme(Some("ftp")), Err(Error::InvalidUrl)));
    assert!(matches!(foundation_url_scheme(Some("HTTP")), Err(Error::InvalidUrl)));
    assert!(matches!(foundation_url_scheme(None), Err(Error::InvalidUrl)));
}
