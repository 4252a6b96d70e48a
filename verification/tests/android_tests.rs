use frakt::backend::android::{add_missing_headers, AndroidBackend};
use frakt::backend::types::BackendRequest;
use frakt::backend::BackendConfig;
use frakt::backend::android::callback::{callback_headers, callback_status, map_cronet_error, CallbackChannels, CallbackRegistry, FailureRoute};
use frakt::backend::android::download::ProgressReporter;
use frakt::backend::android::response::{HeaderEntry, ResponseInfo};
use frakt::backend::android::request::{cronet_content_type, cronet_headers, cronet_method};
use frakt::body::Body;
use frakt::request::Method;
use frakt::backend::android::request::{CronetEvent, CronetStep, ResponseCollector};
use frakt::error::Error;
use frakt::backend::android::cookies::AndroidCookieStorage;
use frakt::backend::android::download::{monitor_step, row_progress, DownloadStatus};
use frakt::backend::android::jni_bindings::{HttpMethod, RequestPriority};
use frakt::backend::android::response::utils;
use frakt::cookies::Cookie;
use frakt::wire::HeaderPair;

fn pair(n: &str, v: &str) -> HeaderPair {
    HeaderPair { name: n.to_string(), value: v.to_string() }
}

#[test]
fn test_http_method_conversion() {
    assert_eq!(HttpMethod::Get.as_str(), "GET");
    assert_eq!(HttpMethod::Post.as_str(), "POST");
    assert_eq!(HttpMethod::Put.as_str(), "PUT");
    assert_eq!(HttpMethod::Delete.as_str(), "DELETE");
    assert_eq!(HttpMethod::Head.as_str(), "HEAD");
    assert_eq!(HttpMethod::Patch.as_str(), "PATCH");
    assert_eq!(HttpMethod::Options.as_str(), "OPTIONS");
}

#[test]
fn test_response_info_creation() {
    let headers = vec![
        pair("content-type", "application/json"),
        pair("content-length", "1024"),
        pair("content-encoding", "gzip"),
    ];
    assert_eq!(utils::get_content_type(&headers), Some("application/json".to_string()));
    assert_eq!(utils::get_content_length(&headers), Some(1024));
    assert!(utils::is_compressed(&headers));
    assert!(utils::is_success_status(200));
    assert!(!utils::is_success_status(404));
}

#[test]
fn priority_values() {
    assert_eq!(RequestPriority::Idle.value(), 0);
    assert_eq!(RequestPriority::Lowest.value(), 1);
    assert_eq!(RequestPriority::Low.value(), 2);
    assert_eq!(RequestPriority::Medium.value(), 3);
    assert_eq!(RequestPriority::Highest.value(), 4);
}

#[test]
fn status_classes() {
    assert!(utils::is_success_status(299));
    assert!(!utils::is_success_status(300));
    assert!(utils::is_redirect_status(301));
    assert!(!utils::is_redirect_status(200));
}

#[test]
fn content_length_edge_cases() {
    assert_eq!(utils::get_content_length(&vec![pair("content-length", "+7")]), Some(7));
    assert_eq!(utils::get_content_length(&vec![pair("content-length", " 7")]), None);
    assert_eq!(utils::get_content_length(&vec![pair("content-length", "")]), None);
    assert_eq!(utils::get_content_length(&vec![pair("content-length", "18446744073709551615")]), Some(u64::MAX));
    assert_eq!(utils::get_content_length(&vec![pair("content-length", "18446744073709551616")]), None);
    assert_eq!(utils::get_content_length(&vec![pair("content-length", "-1")]), None);
    assert_eq!(utils::get_content_length(&vec![]), None);
    for v in ["0", "42", "+", "1a", "007"] {
        assert_eq!(utils::get_content_length(&vec![pair("content-length", v)]), v.parse::<u64>().ok());
    }
}

#[test]
fn compression_detection() {
    assert!(utils::is_compressed(&vec![pair("content-encoding", "BR")]));
    assert!(utils::is_compressed(&vec![pair("content-encoding", "x-Deflate")]));
    assert!(!utils::is_compressed(&vec![pair("content-encoding", "identity")]));
    assert!(!utils::is_compressed(&vec![]));
    assert_eq!(utils::get_content_encoding(&vec![pair("content-encoding", "gzip")]), Some("gzip".to_string()));
}

#[test]
fn header_text_requires_visible_ascii() {
    assert_eq!(utils::get_content_type(&vec![pair("content-type", "tëxt")]), None);
    assert_eq!(utils::get_content_type(&vec![pair("Content-Type", "a")]), None);
    let first = vec![pair("content-type", "a"), pair("content-type", "b")];
    assert_eq!(utils::get_content_type(&first), Some("a".to_string()));
}

#[test]
fn disposition_filenames() {
    let quoted = vec![pair("content-disposition", "attachment; filename=\"report.pdf\"; size=3")];
    assert_eq!(utils::get_filename_from_content_disposition(&quoted), Some("report.pdf".to_string()));
    let plain = vec![pair("content-disposition", "attachment; filename= data.csv ; x=1")];
    assert_eq!(utils::get_filename_from_content_disposition(&plain), Some("data.csv".to_string()));
    let open_quote = vec![pair("content-disposition", "attachment; filename=\"abc")];
    assert_eq!(utils::get_filename_from_content_disposition(&open_quote), Some("abc".to_string()));
    let lone_quote = vec![pair("content-disposition", "filename=\"")];
    assert_eq!(utils::get_filename_from_content_disposition(&lone_quote), Some("\"".to_string()));
    let none = vec![pair("content-disposition", "inline")];
    assert_eq!(utils::get_filename_from_content_disposition(&none), None);
}

#[test]
fn android_cookie_storage_stubs() {
    let mut storage = AndroidCookieStorage::new().unwrap();
    assert!(storage.all_cookies().is_empty());
    assert!(storage.cookies_for_url("not a url").unwrap().is_empty());
    assert!(storage.add_cookie(Cookie::new("a", "b")).is_ok());
    assert!(storage.remove_cookie(Cookie::new("a", "b")).is_ok());
    let url = url::Url::parse("https://example.com/").unwrap();
    let stored = storage
        .process_response_headers(url.as_str(), &vec![pair("set-cookie", "id=1"), pair("set-cookie", "x")])
        .unwrap();
    assert!(stored <= 2);
    let fields = storage.get_cookies_for_url(url.as_str()).unwrap();
    assert_eq!(fields.len(), 1);
    assert_eq!(fields[0].name, "cookie");
    assert!(fields[0].value.contains("id=1"));
    storage.clear();
    assert!(storage.get_cookies_for_url(url.as_str()).unwrap().is_empty());
}

#[test]
fn android_download_rows() {
    assert_eq!(DownloadStatus::from_i32(1), DownloadStatus::Pending);
    assert_eq!(DownloadStatus::from_i32(2), DownloadStatus::Running);
    assert_eq!(DownloadStatus::from_i32(4), DownloadStatus::Paused);
    assert_eq!(DownloadStatus::from_i32(8), DownloadStatus::Successful);
    assert_eq!(DownloadStatus::from_i32(16), DownloadStatus::Failed);
    assert_eq!(DownloadStatus::from_i32(3), DownloadStatus::Failed);
    assert_eq!(row_progress(2, 10, 0), (DownloadStatus::Running, 10, None));
    assert_eq!(row_progress(8, 10, 20), (DownloadStatus::Successful, 10, Some(20)));
    assert_eq!(row_progress(8, -1, -1), (DownloadStatus::Successful, u64::MAX, Some(u64::MAX)));
    assert_eq!(monitor_step(DownloadStatus::Successful), (true, true));
    assert_eq!(monitor_step(DownloadStatus::Failed), (false, true));
    assert_eq!(monitor_step(DownloadStatus::Running), (false, false));
}

#[test]
fn cronet_request_setup() {
    assert_eq!(cronet_method(Method::Patch).unwrap(), HttpMethod::Patch);
    assert!(matches!(cronet_method(Method::Options), Err(frakt::error::Error::Internal(m)) if m == "Unsupported HTTP method: OPTIONS"));
    assert_eq!(cronet_content_type(&Some(Body::json(serde_json::Value::Null))).as_deref(), Some("application/json"));
    assert_eq!(cronet_content_type(&Some(Body::empty())), None);
    let h = cronet_headers(&vec![pair("accept", "*/*")], &Some(Body::text("x")));
    assert_eq!(h.len(), 2);
    assert_eq!(h[0].name, "Content-Type");
    assert_eq!(h[0].value, "text/plain; charset=utf-8");
    let h = cronet_headers(&vec![pair("content-type", "a/b")], &Some(Body::text("x")));
    assert_eq!(h.len(), 1);
    assert_eq!(h[0].value, "a/b");
}

#[test]
fn cronet_response_collection() {
    let mut c = ResponseCollector::new();
    assert!(matches!(c.on_event(CronetEvent::Redirect(vec![pair("location", "/x")])), CronetStep::Continue));
    assert!(matches!(c.on_event(CronetEvent::ResponseStarted(200, vec![pair("a", "b")])), CronetStep::Continue));
    assert!(matches!(c.on_event(CronetEvent::BodyChunk(vec![1, 2])), CronetStep::Continue));
    assert!(matches!(c.on_event(CronetEvent::BodyChunk(vec![3])), CronetStep::Continue));
    assert!(!c.is_done());
    assert!(matches!(c.on_event(CronetEvent::Succeeded), CronetStep::Continue));
    assert!(matches!(c.on_event(CronetEvent::BodyChannelClosed), CronetStep::Continue));
    assert!(c.is_done());
    let r = c.finish().unwrap();
    assert_eq!(r.status, 200);
    assert_eq!(r.body, vec![1, 2, 3]);
    assert_eq!(r.redirect_headers.len(), 1);
    let mut t = ResponseCollector::new();
    assert!(matches!(t.on_event(CronetEvent::TimedOut), CronetStep::Cancel(Error::Timeout)));
    assert!(matches!(t.on_event(CronetEvent::Unexpected), CronetStep::Fail(Error::Internal(m)) if m == "Unexpected callback event"));
    assert!(matches!(ResponseCollector::new().finish(), Err(Error::Internal(m)) if m == "No status received"));
}

fn entry(n: &str, vals: &[&str]) -> HeaderEntry {
    HeaderEntry { name: n.to_string(), values: vals.iter().map(|v| v.to_string()).collect() }
}

#[test]
fn response_info_from_parts() {
    let r = ResponseInfo::from_parts(200, vec![entry("Set-Cookie", &["a=1", "b=2"]), entry("Bad Name", &[]), entry("X-T", &["v"])], true, "h2".to_string(), 123).unwrap();
    assert_eq!(r.status, 200);
    assert_eq!(r.headers.len(), 3);
    assert_eq!((r.headers[0].name.as_str(), r.headers[0].value.as_str()), ("set-cookie", "a=1"));
    assert_eq!((r.headers[1].name.as_str(), r.headers[1].value.as_str()), ("set-cookie", "b=2"));
    assert_eq!((r.headers[2].name.as_str(), r.headers[2].value.as_str()), ("x-t", "v"));
    assert!(r.was_cached);
    assert_eq!(r.negotiated_protocol, "h2");
    assert_eq!(r.received_byte_count, 123);
    assert!(matches!(ResponseInfo::from_parts(99, vec![], false, String::new(), 0), Err(Error::Internal(m)) if m == "Invalid HTTP status code 99: invalid status code"));
    assert!(matches!(ResponseInfo::from_parts(-1, vec![], false, String::new(), 0), Err(Error::Internal(m)) if m == "Invalid HTTP status code -1: invalid status code"));
    assert_eq!(ResponseInfo::from_parts(65536 + 204, vec![], false, String::new(), 0).unwrap().status, 204);
    assert!(matches!(ResponseInfo::from_parts(200, vec![entry("Bad Name", &["x"])], false, String::new(), 0), Err(Error::Internal(m)) if m == "Invalid header name 'Bad Name': invalid HTTP header name"));
    assert!(matches!(ResponseInfo::from_parts(200, vec![entry("ok", &["fine", "bad\u{7f}"]), entry("Bad Name", &["x"])], false, String::new(), 0), Err(Error::Internal(m)) if m == "Invalid header value for 'ok': failed to parse header value"));
}

#[test]
fn callback_decisions() {
    assert_eq!(callback_status(302).unwrap(), 302);
    assert!(matches!(callback_status(1000), Err(Error::Internal(m)) if m == "Invalid status code 1000: invalid status code"));
    let h = callback_headers(&vec![entry("Bad Name", &["x"]), entry("A", &["1", "bad\u{0}", "2"]), entry("b", &[])]);
    assert_eq!(h.len(), 2);
    assert_eq!((h[0].name.as_str(), h[0].value.as_str()), ("a", "1"));
    assert_eq!((h[1].name.as_str(), h[1].value.as_str()), ("a", "2"));

    let mut c = CallbackChannels::new();
    assert!(c.sends_response_event() && c.sends_body_data());
    assert!(c.on_succeeded());
    assert!(!c.sends_body_data());
    assert_eq!(c.on_failed(), FailureRoute::Response);
    assert_eq!(c.on_failed(), FailureRoute::Dropped);
    let mut d = CallbackChannels { response_open: false, body_open: true };
    assert_eq!(d.on_failed(), FailureRoute::Body);
    assert!(!d.response_open && !d.body_open);
}

#[test]
fn cronet_error_mapping() {
    let m = || "boom".to_string();
    assert!(matches!(map_cronet_error(m(), None), Error::Network { code: -1, message } if message == "boom"));
    assert!(matches!(map_cronet_error(m(), Some(9)), Error::Timeout));
    assert!(matches!(map_cronet_error(m(), Some(11)), Error::Timeout));
    assert!(matches!(map_cronet_error(m(), Some(6)), Error::Network { code: 6, message } if message == "Hostname not resolved: boom"));
    assert!(matches!(map_cronet_error(m(), Some(7)), Error::Network { code: 7, message } if message == "No internet connection: boom"));
    assert!(matches!(map_cronet_error(m(), Some(12)), Error::Network { code: 12, message } if message == "Connection refused: boom"));
    assert!(matches!(map_cronet_error(m(), Some(13)), Error::Network { code: 13, message } if message == "Connection reset: boom"));
    assert!(matches!(map_cronet_error(m(), Some(14)), Error::Network { code: 14, message } if message == "Address unreachable: boom"));
    assert!(matches!(map_cronet_error(m(), Some(10)), Error::Network { code: 10, message } if message == "boom"));
    assert!(matches!(map_cronet_error(m(), Some(-1)), Error::Network { code: -1, message } if message == "boom"));
}

#[test]
fn callback_registry() {
    let mut r: CallbackRegistry<&str> = CallbackRegistry::new();
    let a = r.register_callback_handler("a");
    let b = r.register_callback_handler("b");
    assert_eq!((a, b), (1, 2));
    assert_eq!(r.get_callback_handler(a), Some("a"));
    assert_eq!(r.get_callback_handler(a), None);
    r.reinsert_callback_handler(a, "a2");
    assert_eq!(r.get_callback_handler(a), Some("a2"));
    r.unregister_callback_handler(b);
    assert_eq!(r.get_callback_handler(b), None);
    assert_eq!(r.register_callback_handler("c"), 3);
}

#[test]
fn download_progress_reporting() {
    let mut p = ProgressReporter::new();
    assert!(!p.observe(0, None));
    assert!(p.observe(10, None));
    assert!(!p.observe(10, None));
    assert!(p.observe(10, Some(100)));
    assert!(!p.observe(10, Some(100)));
    assert!(p.observe(20, Some(100)));
}

fn backend_request(url: &str, headers: Vec<HeaderPair>) -> BackendRequest {
    BackendRequest { method: Method::Get, url: url.to_string(), headers, body: None, track_progress: false }
}

#[test]
fn android_request_preparation() {
    let mut h = vec![pair("x", "2")];
    add_missing_headers(&mut h, &vec![pair("accept", "*/*"), pair("x", "1"), pair("accept", "text/html")]);
    assert_eq!(h.len(), 2);
    assert_eq!((h[0].name.as_str(), h[0].value.as_str()), ("x", "2"));
    assert_eq!((h[1].name.as_str(), h[1].value.as_str()), ("accept", "*/*"));

    let plain: AndroidBackend<u8, u8> = AndroidBackend::new(1, 2).unwrap();
    assert!(plain.cookie_storage.is_none());
    assert!(plain.cookie_jar().is_none());
    assert!(matches!(plain.prepare_request(backend_request("ftp://example.com/f", vec![])), Err(Error::InvalidUrl)));
    assert!(matches!(plain.prepare_request(backend_request("not a url", vec![])), Err(Error::InvalidUrl)));
    let r = plain.prepare_request(backend_request("https://example.com/", vec![pair("x", "1")])).unwrap();
    assert_eq!(r.headers.len(), 1);

    let mut config = BackendConfig::new();
    config.use_cookies = Some(true);
    config.default_headers = Some(vec![pair("accept", "*/*"), pair("x", "default")]);
    let mut b: AndroidBackend<u8, u8> = AndroidBackend::with_config(config, 1, 2).unwrap();
    assert!(b.cookie_storage.is_some());
    let url = url::Url::parse("https://example.com/app").unwrap();
    b.store_response_cookies(url.as_str(), &vec![vec![pair("set-cookie", "first=1")]], &vec![pair("set-cookie", "second=2")]);
    let r = b.prepare_request(backend_request("https://example.com/app", vec![pair("x", "mine")])).unwrap();
    assert_eq!(r.headers.len(), 3);
    assert_eq!((r.headers[0].name.as_str(), r.headers[0].value.as_str()), ("x", "mine"));
    assert_eq!((r.headers[1].name.as_str(), r.headers[1].value.as_str()), ("accept", "*/*"));
    assert_eq!(r.headers[2].name, "cookie");
    assert!(r.headers[2].value.contains("first=1") && r.headers[2].value.contains("second=2"));
}
