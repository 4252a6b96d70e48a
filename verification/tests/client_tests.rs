use frakt::auth::Auth;
use frakt::backend::reqwest::{check_part_types, client_settings, plan_request, ClientSetting, PlannedBody, ProxyKind, ReqwestBackend, UploadChunker};
use frakt::backend::types::BackendRequest;
use frakt::backend::{Backend, BackendConfig};
use frakt::body::Body;
use frakt::client::upload::{content_type_for, UploadPlan};
use frakt::client::{resolve_url, BackendType, Client, ClientBuilder, ProxyConfig};
use frakt::error::Error;
use frakt::request::{check_status, Method, RequestBuilder};
use frakt::wire::HeaderPair;
use std::time::Duration;

fn json_object_a1() -> serde_json::Value {
    let mut m = serde_json::Map::new();
    m.insert("a".to_string(), serde_json::Value::from(1));
    serde_json::Value::Object(m)
}

fn proxy(host: &str, port: u16) -> ProxyConfig {
    ProxyConfig { host: host.to_string(), port, username: None, password: None }
}

#[test]
fn settings_follow_the_configuration() {
    let mut config = BackendConfig::new();
    assert!(client_settings(&config).is_empty());
    config.timeout = Some(Duration::from_secs(5));
    config.user_agent = Some("MyApp/1.0".to_string());
    config.ignore_certificate_errors = Some(false);
    config.use_cookies = Some(true);
    config.http_proxy = Some(ProxyConfig {
        host: "proxy.local".to_string(),
        port: 8080,
        username: Some("u".to_string()),
        password: Some("p".to_string()),
    });
    config.socks_proxy = Some(ProxyConfig { username: Some("only".to_string()), ..proxy("socks.local", 1080) });
    let s = client_settings(&config);
    assert_eq!(s.len(), 5);
    assert!(matches!(s[0], ClientSetting::Timeout(d) if d == Duration::from_secs(5)));
    assert!(matches!(&s[1], ClientSetting::UserAgent(u) if u == "MyApp/1.0"));
    assert!(matches!(s[2], ClientSetting::CookieStore));
    match &s[3] {
        ClientSetting::Proxy { kind, url, credentials } => {
            assert_eq!(*kind, ProxyKind::Http);
            assert_eq!(url, "http://proxy.local:8080");
            assert_eq!(credentials, &Some(("u".to_string(), "p".to_string())));
        }
        _ => panic!("expected a proxy"),
    }
    match &s[4] {
        ClientSetting::Proxy { kind, url, credentials } => {
            assert_eq!(*kind, ProxyKind::All);
            assert_eq!(url, "socks5://socks.local:1080");
            assert!(credentials.is_none());
        }
        _ => panic!("expected a proxy"),
    }
}

#[test]
fn reqwest_backend_with_config() {
    let mut config = BackendConfig::new();
    config.timeout = Some(Duration::from_secs(3));
    config.ignore_certificate_errors = Some(true);
    config.default_headers = Some(vec![
        HeaderPair { name: "x-api-key".to_string(), value: "secret".to_string() },
        HeaderPair { name: "bad name".to_string(), value: "skipped".to_string() },
    ]);
    config.https_proxy = Some(proxy("proxy.local", 3128));
    let backend = ReqwestBackend::with_config(config).unwrap();
    assert!(backend.cookie_jar().is_none());
    let _copy = backend.duplicate();
    assert!(ReqwestBackend::new().is_ok());
}

#[test]
fn rejected_proxy_is_reported() {
    let mut config = BackendConfig::new();
    config.http_proxy = Some(proxy("bad host", 1));
    match ReqwestBackend::with_config(config) {
        Err(Error::Internal(m)) => assert!(m.starts_with("Invalid HTTP proxy: ")),
        _ => panic!("expected an error"),
    }
    let mut config = BackendConfig::new();
    config.socks_proxy = Some(proxy("bad host", 1));
    match Backend::reqwest_with_config(config) {
        Err(Error::Internal(m)) => assert!(m.starts_with("Invalid SOCKS proxy: ")),
        _ => panic!("expected an error"),
    }
}

#[test]
fn builder_headers_and_build() {
    let builder = ClientBuilder::new()
        .user_agent("MyApp/1.0")
        .timeout(Duration::from_secs(30))
        .header("X-API-Key", "secret")
        .unwrap()
        .header("x-api-key", "other")
        .unwrap()
        .use_cookies(true)
        .ignore_certificate_errors(false)
        .backend(BackendType::Reqwest);
    assert!(matches!(ClientBuilder::new().header("bad name", "v"), Err(Error::InvalidHeader)));
    assert!(matches!(ClientBuilder::new().header("x", "a\nb"), Err(Error::InvalidHeader)));
    let client = builder.build().unwrap();
    let jar = client.cookie_jar().expect("cookies were enabled");
    assert!(jar.all_cookies().is_empty());
    assert!(ClientBuilder::new().build().unwrap().cookie_jar().is_none());
    assert!(ClientBuilder::new().use_cookies(false).build().unwrap().cookie_jar().is_none());
    assert_eq!(BackendType::fallback(), BackendType::Reqwest);
}

#[test]
fn builder_proxy_auth_precedence() {
    let client = ClientBuilder::new()
        .http_proxy("proxy.local", 8080)
        .proxy_auth("user", "pass")
        .https_proxy("secure.local", 8443)
        .socks_proxy("socks.local", 1080)
        .proxy_auth("s", "t")
        .build();
    assert!(client.is_ok());
    let bad = ClientBuilder::new().https_proxy("bad host", 1).build();
    assert!(matches!(bad, Err(Error::Internal(m)) if m.starts_with("Invalid HTTPS proxy: ")));
}

#[test]
fn client_with_cookie_jar() {
    let jar = frakt::cookies::CookieJar::new(Backend::reqwest().unwrap());
    let client = ClientBuilder::new().cookie_jar(jar).build().unwrap();
    assert!(client.cookie_jar().is_some());
    assert!(Client::new().unwrap().cookie_jar().is_none());
    let _ws = client.websocket();
}

#[test]
fn base_url_resolution() {
    let base = Some("https://api.example.com/v1/".to_string());
    assert_eq!(resolve_url(&base, "/users"), "https://api.example.com/v1/users");
    assert_eq!(resolve_url(&base, "users"), "https://api.example.com/v1/users");
    assert_eq!(resolve_url(&base, "http://other.com/x"), "http://other.com/x");
    assert_eq!(resolve_url(&None, "relative"), "relative");
    let client = ClientBuilder::new().base_url("https://api.example.com//").build().unwrap();
    assert_eq!(client.resolve_url("//a"), "https://api.example.com/a");
    let req = client.get("items").unwrap().build();
    assert_eq!(req.request.url, "https://api.example.com/items");
    assert!(matches!(Client::new().unwrap().get("no scheme"), Err(Error::InvalidUrl)));
}

#[test]
fn request_builder_headers_body_and_status() {
    let client = Client::new().unwrap();
    let req = client
        .post("https://httpbin.org/post")
        .unwrap()
        .header("Content-Type", "application/json")
        .unwrap()
        .header("content-type", "text/plain")
        .unwrap()
        .auth(&Auth::bearer("tok"))
        .text("hello")
        .error_for_status(false)
        .track_progress()
        .build();
    assert_eq!(req.request.method, Method::Post);
    assert_eq!(req.request.headers.len(), 2);
    assert_eq!(req.request.headers[0].name, "content-type");
    assert_eq!(req.request.headers[0].value, "text/plain");
    assert_eq!(req.request.headers[1].name, "authorization");
    assert_eq!(req.request.headers[1].value, "Bearer tok");
    assert!(req.request.track_progress);
    assert!(req.check_status(500).is_ok());
    assert!(matches!(check_status(true, 404), Err(Error::HttpError(404))));
    assert!(check_status(true, 399).is_ok());
    assert!(check_status(false, 503).is_ok());
    assert!(matches!(client.put("https://x.test").unwrap().header("a b", "c"), Err(Error::InvalidHeader)));
    let req = client.delete("https://x.test").unwrap().allow_error_status().build();
    assert!(!req.error_for_status);
    for m in [client.get("https://x.test"), client.head("https://x.test"), client.patch("https://x.test")] {
        assert!(m.is_ok());
    }
}

#[test]
fn reqwest_plan_of_requests() {
    let backend = Backend::reqwest().unwrap();
    let req = RequestBuilder::new(Method::Post, "https://example.com/form", backend.duplicate())
        .unwrap()
        .form(vec![("name".to_string(), "John Doe".to_string()), ("q".to_string(), "a&b=c".to_string())])
        .track_progress()
        .build();
    let plan = plan_request(req.request).unwrap();
    assert_eq!(plan.method, Method::Post);
    match plan.body {
        PlannedBody::Bytes { data, content_type, with_progress } => {
            assert_eq!(data, b"name=John%20Doe&q=a%26b%3Dc".to_vec());
            assert_eq!(content_type.as_deref(), Some("application/x-www-form-urlencoded"));
            assert!(with_progress);
        }
        _ => panic!("expected bytes"),
    }
    let ftp = BackendRequest {
        method: Method::Get,
        url: "ftp://example.com/file".to_string(),
        headers: vec![],
        body: None,
        track_progress: false,
    };
    assert!(matches!(plan_request(ftp), Err(Error::InvalidUrl)));
    let options = BackendRequest {
        method: Method::Options,
        url: "http://example.com/".to_string(),
        headers: vec![],
        body: None,
        track_progress: false,
    };
    assert!(matches!(plan_request(options), Err(Error::Internal(m)) if m == "Unsupported method: OPTIONS"));
    let json = BackendRequest {
        method: Method::Put,
        url: "http://example.com/".to_string(),
        headers: vec![],
        body: Some(Body::json(json_object_a1())),
        track_progress: false,
    };
    match plan_request(json).unwrap().body {
        PlannedBody::Bytes { data, content_type, .. } => {
            assert_eq!(data, br#"{"a":1}"#.to_vec());
            assert!(content_type.is_none());
        }
        _ => panic!("expected bytes"),
    }
    let none = BackendRequest {
        method: Method::Head,
        url: "http://example.com/".to_string(),
        headers: vec![],
        body: None,
        track_progress: false,
    };
    assert!(matches!(plan_request(none).unwrap().body, PlannedBody::Nothing));
}

#[test]
fn upload_chunks_tile_the_data() {
    let mut c = UploadChunker::new(20000, 8192);
    assert_eq!(c.next_chunk(), Some((0, 8192)));
    assert_eq!(c.next_chunk(), Some((8192, 16384)));
    assert_eq!(c.next_chunk(), Some((16384, 20000)));
    assert_eq!(c.next_chunk(), None);
    assert_eq!(c.next_chunk(), None);
    let mut empty = UploadChunker::new(0, 8192);
    assert_eq!(empty.next_chunk(), None);
}

#[test]
fn transfer_builders() {
    let client = Client::new().unwrap();
    let plan = client
        .download("https://example.com/file.bin", "/tmp/file.bin")
        .unwrap()
        .header("Accept", "*/*")
        .unwrap()
        .auth(&Auth::basic("u", "p"))
        .unwrap()
        .track_progress()
        .plan()
        .unwrap();
    assert_eq!(plan.file_path, "/tmp/file.bin");
    assert!(plan.error_for_status);
    let built = plan.request.build();
    assert!(!built.error_for_status);
    assert_eq!(built.request.headers[1].value, format!("Basic {}", frakt::auth::base64_encode(b"u:p")));
    let bad = client.download("https://example.com/f", "/tmp/f").unwrap().header("x", "caf\u{e9}").unwrap().plan();
    assert!(matches!(bad, Err(Error::InvalidHeader)));

    let up = client.upload("https://example.com/up").unwrap().from_data(vec![1, 2, 3]).plan().unwrap();
    match up {
        UploadPlan::Ready(r) => {
            let r = r.build();
            assert_eq!(r.request.method, Method::Post);
            assert!(matches!(r.request.body, Some(Body::Bytes { ref content, ref content_type }) if content == &vec![1, 2, 3] && content_type == "application/octet-stream"));
        }
        _ => panic!("expected a ready upload"),
    }
    let up = client.upload("https://example.com/up").unwrap().from_file("report.pdf").plan().unwrap();
    match up {
        UploadPlan::ReadFile { request, path, content_type } => {
            assert_eq!(path, "report.pdf");
            assert_eq!(content_type, "application/pdf");
            let r = request.build();
            assert_eq!(r.request.headers[0].name, "content-type");
            assert_eq!(r.request.headers[0].value, "application/pdf");
        }
        _ => panic!("expected a file upload"),
    }
    assert!(matches!(client.upload("https://example.com/up").unwrap().plan(), Err(Error::Internal(m)) if m == "No file or data specified for upload"));

    let bg = client
        .download_background("https://example.com/big", "/tmp/big")
        .session_identifier("update-1")
        .to_file("/tmp/other")
        .plan()
        .unwrap();
    assert_eq!(bg.file_path, "/tmp/other");
    assert_eq!(bg.session_identifier.as_deref(), Some("update-1"));
}

#[test]
fn content_types_by_extension() {
    assert_eq!(content_type_for(Some("txt")), "text/plain");
    assert_eq!(content_type_for(Some("jpeg")), "image/jpeg");
    assert_eq!(content_type_for(Some("JPG")), "application/octet-stream");
    assert_eq!(content_type_for(None), "application/octet-stream");
}

fn part(content_type: Option<&str>) -> frakt::body::MultipartPart {
    frakt::body::MultipartPart {
        name: "f".to_string(),
        content: vec![1, 2],
        content_type: content_type.map(|t| t.to_string()),
        filename: None,
    }
}

#[test]
fn multipart_content_types_are_checked() {
    assert!(check_part_types(&vec![part(None), part(Some("text/plain"))]).is_ok());
    assert!(matches!(check_part_types(&vec![part(Some("not a type"))]),
        Err(Error::Internal(ref m)) if m.starts_with("Invalid content type: ")));
    let bad = BackendRequest {
        method: Method::Post,
        url: "http://example.com/".to_string(),
        headers: vec![],
        body: Some(Body::Multipart { parts: vec![part(Some("@@@"))] }),
        track_progress: false,
    };
    assert!(matches!(plan_request(bad), Err(Error::Internal(ref m)) if m.starts_with("Invalid content type: ")));
}

#[test]
fn proxy_credentials_need_a_url_that_takes_them() {
    let ok = ClientBuilder::new().http_proxy("proxy.local", 8080).proxy_auth("u", "p").build_checked();
    assert!(matches!(ok, Some(Ok(_))));
    let refused = ClientBuilder::new().socks_proxy("/x", 1080).proxy_auth("u", "p").build_checked();
    assert!(refused.is_none());
    let no_credentials = ClientBuilder::new().socks_proxy("/x", 1080).build_checked();
    assert!(no_credentials.is_some());
}
