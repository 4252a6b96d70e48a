use frakt::backend::cookie_store::{cookie_headers_for_pairs, CookieJar as StoreJar};
use frakt::backend::reqwest::cookies::{parse_cookie_header, ReqwestCookieStorage};
use frakt::backend::windows::cookies::WindowsCookieStorage;
use frakt::backend::{Backend, CookieStorage};
use frakt::cookies::{Cookie, CookieAcceptPolicy, CookieJar};
use frakt::error::Error;
use frakt::wire::HeaderPair;

fn pair(n: &str, v: &str) -> HeaderPair {
    HeaderPair { name: n.to_string(), value: v.to_string() }
}

#[test]
fn cookie_builder_defaults_and_setters() {
    let c = Cookie::new("session", "abc123");
    assert_eq!(c.name, "session");
    assert_eq!(c.value, "abc123");
    assert_eq!(c.domain, "");
    assert_eq!(c.path, "/");
    assert!(!c.secure && !c.http_only);
    assert!(c.expires.is_none());
    let c = c.domain("example.com").path("/api").secure(true).http_only(true).expires("Wed, 21 Oct 2015 07:28:00 GMT");
    assert_eq!(c.domain, "example.com");
    assert_eq!(c.path, "/api");
    assert!(c.secure && c.http_only);
    assert_eq!(c.expires.as_deref(), Some("Wed, 21 Oct 2015 07:28:00 GMT"));
}

#[test]
fn set_cookie_line_and_storage_url() {
    let c = Cookie::new("a", "b");
    assert_eq!(c.set_cookie_line(), "a=b");
    assert_eq!(c.storage_url(true), "http://localhost/");
    let c = Cookie::new("a", "b").domain(".example.com").path("/p").secure(true).http_only(true).expires("X");
    assert_eq!(c.set_cookie_line(), "a=b; Domain=.example.com; Path=/p; Secure; HttpOnly; Expires=X");
    assert_eq!(c.storage_url(true), "https://example.com/p");
    assert_eq!(c.storage_url(false), "https://.example.com/p");
}

#[test]
fn store_jar_add_list_and_clear() {
    let mut jar = StoreJar::new();
    assert!(jar.all_cookies().is_empty());
    jar.add_cookie(Cookie::new("session", "abc").domain("example.com")).unwrap();
    let all = jar.all_cookies();
    assert_eq!(all.len(), 1);
    assert_eq!(all[0].name, "session");
    assert_eq!(all[0].value, "abc");
    assert_eq!(all[0].domain, "example.com");
    let for_url = jar.cookies_for_url("http://example.com/").unwrap();
    assert_eq!(for_url.len(), 1);
    assert_eq!(for_url[0].name, "session");
    assert_eq!(for_url[0].path, "/");
    jar.clear();
    assert!(jar.all_cookies().is_empty());
}

#[test]
fn store_jar_invalid_url_is_an_error() {
    let jar = StoreJar::new();
    assert!(matches!(jar.cookies_for_url("not a url"), Err(Error::InvalidUrl)));
    let mut jar = StoreJar::new();
    assert!(matches!(jar.add_cookie(Cookie::new("a", "b").domain("bad host")), Err(Error::InvalidUrl)));
}

#[test]
fn store_jar_policy_roundtrip_and_never() {
    let mut jar = StoreJar::new();
    assert_eq!(jar.get_cookie_accept_policy(), CookieAcceptPolicy::Always);
    jar.set_cookie_accept_policy(CookieAcceptPolicy::Never);
    assert_eq!(jar.get_cookie_accept_policy(), CookieAcceptPolicy::Never);
    let url = url::Url::parse("https://example.com/").unwrap();
    jar.process_response_headers(url.as_str(), &vec![pair("set-cookie", "id=1")]).unwrap();
    assert!(jar.all_cookies().is_empty());
    jar.set_cookie_accept_policy(CookieAcceptPolicy::Always);
    jar.process_response_headers(url.as_str(), &vec![pair("set-cookie", "id=1"), pair("x-other", "y")]).unwrap();
    assert_eq!(jar.all_cookies().len(), 1);
    let fields = jar.get_cookies_for_url(url.as_str()).unwrap();
    assert_eq!(fields.len(), 1);
    assert_eq!(fields[0].name, "cookie");
    assert_eq!(fields[0].value, "id=1");
}

#[test]
fn store_jar_remove_cookie_expires_it() {
    let mut jar = StoreJar::new();
    let c = Cookie::new("a", "1").domain("example.com");
    jar.add_cookie(c.duplicate()).unwrap();
    assert_eq!(jar.cookies_for_url("http://example.com/").unwrap().len(), 1);
    jar.remove_cookie(c).unwrap();
    assert!(jar.cookies_for_url("http://example.com/").unwrap().is_empty());
    assert_eq!(StoreJar::removal_line(&Cookie::new("a", "1")), "a=; Domain=localhost; Path=/; Expires=Thu, 01 Jan 1970 00:00:00 GMT");
}

#[test]
fn cookie_header_joining() {
    let fields = cookie_headers_for_pairs(&vec![pair("a", "1"), pair("b", "2")]);
    assert_eq!(fields.len(), 1);
    assert_eq!(fields[0].name, "cookie");
    assert_eq!(fields[0].value, "a=1; b=2");
    assert!(cookie_headers_for_pairs(&vec![]).is_empty());
    assert!(cookie_headers_for_pairs(&vec![pair("a", "\u{1}")]).is_empty());
}

#[test]
fn cookie_jar_over_backend() {
    let backend = Backend::reqwest().unwrap();
    let mut jar = CookieJar::new(backend);
    jar.add_cookie(Cookie::new("k", "v").domain("example.org")).unwrap();
    assert_eq!(jar.all_cookies().len(), 1);
    assert_eq!(jar.cookies_for_url("http://example.org/x").unwrap()[0].value, "v");
    let copy = jar.duplicate();
    jar.clear();
    assert!(jar.all_cookies().is_empty());
    assert_eq!(copy.all_cookies().len(), 1);
    jar.set_cookie_accept_policy(CookieAcceptPolicy::OnlyFromMainDocumentDomain);
    let mut storage = CookieStorage::new(Backend::reqwest().unwrap());
    storage.add_cookie(Cookie::new("s", "t")).unwrap();
    assert_eq!(storage.all_cookies().len(), 1);
    let _ = storage.remove_cookie(Cookie::new("s", "t"));
    storage.clear();
    assert!(storage.all_cookies().is_empty());
}

#[test]
fn parse_cookie_header_pieces() {
    let cookies = parse_cookie_header(" a = 1 ;b=2;;junk; c=x=y ");
    let names: Vec<(String, String)> = cookies.iter().map(|c| (c.name.clone(), c.value.clone())).collect();
    assert_eq!(
        names,
        vec![
            ("a".to_string(), "1".to_string()),
            ("b".to_string(), "2".to_string()),
            ("c".to_string(), "x=y".to_string())
        ]
    );
    assert!(parse_cookie_header("").is_empty());
    assert_eq!(cookies[0].path, "/");
}

#[test]
fn reqwest_cookie_storage() {
    let storage = ReqwestCookieStorage::new();
    assert!(storage.all_cookies().is_empty());
    storage.add_cookie(Cookie::new("token", "xyz").domain("example.net")).unwrap();
    let got = storage.cookies_for_url("http://example.net/").unwrap();
    assert_eq!(got.len(), 1);
    assert_eq!(got[0].name, "token");
    assert_eq!(got[0].value, "xyz");
    assert!(matches!(storage.cookies_for_url("::"), Err(Error::InvalidUrl)));
    assert!(matches!(storage.add_cookie(Cookie::new("a", "b").domain("bad host")), Err(Error::InvalidUrl)));
    assert!(storage.remove_cookie(Cookie::new("token", "xyz")).is_ok());
    storage.clear();
    storage.set_cookie_accept_policy(CookieAcceptPolicy::Never);
    assert_eq!(storage.cookies_for_url("http://example.net/").unwrap().len(), 1);
}

#[test]
fn windows_cookie_storage() {
    let mut storage = WindowsCookieStorage::new().unwrap();
    let url = url::Url::parse("https://example.com/docs/page").unwrap();
    storage.add_cookie(url.as_str(), "sid", "42").unwrap();
    storage.add_cookie_from_header(url.as_str(), "lang=en; Domain=example.com; Path=/").unwrap();
    assert!(matches!(storage.add_cookie_from_header(url.as_str(), ""), Err(Error::Internal(m)) if m.starts_with("Failed to parse cookie: ")));
    assert_eq!(storage.get_all_cookies().unwrap().len(), 2);
    let fields = storage.get_cookies_for_url(url.as_str()).unwrap();
    assert_eq!(fields.len(), 1);
    assert!(fields[0].value.contains("sid=42"));
    assert!(fields[0].value.contains("lang=en"));
    storage.delete_cookie(&url, "nothing").unwrap();
    assert_eq!(storage.get_all_cookies().unwrap().len(), 2);
    storage.delete_cookie(&url, "lang").unwrap();
    let fields = storage.get_cookies_for_url(url.as_str()).unwrap();
    assert_eq!(fields[0].value, "sid=42");
    storage.process_response_headers(url.as_str(), &vec![pair("set-cookie", "z=9")]).unwrap();
    assert!(storage.get_cookies_for_url(url.as_str()).unwrap()[0].value.contains("z=9"));
    storage.clear_all_cookies().unwrap();
    assert!(storage.get_all_cookies().unwrap().is_empty());
}

#[test]
fn stored_cookie_reads_as_its_line() {
    let mut storage = WindowsCookieStorage::new().unwrap();
    let url = url::Url::parse("https://example.com/docs/page").unwrap();
    storage.add_cookie_from_header(url.as_str(), "theme=dark; Path=/docs; Secure; HttpOnly").unwrap();
    let all = storage.get_all_cookies().unwrap();
    assert_eq!(all.len(), 1);
    assert_eq!(all[0].name, "theme");
    assert_eq!(all[0].value, "dark");
    assert_eq!(all[0].path.as_deref(), Some("/docs"));
    assert_eq!(all[0].secure, Some(true));
    assert_eq!(all[0].http_only, Some(true));
    storage.add_cookie_from_header(url.as_str(), "theme=light; Path=/docs").unwrap();
    let all = storage.get_all_cookies().unwrap();
    assert_eq!(all.len(), 1);
    assert_eq!(all[0].value, "light");
    assert!(storage.add_cookie_from_header(url.as_str(), "no pair here").is_err());
    assert_eq!(storage.get_all_cookies().unwrap().len(), 1);
}

#[test]
fn reqwest_storage_duplicate_shares_jar() {
    let storage = ReqwestCookieStorage::new();
    let copy = storage.duplicate();
    assert!(std::sync::Arc::ptr_eq(storage.jar(), copy.jar()));
    copy.add_cookie(Cookie::new("k", "v").domain("example.org")).unwrap();
    assert_eq!(storage.cookies_for_url("http://example.org/").unwrap().len(), 1);
}

#[test]
fn added_cookie_is_returned_only_where_it_matches() {
    let mut jar = CookieJar::new(Backend::reqwest().unwrap());
    jar.add_cookie(Cookie::new("s", "1").domain("example.com").path("/api").secure(true)).unwrap();
    let found = jar.cookies_for_url("https://example.com/api/x").unwrap();
    assert!(found.iter().any(|c| c.name == "s" && c.value == "1"));
    assert!(jar.cookies_for_url("http://example.com/api").unwrap().is_empty());
    assert!(jar.cookies_for_url("https://example.com/other").unwrap().is_empty());
    assert!(jar.cookies_for_url("https://other.org/api").unwrap().is_empty());
    assert!(matches!(jar.cookies_for_url("not a url"), Err(Error::InvalidUrl)));
}

#[test]
fn response_lines_of_distinct_names_are_all_kept() {
    let mut jar = StoreJar::new();
    let url = url::Url::parse("http://example.com/").unwrap();
    jar.process_response_headers(url.as_str(),
        &vec![pair("set-cookie", "a=1"), pair("set-cookie", "b=2"), pair("set-cookie", "a=3")],
    )
    .unwrap();
    let mut got: Vec<(String, String)> =
        jar.cookies_for_url("http://example.com/").unwrap().into_iter().map(|c| (c.name, c.value)).collect();
    got.sort();
    assert_eq!(got, vec![("a".to_string(), "3".to_string()), ("b".to_string(), "2".to_string())]);
}
