//! Reqwest backend for cross-platform HTTP support: the client is
//! configured from a `BackendConfig` through an ordered list of settings.

pub mod background;
pub mod cookies;
pub mod websocket;

use vstd::prelude::*;
use vstd::string::*;
use crate::backend::{BackendConfig, BackendConfigView, jar_opt_view};
use crate::backend::cookie_store::{JarView, has_prefix};
use crate::client::{ProxyConfig, ProxyView, proxy_view};
use crate::cookies::{CookieJar, opt_view};
use crate::error::Error;
use crate::text::{decimal, spec_decimal};
use crate::backend::types::{BackendRequest, BackendRequestView};
use crate::body::{Body, BodyView, MultipartPart, PartView, body_to_bytes, parts_view, spec_body_bytes};
use crate::request::{Method, spec_method_name};
use crate::wire::{HeaderPair, header_value_ok, headers_view, spec_header_name, str_eq, url_parses, url_scheme, url_scheme_of};

verus! {

/// A reqwest client. Its type shares its last name with this crate's own
/// `Client` and `ClientBuilder`, which rules out declaring it directly, so
/// it is held here; nothing inside it is modelled.
#[verifier::external_body]
pub struct ReqwestClient {
    /// The client
    pub inner: reqwest::Client,
}

/// A reqwest client builder, held for the same reason as `ReqwestClient`.
#[verifier::external_body]
pub struct ReqwestClientBuilder {
    /// The builder
    pub inner: reqwest::ClientBuilder,
}

#[verifier::external_type_specification]
#[verifier::external_body]
pub struct ExReqwestProxy(reqwest::Proxy);

#[verifier::external_type_specification]
#[verifier::external_body]
pub struct ExHeaderValue(http::HeaderValue);

#[verifier::external_type_specification]
#[verifier::external_body]
#[verifier::reject_recursive_types(T)]
pub struct ExHeaderMap<T>(http::HeaderMap<T>);

/// What an `http::HeaderMap` holds: for each (lower-case) name, the bytes
/// of its first value, the value that `HeaderMap::get` returns.
pub uninterp spec fn header_map_values(map: http::HeaderMap) -> Map<Seq<char>, Seq<u8>>;

/// Whether `reqwest::Proxy::http` accepts the text as a proxy URL.
pub uninterp spec fn proxy_http_accepts(url: Seq<char>) -> bool;

/// Whether `reqwest::Proxy::https` accepts the text as a proxy URL.
pub uninterp spec fn proxy_https_accepts(url: Seq<char>) -> bool;

/// Whether `reqwest::Proxy::all` accepts the text as a proxy URL.
pub uninterp spec fn proxy_all_accepts(url: Seq<char>) -> bool;

/// A proxy as it was made: the traffic it applies to, its URL text and
/// the Basic credentials set on it.
pub struct ProxyState {
    /// Which traffic
    pub kind: ProxyKind,
    /// The proxy URL as given
    pub url: Seq<char>,
    /// Username and password, when set
    pub credentials: Option<(Seq<char>, Seq<char>)>,
}

/// What a reqwest client builder holds, and what a client built from it
/// is made with (the fields of reqwest's `Config` that this library sets).
pub struct ClientState {
    /// A setting was refused (an invalid user agent); `build` fails
    pub error: bool,
    /// The request timeout
    pub timeout: Option<std::time::Duration>,
    /// The default header fields: each name with the bytes of its value
    pub headers: Map<Seq<char>, Seq<u8>>,
    /// Invalid TLS certificates are accepted
    pub accepts_invalid_certs: bool,
    /// A cookie store is kept
    pub cookie_store: bool,
    /// The proxies, in the order they were added
    pub proxies: Seq<ProxyState>,
    /// The system's proxy settings are used (no proxy was added)
    pub system_proxy: bool,
}

/// What a `reqwest::ClientBuilder` holds.
pub uninterp spec fn builder_state(builder: ReqwestClientBuilder) -> ClientState;

/// What a `reqwest::Client` was built with.
pub uninterp spec fn client_state(client: ReqwestClient) -> ClientState;

/// How a `reqwest::Proxy` was made.
pub uninterp spec fn proxy_state(proxy: reqwest::Proxy) -> ProxyState;

/// Whether credentials can be set on a proxy made from the URL text:
/// `url::Url::parse` fails on it (reqwest then refuses the text or reads
/// it as `http://` and the text), or the URL it gives takes a username
/// (`Url::set_username`: it has a host that is not empty and is not a
/// `file` URL). It depends on the text alone.
pub uninterp spec fn proxy_takes_credentials(url: Seq<char>) -> bool;

/// Whether every name of an `http::HeaderMap` has a single value.
pub uninterp spec fn header_map_single_valued(map: http::HeaderMap) -> bool;

/// The names of the default header fields a `reqwest::ClientBuilder`
/// holds.
pub open spec fn builder_header_names(builder: ReqwestClientBuilder) -> Set<Seq<char>> {
    builder_state(builder).headers.dom()
}

/// The bytes of `*/*`.
pub open spec fn any_media_bytes() -> Seq<u8> {
    seq![42u8, 47u8, 42u8]
}

/// What a fresh builder holds: only the `accept: */*` field, and the
/// system's proxy settings.
pub open spec fn spec_fresh_state() -> ClientState {
    ClientState {
        error: false,
        timeout: None,
        headers: map!["accept"@ => any_media_bytes()],
        accepts_invalid_certs: false,
        cookie_store: false,
        proxies: Seq::empty(),
        system_proxy: true,
    }
}

/// The most header names a map may come to hold here. `http::HeaderMap`
/// refuses to grow its index past 2^15 slots and then panics in `insert`;
/// when hashes collide it can grow early, once every five entries per
/// slot, so this is the largest number of names for which no growth can
/// be refused.
pub const MAX_HEADER_NAMES: usize = 6553;

/// An empty header map (`http::HeaderMap::new`).
#[verifier::external_body]
fn new_header_map() -> (fresh: http::HeaderMap)
    ensures
        header_map_values(fresh) =~= Map::empty(),
        header_map_single_valued(fresh),
{
    http::HeaderMap::new()
}

/// Converts the name with `HeaderName::from_bytes` and the value with
/// `HeaderValue::from_bytes` and, when both are accepted, inserts them with
/// `HeaderMap::insert`, which replaces every earlier value of the name.
/// Returns whether the pair was inserted. The map must have room for
/// one more name (see `MAX_HEADER_NAMES`).
#[verifier::external_body]
fn header_map_insert(map: &mut http::HeaderMap, name: &str, value: &str) -> (inserted: bool)
    requires
        header_map_values(*old(map)).dom().finite(),
        header_map_values(*old(map)).dom().len() < MAX_HEADER_NAMES,
    ensures
        inserted == (spec_header_name(name@) is Some && header_value_ok(value@)),
        inserted ==> header_map_values(*final(map)) == header_map_values(*old(map)).insert(
            spec_header_name(name@)->0,
            vstd::utf8::encode_utf8(value@),
        ),
        !inserted ==> header_map_values(*final(map)) == header_map_values(*old(map)),
        header_map_single_valued(*old(map)) ==> header_map_single_valued(*final(map)),
{
    match (http::HeaderName::from_bytes(name.as_bytes()), http::HeaderValue::from_bytes(value.as_bytes())) {
        (Ok(n), Ok(v)) => {
            map.insert(n, v);
            true
        },
        _ => false,
    }
}

/// A fresh builder (`reqwest::Client::builder`): its default header fields
/// hold only `accept: */*`, no timeout, certificates are checked, no cookie
/// store, no proxy added (the system's are used).
#[verifier::external_body]
fn client_builder() -> (b: ReqwestClientBuilder)
    ensures
        builder_state(b) == spec_fresh_state(),
{
    ReqwestClientBuilder { inner: reqwest::Client::builder() }
}

/// `ClientBuilder::timeout`: sets the request timeout.
#[verifier::external_body]
fn with_timeout(builder: ReqwestClientBuilder, timeout: std::time::Duration) -> (b: ReqwestClientBuilder)
    ensures
        builder_state(b) == (ClientState { timeout: Some(timeout), ..builder_state(builder) }),
{
    ReqwestClientBuilder { inner: builder.inner.timeout(timeout) }
}

/// `ClientBuilder::user_agent`: a valid value is inserted as the
/// `user-agent` default field (`HeaderMap::insert`, which needs room for
/// one more name); an invalid one makes `build` fail.
#[verifier::external_body]
fn with_user_agent(builder: ReqwestClientBuilder, user_agent: &str) -> (b: ReqwestClientBuilder)
    requires
        builder_header_names(builder).finite(),
        builder_header_names(builder).len() < MAX_HEADER_NAMES,
    ensures
        header_value_ok(user_agent@) ==> builder_state(b) == (ClientState {
            headers: builder_state(builder).headers.insert("user-agent"@, vstd::utf8::encode_utf8(user_agent@)),
            ..builder_state(builder)
        }),
        !header_value_ok(user_agent@) ==> builder_state(b) == (ClientState { error: true, ..builder_state(builder) }),
{
    ReqwestClientBuilder { inner: builder.inner.user_agent(user_agent) }
}

/// `ClientBuilder::danger_accept_invalid_certs`: whether invalid TLS
/// certificates are accepted.
#[verifier::external_body]
fn with_invalid_certs_accepted(builder: ReqwestClientBuilder, accept: bool) -> (b: ReqwestClientBuilder)
    ensures
        builder_state(b) == (ClientState { accepts_invalid_certs: accept, ..builder_state(builder) }),
{
    ReqwestClientBuilder { inner: builder.inner.danger_accept_invalid_certs(accept) }
}

/// `ClientBuilder::default_headers`: each field of the map is inserted
/// into the builder's default fields (`HeaderMap::insert`, so the names
/// together must fit, see `MAX_HEADER_NAMES`).
#[verifier::external_body]
fn with_default_headers(builder: ReqwestClientBuilder, headers: http::HeaderMap) -> (b: ReqwestClientBuilder)
    requires
        builder_header_names(builder).finite(),
        header_map_values(headers).dom().finite(),
        header_map_single_valued(headers),
        builder_header_names(builder).len() + header_map_values(headers).dom().len() <= MAX_HEADER_NAMES,
    ensures
        builder_state(b) == (ClientState {
            headers: builder_state(builder).headers.union_prefer_right(header_map_values(headers)),
            ..builder_state(builder)
        }),
{
    ReqwestClientBuilder { inner: builder.inner.default_headers(headers) }
}

/// `ClientBuilder::cookie_store`: whether a cookie store is kept.
#[verifier::external_body]
fn with_cookie_store(builder: ReqwestClientBuilder, enable: bool) -> (b: ReqwestClientBuilder)
    ensures
        builder_state(b) == (ClientState { cookie_store: enable, ..builder_state(builder) }),
{
    ReqwestClientBuilder { inner: builder.inner.cookie_store(enable) }
}

/// `ClientBuilder::proxy`: adds the proxy after the others; the system's
/// proxy settings are no longer used.
#[verifier::external_body]
fn with_proxy(builder: ReqwestClientBuilder, proxy: reqwest::Proxy) -> (b: ReqwestClientBuilder)
    ensures
        builder_state(b) == (ClientState {
            proxies: builder_state(builder).proxies.push(proxy_state(proxy)),
            system_proxy: false,
            ..builder_state(builder)
        }),
{
    ReqwestClientBuilder { inner: builder.inner.proxy(proxy) }
}

/// `ClientBuilder::build`; on failure, the error's text. A builder that
/// refused a setting fails; a built client is made with what the builder
/// holds. Whether another builder fails depends on the TLS and resolver
/// set-up of the machine, and is not stated.
#[verifier::external_body]
fn build_client(builder: ReqwestClientBuilder) -> (res: Result<ReqwestClient, String>)
    ensures
        builder_state(builder).error ==> res is Err,
        res matches Ok(c) ==> client_state(c) == builder_state(builder),
{
    builder.inner.build().map(|inner| ReqwestClient { inner }).map_err(|e| e.to_string())
}

/// Makes a proxy for the kind of traffic from the URL text
/// (`reqwest::Proxy::http`, `Proxy::https` or `Proxy::all`) and, when
/// credentials are given, sets them (`Proxy::basic_auth`, which panics when
/// the URL cannot take a username: see `proxy_takes_credentials`). On
/// failure, the error's text.
#[verifier::external_body]
fn make_proxy(kind: ProxyKind, url: &str, credentials: &Option<(String, String)>) -> (res: Result<reqwest::Proxy, String>)
    requires
        credentials is Some ==> proxy_takes_credentials(url@),
    ensures
        res is Ok <==> match kind {
            ProxyKind::Http => proxy_http_accepts(url@),
            ProxyKind::Https => proxy_https_accepts(url@),
            ProxyKind::All => proxy_all_accepts(url@),
        },
        res matches Ok(p) ==> proxy_state(p) == (ProxyState {
            kind,
            url: url@,
            credentials: match credentials {
                Some((u, w)) => Some((u@, w@)),
                None => None,
            },
        }),
{
    let made = match kind {
        ProxyKind::Http => reqwest::Proxy::http(url),
        ProxyKind::Https => reqwest::Proxy::https(url),
        ProxyKind::All => reqwest::Proxy::all(url),
    };
    match (made, credentials) {
        (Ok(p), Some((u, w))) => Ok(p.basic_auth(u, w)),
        (Ok(p), None) => Ok(p),
        (Err(e), _) => Err(e.to_string()),
    }
}

/// Whether credentials can be set on a proxy made from the URL text (see
/// `proxy_takes_credentials`): parses it with `url::Url::parse` and tries
/// `Url::set_username` on a copy.
#[verifier::external_body]
fn url_takes_credentials(url: &str) -> (b: bool)
    ensures
        b == proxy_takes_credentials(url@),
{
    match url::Url::parse(url) {
        Ok(mut u) => u.set_username("").is_ok(),
        Err(_) => true,
    }
}

/// Another handle to the same client (`Clone`, which clones the `Arc` that
/// holds the client, so the handle is the same client).
#[verifier::external_body]
fn clone_client(client: &ReqwestClient) -> (c: ReqwestClient)
    ensures
        c == *client,
{
    ReqwestClient { inner: client.inner.clone() }
}

/// The traffic a proxy applies to.
#[derive(Clone, Copy, PartialEq, Eq, Structural, Debug)]
pub enum ProxyKind {
    /// `http` requests (`Proxy::http`)
    Http,
    /// `https` requests (`Proxy::https`)
    Https,
    /// All requests (`Proxy::all`), used for SOCKS proxies
    All,
}

/// One setting applied to the client builder.
pub enum ClientSetting {
    /// Request timeout
    Timeout(std::time::Duration),
    /// `User-Agent` value
    UserAgent(String),
    /// Accept invalid TLS certificates
    AcceptInvalidCerts,
    /// Headers sent with every request
    DefaultHeaders(Vec<HeaderPair>),
    /// Keep a cookie store
    CookieStore,
    /// Route traffic through a proxy
    Proxy {
        /// Which traffic
        kind: ProxyKind,
        /// The proxy URL
        url: String,
        /// Basic credentials (username, password)
        credentials: Option<(String, String)>,
    },
}

/// The abstract value of a setting.
pub enum ClientSettingView {
    /// Request timeout
    Timeout(std::time::Duration),
    /// `User-Agent` value
    UserAgent(Seq<char>),
    /// Accept invalid TLS certificates
    AcceptInvalidCerts,
    /// Headers sent with every request
    DefaultHeaders(Seq<(Seq<char>, Seq<char>)>),
    /// Keep a cookie store
    CookieStore,
    /// Route traffic through a proxy
    Proxy {
        /// Which traffic
        kind: ProxyKind,
        /// The proxy URL
        url: Seq<char>,
        /// Basic credentials
        credentials: Option<(Seq<char>, Seq<char>)>,
    },
}

impl View for ClientSetting {
    type V = ClientSettingView;

    open spec fn view(&self) -> ClientSettingView {
        match self {
            ClientSetting::Timeout(d) => ClientSettingView::Timeout(*d),
            ClientSetting::UserAgent(u) => ClientSettingView::UserAgent(u@),
            ClientSetting::AcceptInvalidCerts => ClientSettingView::AcceptInvalidCerts,
            ClientSetting::DefaultHeaders(h) => ClientSettingView::DefaultHeaders(headers_view(h@)),
            ClientSetting::CookieStore => ClientSettingView::CookieStore,
            ClientSetting::Proxy { kind, url, credentials } => ClientSettingView::Proxy {
                kind: *kind,
                url: url@,
                credentials: match credentials {
                    Some((u, p)) => Some((u@, p@)),
                    None => None,
                },
            },
        }
    }
}

/// The views of a list of settings.
pub open spec fn settings_view(s: Seq<ClientSetting>) -> Seq<ClientSettingView> {
    s.map_values(|x: ClientSetting| x@)
}

/// The URL of a proxy: `scheme://host:port`.
pub open spec fn spec_proxy_url(scheme: Seq<char>, p: ProxyView) -> Seq<char> {
    scheme + "://"@ + p.host + seq![':'] + spec_decimal(p.port as nat)
}

/// The proxy setting for a configured proxy; credentials are used only
/// when both the username and the password are set.
pub open spec fn spec_proxy_setting(kind: ProxyKind, scheme: Seq<char>, p: ProxyView) -> ClientSettingView {
    ClientSettingView::Proxy {
        kind,
        url: spec_proxy_url(scheme, p),
        credentials: match (p.username, p.password) {
            (Some(u), Some(w)) => Some((u, w)),
            _ => None,
        },
    }
}

/// `seq![x]` when the option is set, empty otherwise.
pub open spec fn optional_setting(present: bool, x: ClientSettingView) -> Seq<ClientSettingView> {
    if present { seq![x] } else { Seq::empty() }
}

/// The settings a configuration turns into, in the order they are
/// applied: timeout, user agent, invalid certificates (only when set to
/// `true`), default headers, cookie store (only when set to `true`), then
/// the HTTP, HTTPS and SOCKS proxies.
pub open spec fn spec_client_settings(c: BackendConfigView) -> Seq<ClientSettingView> {
    optional_setting(c.timeout is Some, ClientSettingView::Timeout(c.timeout->0))
        + optional_setting(c.user_agent is Some, ClientSettingView::UserAgent(c.user_agent->0))
        + optional_setting(c.ignore_certificate_errors == Some(true), ClientSettingView::AcceptInvalidCerts)
        + optional_setting(c.default_headers is Some, ClientSettingView::DefaultHeaders(c.default_headers->0))
        + optional_setting(c.use_cookies == Some(true), ClientSettingView::CookieStore)
        + optional_setting(c.http_proxy is Some, spec_proxy_setting(ProxyKind::Http, "http"@, c.http_proxy->0))
        + optional_setting(c.https_proxy is Some, spec_proxy_setting(ProxyKind::Https, "https"@, c.https_proxy->0))
        + optional_setting(c.socks_proxy is Some, spec_proxy_setting(ProxyKind::All, "socks5"@, c.socks_proxy->0))
}

/// Whether reqwest accepts the URL for that kind of proxy.
pub open spec fn proxy_accepted(kind: ProxyKind, url: Seq<char>) -> bool {
    match kind {
        ProxyKind::Http => proxy_http_accepts(url),
        ProxyKind::Https => proxy_https_accepts(url),
        ProxyKind::All => proxy_all_accepts(url),
    }
}

/// The start of the error message for a rejected proxy.
pub open spec fn proxy_error_prefix(kind: ProxyKind) -> Seq<char> {
    match kind {
        ProxyKind::Http => "Invalid HTTP proxy: "@,
        ProxyKind::Https => "Invalid HTTPS proxy: "@,
        ProxyKind::All => "Invalid SOCKS proxy: "@,
    }
}

/// The start of the error message of the first setting that fails (only a
/// proxy whose URL reqwest rejects fails), if any.
pub open spec fn first_failure(s: Seq<ClientSettingView>) -> Option<Seq<char>>
    decreases s.len(),
{
    if s.len() == 0 {
        None
    } else {
        match s[0] {
            ClientSettingView::Proxy { kind, url, .. } => if !proxy_accepted(kind, url) {
                Some(proxy_error_prefix(kind))
            } else {
                first_failure(s.drop_first())
            },
            _ => first_failure(s.drop_first()),
        }
    }
}

proof fn lemma_first_failure_skip(s: Seq<ClientSettingView>, i: int)
    requires
        0 <= i <= s.len(),
        first_failure(s.take(i)) is None,
    ensures
        first_failure(s) == first_failure(s.skip(i)),
    decreases i,
{
    if i > 0 {
        assert(s.take(i).drop_first() =~= s.drop_first().take(i - 1));
        assert(s.take(i)[0] == s[0]);
        assert(s.drop_first().skip(i - 1) =~= s.skip(i));
        lemma_first_failure_skip(s.drop_first(), i - 1);
    } else {
        assert(s.skip(0) =~= s);
    }
}

/// A copy of a list of header fields.
fn copy_headers(h: &Vec<HeaderPair>) -> (c: Vec<HeaderPair>)
    ensures
        headers_view(c@) == headers_view(h@),
{
    let mut c: Vec<HeaderPair> = Vec::new();
    let mut i: usize = 0;
    while i < h.len()
        invariant
            i <= h@.len(),
            headers_view(c@) =~= headers_view(h@).take(i as int),
        decreases h.len() - i,
    {
        c.push(HeaderPair { name: h[i].name.clone(), value: h[i].value.clone() });
        assert(headers_view(h@).take(i + 1) =~= headers_view(h@).take(i as int).push(h@[i as int]@));
        i += 1;
    }
    assert(headers_view(h@).take(h@.len() as int) =~= headers_view(h@));
    c
}

/// The proxy setting for one configured proxy.
fn proxy_setting(kind: ProxyKind, scheme: &str, p: &ProxyConfig) -> (s: ClientSetting)
    ensures
        s@ == spec_proxy_setting(kind, scheme@, proxy_view(*p)),
{
    let mut url = String::from_str(scheme);
    url.append("://");
    url.append(p.host.as_str());
    url.push(':');
    let port = decimal(p.port as u128);
    url.append(port.as_str());
    assert(url@ =~= spec_proxy_url(scheme@, proxy_view(*p)));
    let credentials = match (&p.username, &p.password) {
        (Some(u), Some(w)) => Some((u.clone(), w.clone())),
        _ => None,
    };
    ClientSetting::Proxy { kind, url, credentials }
}

/// Appends a setting.
fn push_setting(v: &mut Vec<ClientSetting>, x: ClientSetting)
    ensures
        settings_view(final(v)@) == settings_view(old(v)@).push(x@),
{
    let ghost before = v@;
    v.push(x);
    assert(settings_view(v@) =~= settings_view(before).push(x@));
}

proof fn lemma_optional_push(a: Seq<ClientSettingView>, x: ClientSettingView)
    ensures
        a.push(x) == a + optional_setting(true, x),
        a == a + optional_setting(false, x),
{
    assert(a.push(x) =~= a + optional_setting(true, x));
    assert(a =~= a + optional_setting(false, x));
}

/// The settings a configuration is applied as (see
/// `spec_client_settings`).
pub fn client_settings(config: &BackendConfig) -> (settings: Vec<ClientSetting>)
    ensures
        settings_view(settings@) == spec_client_settings(config@),
{
    let ghost c = config@;
    let mut settings: Vec<ClientSetting> = Vec::new();
    let ghost e0 = Seq::<ClientSettingView>::empty();
    assert(settings_view(settings@) =~= e0);
    let ghost x1 = ClientSettingView::Timeout(c.timeout->0);
    if let Some(t) = config.timeout {
        push_setting(&mut settings, ClientSetting::Timeout(t));
    }
    proof { lemma_optional_push(e0, x1); }
    let ghost e1 = e0 + optional_setting(c.timeout is Some, x1);
    assert(settings_view(settings@) == e1);
    let ghost x2 = ClientSettingView::UserAgent(c.user_agent->0);
    if let Some(u) = &config.user_agent {
        push_setting(&mut settings, ClientSetting::UserAgent(u.clone()));
    }
    proof { lemma_optional_push(e1, x2); }
    let ghost e2 = e1 + optional_setting(c.user_agent is Some, x2);
    assert(settings_view(settings@) == e2);
    let ghost x3 = ClientSettingView::AcceptInvalidCerts;
    if let Some(ignore) = config.ignore_certificate_errors {
        if ignore {
            push_setting(&mut settings, ClientSetting::AcceptInvalidCerts);
        }
    }
    proof { lemma_optional_push(e2, x3); }
    let ghost e3 = e2 + optional_setting(c.ignore_certificate_errors == Some(true), x3);
    assert(settings_view(settings@) == e3);
    let ghost x4 = ClientSettingView::DefaultHeaders(c.default_headers->0);
    if let Some(h) = &config.default_headers {
        push_setting(&mut settings, ClientSetting::DefaultHeaders(copy_headers(h)));
    }
    proof { lemma_optional_push(e3, x4); }
    let ghost e4 = e3 + optional_setting(c.default_headers is Some, x4);
    assert(settings_view(settings@) == e4);
    let ghost x5 = ClientSettingView::CookieStore;
    if let Some(use_cookies) = config.use_cookies {
        if use_cookies {
            push_setting(&mut settings, ClientSetting::CookieStore);
        }
    }
    proof { lemma_optional_push(e4, x5); }
    let ghost e5 = e4 + optional_setting(c.use_cookies == Some(true), x5);
    assert(settings_view(settings@) == e5);
    let ghost x6 = spec_proxy_setting(ProxyKind::Http, "http"@, c.http_proxy->0);
    if let Some(p) = &config.http_proxy {
        push_setting(&mut settings, proxy_setting(ProxyKind::Http, "http", p));
    }
    proof { lemma_optional_push(e5, x6); }
    let ghost e6 = e5 + optional_setting(c.http_proxy is Some, x6);
    assert(settings_view(settings@) == e6);
    let ghost x7 = spec_proxy_setting(ProxyKind::Https, "https"@, c.https_proxy->0);
    if let Some(p) = &config.https_proxy {
        push_setting(&mut settings, proxy_setting(ProxyKind::Https, "https", p));
    }
    proof { lemma_optional_push(e6, x7); }
    let ghost e7 = e6 + optional_setting(c.https_proxy is Some, x7);
    assert(settings_view(settings@) == e7);
    let ghost x8 = spec_proxy_setting(ProxyKind::All, "socks5"@, c.socks_proxy->0);
    if let Some(p) = &config.socks_proxy {
        push_setting(&mut settings, proxy_setting(ProxyKind::All, "socks5", p));
    }
    proof { lemma_optional_push(e7, x8); }
    assert(settings_view(settings@) == e7 + optional_setting(c.socks_proxy is Some, x8));
    settings
}

/// The header map holding the valid pairs of a list (invalid names or
/// values are skipped; a later pair replaces an earlier one of the same
/// name).
pub open spec fn spec_header_map(h: Seq<(Seq<char>, Seq<char>)>) -> Map<Seq<char>, Seq<u8>>
    decreases h.len(),
{
    if h.len() == 0 {
        Map::empty()
    } else {
        let rest = spec_header_map(h.drop_last());
        let (n, v) = h.last();
        if spec_header_name(n) is Some && header_value_ok(v) {
            rest.insert(spec_header_name(n)->0, vstd::utf8::encode_utf8(v))
        } else {
            rest
        }
    }
}

/// Builds the header map of a list of header fields.
fn header_map_of(h: &Vec<HeaderPair>) -> (map: http::HeaderMap)
    requires
        h@.len() <= MAX_HEADER_NAMES,
    ensures
        header_map_values(map) == spec_header_map(headers_view(h@)),
        header_map_values(map).dom().finite(),
        header_map_values(map).dom().len() <= h@.len(),
        header_map_single_valued(map),
{
    let ghost hv = headers_view(h@);
    let mut map = new_header_map();
    let mut i: usize = 0;
    assert(hv.take(0) =~= Seq::<(Seq<char>, Seq<char>)>::empty());
    while i < h.len()
        invariant
            hv == headers_view(h@),
            i <= h@.len(),
            header_map_values(map) == spec_header_map(hv.take(i as int)),
            header_map_values(map).dom().finite(),
            header_map_values(map).dom().len() <= i,
            header_map_single_valued(map),
            h@.len() <= MAX_HEADER_NAMES,
        decreases h.len() - i,
    {
        let _ = header_map_insert(&mut map, h[i].name.as_str(), h[i].value.as_str());
        assert(hv.take(i + 1).drop_last() =~= hv.take(i as int));
        i += 1;
    }
    assert(hv.take(h@.len() as int) =~= hv);
    map
}

/// The start of the error message a setting fails with (empty for the
/// settings that cannot fail).
pub open spec fn setting_error_prefix(s: ClientSettingView) -> Seq<char> {
    match s {
        ClientSettingView::Proxy { kind, .. } => proxy_error_prefix(kind),
        _ => Seq::empty(),
    }
}

/// How many header names applying a setting can add to the builder: one
/// for a user agent, one per field for default headers, none otherwise.
pub open spec fn setting_weight(s: ClientSettingView) -> nat {
    match s {
        ClientSettingView::UserAgent(_) => 1,
        ClientSettingView::DefaultHeaders(h) => h.len(),
        _ => 0,
    }
}

/// How many header names a list of settings can add.
pub open spec fn settings_weight(s: Seq<ClientSettingView>) -> nat
    decreases s.len(),
{
    if s.len() == 0 {
        0
    } else {
        settings_weight(s.drop_last()) + setting_weight(s.last())
    }
}

proof fn lemma_weight_concat(a: Seq<ClientSettingView>, b: Seq<ClientSettingView>)
    ensures
        settings_weight(a + b) == settings_weight(a) + settings_weight(b),
    decreases b.len(),
{
    if b.len() > 0 {
        assert((a + b).drop_last() =~= a + b.drop_last());
        lemma_weight_concat(a, b.drop_last());
    } else {
        assert(a + b =~= a);
    }
}

proof fn lemma_weight_prefix(s: Seq<ClientSettingView>, i: int)
    requires
        0 <= i <= s.len(),
    ensures
        settings_weight(s.take(i)) <= settings_weight(s),
    decreases s.len() - i,
{
    if i < s.len() {
        assert(s.take(i + 1).drop_last() =~= s.take(i));
        lemma_weight_prefix(s, i + 1);
    } else {
        assert(s.take(i) =~= s);
    }
}

proof fn lemma_weight_optional(present: bool, x: ClientSettingView)
    ensures
        settings_weight(optional_setting(present, x)) == (if present { setting_weight(x) } else { 0 }),
{
    reveal_with_fuel(settings_weight, 2);
    if present {
        assert(optional_setting(present, x).drop_last() =~= Seq::<ClientSettingView>::empty());
        assert(optional_setting(present, x).last() == x);
    }
}

/// The settings of a configuration add at most one name for the user
/// agent and one per default header field.
proof fn lemma_config_weight(c: BackendConfigView)
    ensures
        settings_weight(spec_client_settings(c)) <= 1 + match c.default_headers {
            Some(h) => h.len(),
            None => 0,
        },
{
    let o1 = optional_setting(c.timeout is Some, ClientSettingView::Timeout(c.timeout->0));
    let o2 = optional_setting(c.user_agent is Some, ClientSettingView::UserAgent(c.user_agent->0));
    let o3 = optional_setting(c.ignore_certificate_errors == Some(true), ClientSettingView::AcceptInvalidCerts);
    let o4 = optional_setting(c.default_headers is Some, ClientSettingView::DefaultHeaders(c.default_headers->0));
    let o5 = optional_setting(c.use_cookies == Some(true), ClientSettingView::CookieStore);
    let o6 = optional_setting(c.http_proxy is Some, spec_proxy_setting(ProxyKind::Http, "http"@, c.http_proxy->0));
    let o7 = optional_setting(c.https_proxy is Some, spec_proxy_setting(ProxyKind::Https, "https"@, c.https_proxy->0));
    let o8 = optional_setting(c.socks_proxy is Some, spec_proxy_setting(ProxyKind::All, "socks5"@, c.socks_proxy->0));
    lemma_weight_optional(c.timeout is Some, ClientSettingView::Timeout(c.timeout->0));
    lemma_weight_optional(c.user_agent is Some, ClientSettingView::UserAgent(c.user_agent->0));
    lemma_weight_optional(c.ignore_certificate_errors == Some(true), ClientSettingView::AcceptInvalidCerts);
    lemma_weight_optional(c.default_headers is Some, ClientSettingView::DefaultHeaders(c.default_headers->0));
    lemma_weight_optional(c.use_cookies == Some(true), ClientSettingView::CookieStore);
    lemma_weight_optional(c.http_proxy is Some, spec_proxy_setting(ProxyKind::Http, "http"@, c.http_proxy->0));
    lemma_weight_optional(c.https_proxy is Some, spec_proxy_setting(ProxyKind::Https, "https"@, c.https_proxy->0));
    lemma_weight_optional(c.socks_proxy is Some, spec_proxy_setting(ProxyKind::All, "socks5"@, c.socks_proxy->0));
    lemma_weight_concat(o1, o2);
    lemma_weight_concat(o1 + o2, o3);
    lemma_weight_concat(o1 + o2 + o3, o4);
    lemma_weight_concat(o1 + o2 + o3 + o4, o5);
    lemma_weight_concat(o1 + o2 + o3 + o4 + o5, o6);
    lemma_weight_concat(o1 + o2 + o3 + o4 + o5 + o6, o7);
    lemma_weight_concat(o1 + o2 + o3 + o4 + o5 + o6 + o7, o8);
}

/// Whether the default header fields of a configuration fit the header
/// maps they pass through: with `accept` and `user-agent`, at most
/// `MAX_HEADER_NAMES` names (see there).
pub open spec fn headers_fit(c: BackendConfigView) -> bool {
    match c.default_headers {
        Some(h) => h.len() + 2 <= MAX_HEADER_NAMES,
        None => true,
    }
}

/// What applying a setting that does not fail makes of the builder.
pub open spec fn spec_apply_setting(st: ClientState, s: ClientSettingView) -> ClientState {
    match s {
        ClientSettingView::Timeout(t) => ClientState { timeout: Some(t), ..st },
        ClientSettingView::UserAgent(u) => if header_value_ok(u) {
            ClientState { headers: st.headers.insert("user-agent"@, vstd::utf8::encode_utf8(u)), ..st }
        } else {
            ClientState { error: true, ..st }
        },
        ClientSettingView::AcceptInvalidCerts => ClientState { accepts_invalid_certs: true, ..st },
        ClientSettingView::DefaultHeaders(h) => ClientState { headers: st.headers.union_prefer_right(spec_header_map(h)), ..st },
        ClientSettingView::CookieStore => ClientState { cookie_store: true, ..st },
        ClientSettingView::Proxy { kind, url, credentials } => ClientState {
            proxies: st.proxies.push(ProxyState { kind, url, credentials }),
            system_proxy: false,
            ..st
        },
    }
}

/// What applying the settings in order makes of the builder.
pub open spec fn spec_apply_settings(st: ClientState, s: Seq<ClientSettingView>) -> ClientState
    decreases s.len(),
{
    if s.len() == 0 {
        st
    } else {
        spec_apply_setting(spec_apply_settings(st, s.drop_last()), s.last())
    }
}

/// What a client configured with `c` is made with: the settings of
/// `spec_client_settings` applied to a fresh builder.
pub open spec fn spec_configured_state(c: BackendConfigView) -> ClientState {
    spec_apply_settings(spec_fresh_state(), spec_client_settings(c))
}

/// Applying settings in two runs is applying them all in order.
proof fn lemma_apply_concat(st: ClientState, a: Seq<ClientSettingView>, b: Seq<ClientSettingView>)
    ensures
        spec_apply_settings(st, a + b) == spec_apply_settings(spec_apply_settings(st, a), b),
    decreases b.len(),
{
    if b.len() == 0 {
        assert(a + b =~= a);
    } else {
        assert((a + b).drop_last() =~= a + b.drop_last());
        assert((a + b).last() == b.last());
        lemma_apply_concat(st, a, b.drop_last());
    }
}

/// Applying one optional setting.
proof fn lemma_apply_optional(st: ClientState, present: bool, x: ClientSettingView)
    ensures
        spec_apply_settings(st, optional_setting(present, x)) == if present { spec_apply_setting(st, x) } else { st },
{
    let o = optional_setting(present, x);
    if present {
        assert(o.drop_last() =~= Seq::<ClientSettingView>::empty());
        assert(spec_apply_settings(st, o.drop_last()) == st);
        assert(o.last() == x);
    } else {
        assert(o.len() == 0);
    }
}

/// The proxy a configured proxy becomes: its kind, its URL and, when both
/// a username and a password are set, the credentials.
pub open spec fn spec_proxy_state(kind: ProxyKind, scheme: Seq<char>, p: ProxyView) -> ProxyState {
    ProxyState {
        kind,
        url: spec_proxy_url(scheme, p),
        credentials: match (p.username, p.password) {
            (Some(u), Some(w)) => Some((u, w)),
            _ => None,
        },
    }
}

/// The proxies a configuration adds, in order: HTTP, HTTPS, then SOCKS.
pub open spec fn spec_configured_proxies(c: BackendConfigView) -> Seq<ProxyState> {
    (if c.http_proxy is Some { seq![spec_proxy_state(ProxyKind::Http, "http"@, c.http_proxy->0)] } else { Seq::empty() })
        + (if c.https_proxy is Some { seq![spec_proxy_state(ProxyKind::Https, "https"@, c.https_proxy->0)] } else { Seq::empty() })
        + (if c.socks_proxy is Some { seq![spec_proxy_state(ProxyKind::All, "socks5"@, c.socks_proxy->0)] } else { Seq::empty() })
}

/// A client built from a configuration carries its settings: the timeout
/// as given, invalid certificates accepted exactly when
/// `ignore_certificate_errors` is `Some(true)`, a cookie store exactly when
/// `use_cookies` is `Some(true)`, the configured proxies in order (the
/// system's proxy settings only when none is configured), and a refused
/// setting exactly when the user agent is not a valid header value.
#[verifier::spinoff_prover]
#[verifier::rlimit(80)]
pub proof fn law_configured_client(c: BackendConfigView)
    ensures
        spec_configured_state(c).timeout == c.timeout,
        spec_configured_state(c).accepts_invalid_certs == (c.ignore_certificate_errors == Some(true)),
        spec_configured_state(c).cookie_store == (c.use_cookies == Some(true)),
        spec_configured_state(c).proxies == spec_configured_proxies(c),
        spec_configured_state(c).system_proxy == (c.http_proxy is None && c.https_proxy is None && c.socks_proxy is None),
        spec_configured_state(c).error == (c.user_agent matches Some(u) && !header_value_ok(u)),
{
    let o1 = optional_setting(c.timeout is Some, ClientSettingView::Timeout(c.timeout->0));
    let o2 = optional_setting(c.user_agent is Some, ClientSettingView::UserAgent(c.user_agent->0));
    let o3 = optional_setting(c.ignore_certificate_errors == Some(true), ClientSettingView::AcceptInvalidCerts);
    let o4 = optional_setting(c.default_headers is Some, ClientSettingView::DefaultHeaders(c.default_headers->0));
    let o5 = optional_setting(c.use_cookies == Some(true), ClientSettingView::CookieStore);
    let o6 = optional_setting(c.http_proxy is Some, spec_proxy_setting(ProxyKind::Http, "http"@, c.http_proxy->0));
    let o7 = optional_setting(c.https_proxy is Some, spec_proxy_setting(ProxyKind::Https, "https"@, c.https_proxy->0));
    let o8 = optional_setting(c.socks_proxy is Some, spec_proxy_setting(ProxyKind::All, "socks5"@, c.socks_proxy->0));
    let st0 = spec_fresh_state();
    lemma_apply_concat(st0, o1, o2);
    lemma_apply_concat(st0, o1 + o2, o3);
    lemma_apply_concat(st0, o1 + o2 + o3, o4);
    lemma_apply_concat(st0, o1 + o2 + o3 + o4, o5);
    lemma_apply_concat(st0, o1 + o2 + o3 + o4 + o5, o6);
    lemma_apply_concat(st0, o1 + o2 + o3 + o4 + o5 + o6, o7);
    lemma_apply_concat(st0, o1 + o2 + o3 + o4 + o5 + o6 + o7, o8);
    let st1 = spec_apply_settings(st0, o1);
    let st2 = spec_apply_settings(st1, o2);
    let st3 = spec_apply_settings(st2, o3);
    let st4 = spec_apply_settings(st3, o4);
    let st5 = spec_apply_settings(st4, o5);
    let st6 = spec_apply_settings(st5, o6);
    let st7 = spec_apply_settings(st6, o7);
    let st8 = spec_apply_settings(st7, o8);
    lemma_apply_optional(st0, c.timeout is Some, ClientSettingView::Timeout(c.timeout->0));
    lemma_apply_optional(st1, c.user_agent is Some, ClientSettingView::UserAgent(c.user_agent->0));
    lemma_apply_optional(st2, c.ignore_certificate_errors == Some(true), ClientSettingView::AcceptInvalidCerts);
    lemma_apply_optional(st3, c.default_headers is Some, ClientSettingView::DefaultHeaders(c.default_headers->0));
    lemma_apply_optional(st4, c.use_cookies == Some(true), ClientSettingView::CookieStore);
    lemma_apply_optional(st5, c.http_proxy is Some, spec_proxy_setting(ProxyKind::Http, "http"@, c.http_proxy->0));
    lemma_apply_optional(st6, c.https_proxy is Some, spec_proxy_setting(ProxyKind::Https, "https"@, c.https_proxy->0));
    lemma_apply_optional(st7, c.socks_proxy is Some, spec_proxy_setting(ProxyKind::All, "socks5"@, c.socks_proxy->0));
    assert(spec_client_settings(c) == o1 + o2 + o3 + o4 + o5 + o6 + o7 + o8);
    assert(spec_configured_state(c) == st8);
    assert(st8.proxies =~= spec_configured_proxies(c));
}

/// Whether every proxy setting with credentials has a URL that can take
/// them (see `proxy_takes_credentials`).
pub open spec fn credentials_settable(s: Seq<ClientSettingView>) -> bool {
    forall|i: int| 0 <= i < s.len() ==> (#[trigger] s[i] matches ClientSettingView::Proxy { url, credentials, .. }
        ==> (credentials is Some ==> proxy_takes_credentials(url)))
}

/// Whether every proxy setting with credentials has a URL that can take
/// them (see `credentials_settable`).
fn settings_take_credentials(settings: &Vec<ClientSetting>) -> (b: bool)
    ensures
        b == credentials_settable(settings_view(settings@)),
{
    let ghost sv = settings_view(settings@);
    let mut i: usize = 0;
    while i < settings.len()
        invariant
            sv == settings_view(settings@),
            i <= settings@.len(),
            forall|j: int| 0 <= j < i ==> (#[trigger] sv[j] matches ClientSettingView::Proxy { url, credentials, .. }
                ==> (credentials is Some ==> proxy_takes_credentials(url))),
        decreases settings.len() - i,
    {
        assert(sv[i as int] == settings@[i as int]@);
        match &settings[i] {
            ClientSetting::Proxy { url, credentials: Some(_), .. } => {
                if !url_takes_credentials(url.as_str()) {
                    return false;
                }
            },
            _ => {},
        }
        i += 1;
    }
    true
}

/// Whether a configuration can be applied without a panic in reqwest or
/// `http`: its default header fields fit the header maps (`headers_fit`)
/// and every proxy with credentials has a URL that takes them
/// (`credentials_settable`).
pub fn config_applicable(config: &BackendConfig) -> (b: bool)
    ensures
        b == (headers_fit(config@) && credentials_settable(spec_client_settings(config@))),
{
    let fits = match &config.default_headers {
        Some(h) => h.len() <= MAX_HEADER_NAMES - 2,
        None => true,
    };
    if !fits {
        return false;
    }
    let settings = client_settings(config);
    settings_take_credentials(&settings)
}

/// Whether applying the setting fails.
pub open spec fn setting_fails(s: ClientSettingView) -> bool {
    s matches ClientSettingView::Proxy { kind, url, .. } && !proxy_accepted(kind, url)
}

/// The error for a rejected proxy: the prefix followed by reqwest's text.
fn proxy_error(prefix: &str, detail: String) -> (e: Error)
    ensures
        e matches Error::Internal(m) && m@ == prefix@ + detail@,
{
    let mut m = String::from_str(prefix);
    m.append(detail.as_str());
    Error::Internal(m)
}

/// Applies one setting to the builder.
fn apply_setting(builder: ReqwestClientBuilder, setting: &ClientSetting) -> (res: Result<ReqwestClientBuilder, Error>)
    requires
        setting@ matches ClientSettingView::Proxy { url, credentials, .. } ==> (credentials is Some ==> proxy_takes_credentials(url)),
        builder_header_names(builder).finite(),
        builder_header_names(builder).len() + setting_weight(setting@) <= MAX_HEADER_NAMES,
    ensures
        res matches Ok(b) ==> builder_header_names(b).finite() && builder_header_names(b).len() <= builder_header_names(
            builder,
        ).len() + setting_weight(setting@),
        res is Err <==> setting_fails(setting@),
        res matches Ok(b) ==> builder_state(b) == spec_apply_setting(builder_state(builder), setting@),
        res matches Err(e) ==> (e matches Error::Internal(m) && has_prefix(m@, setting_error_prefix(setting@))),
{
    match setting {
        ClientSetting::Timeout(t) => Ok(with_timeout(builder, *t)),
        ClientSetting::UserAgent(u) => {
            let b = with_user_agent(builder, u.as_str());
            proof {
                if header_value_ok(u@) {
                    assert(builder_header_names(b) =~= builder_header_names(builder).insert("user-agent"@));
                }
            }
            Ok(b)
        },
        ClientSetting::DefaultHeaders(h) => {
            let map = header_map_of(h);
            proof {
                vstd::set_lib::lemma_len_union(builder_header_names(builder), header_map_values(map).dom());
            }
            let b = with_default_headers(builder, map);
            proof {
                assert(builder_header_names(b) =~= builder_header_names(builder) + header_map_values(map).dom());
            }
            Ok(b)
        },
        ClientSetting::AcceptInvalidCerts => Ok(with_invalid_certs_accepted(builder, true)),
        ClientSetting::CookieStore => Ok(with_cookie_store(builder, true)),
        ClientSetting::Proxy { kind, url, credentials } => {
            match make_proxy(*kind, url.as_str(), credentials) {
                Ok(proxy) => Ok(with_proxy(builder, proxy)),
                Err(detail) => {
                    let e = match kind {
                        ProxyKind::Http => proxy_error("Invalid HTTP proxy: ", detail),
                        ProxyKind::Https => proxy_error("Invalid HTTPS proxy: ", detail),
                        ProxyKind::All => proxy_error("Invalid SOCKS proxy: ", detail),
                    };
                    proof {
                        reveal_strlit("Invalid HTTP proxy: ");
                        reveal_strlit("Invalid HTTPS proxy: ");
                        reveal_strlit("Invalid SOCKS proxy: ");
                        let m = e->Internal_0;
                        assert(m@ == setting_error_prefix(setting@) + detail@);
                    }
                    Err(e)
                },
            }
        },
    }
}

/// Reqwest backend for cross-platform HTTP.
pub struct ReqwestBackend {
    client: ReqwestClient,
    cookie_jar: Option<CookieJar>,
}

impl ReqwestBackend {
    /// The reqwest client requests are sent with.
    pub closed spec fn client_handle(&self) -> ReqwestClient {
        self.client
    }

    /// The custom cookie jar the backend was configured with, if any.
    pub closed spec fn jar_view(&self) -> Option<JarView> {
        jar_opt_view(self.cookie_jar)
    }

    /// The client error with its prefix.
    fn build_error(detail: String) -> (e: Error)
        ensures
            e matches Error::Internal(m) && m@ == "Failed to create reqwest client: "@ + detail@,
    {
        proxy_error("Failed to create reqwest client: ", detail)
    }

    /// Create a new Reqwest backend with the default client settings.
    pub fn new() -> (res: Result<Self, Error>)
        ensures
            res matches Ok(b) ==> b.jar_view() is None,
            res matches Err(e) ==> (e matches Error::Internal(m) && has_prefix(m@, "Failed to create reqwest client: "@)),
    {
        match build_client(client_builder()) {
            Ok(client) => Ok(ReqwestBackend { client, cookie_jar: None }),
            Err(detail) => {
                let e = Self::build_error(detail);
                assert(e->Internal_0@ == "Failed to create reqwest client: "@ + detail@);
                Err(e)
            },
        }
    }

    /// Create a new Reqwest backend with configuration: the settings of
    /// `client_settings` are applied in order; the first proxy whose URL
    /// reqwest rejects makes the whole call fail.
    #[verifier::spinoff_prover]
    #[verifier::rlimit(40)]
    pub fn with_config(config: BackendConfig) -> (res: Result<Self, Error>)
        requires
            headers_fit(config@),
            credentials_settable(spec_client_settings(config@)),
        ensures
            res matches Ok(b) ==> client_state(b.client_handle()) == spec_configured_state(config@),
            first_failure(spec_client_settings(config@)) matches Some(p) ==> (res matches Err(Error::Internal(m)) && has_prefix(m@, p)),
            first_failure(spec_client_settings(config@)) is None ==> (res is Ok || (res matches Err(Error::Internal(m))
                && has_prefix(m@, "Failed to create reqwest client: "@))),
            res matches Ok(b) ==> b.jar_view() == config@.cookie_jar,
    {
        let settings = client_settings(&config);
        let ghost sv = settings_view(settings@);
        let mut builder = client_builder();
        let mut i: usize = 0;
        assert(sv.take(0) =~= Seq::<ClientSettingView>::empty());
        assert(builder_header_names(builder) =~= set!["accept"@]);
        proof {
            lemma_config_weight(config@);
        }
        while i < settings.len()
            invariant
                sv == settings_view(settings@),
                sv == spec_client_settings(config@),
                i <= settings@.len(),
                first_failure(sv.take(i as int)) is None,
                headers_fit(config@),
                settings_weight(sv) <= 1 + match config@.default_headers {
                    Some(h) => h.len(),
                    None => 0,
                },
                builder_header_names(builder).finite(),
                builder_header_names(builder).len() <= 1 + settings_weight(sv.take(i as int)),
                credentials_settable(sv),
                builder_state(builder) == spec_apply_settings(spec_fresh_state(), sv.take(i as int)),
            decreases settings.len() - i,
        {
            proof {
                assert(sv.take(i + 1).drop_last() =~= sv.take(i as int));
                assert(sv.take(i + 1).last() == settings@[i as int]@);
                lemma_weight_prefix(sv, i + 1);
                lemma_first_failure_skip(sv, i as int);
                assert(sv.skip(i as int)[0] == settings@[i as int]@);
                assert(sv.skip(i as int).drop_first() =~= sv.skip(i + 1));
                assert(sv[i as int] == settings@[i as int]@);
            }
            match apply_setting(builder, &settings[i]) {
                Ok(b) => builder = b,
                Err(e) => {
                    assert(first_failure(sv.skip(i as int)) == Some(setting_error_prefix(sv[i as int])));
                    return Err(e);
                },
            }
            proof {
                assert(sv.take(i + 1) =~= sv.take(i as int).push(sv[i as int]));
                lemma_first_failure_push(sv.take(i as int), sv[i as int]);
            }
            i += 1;
        }
        assert(sv.take(settings@.len() as int) =~= sv);
        match build_client(builder) {
            Ok(client) => Ok(ReqwestBackend { client, cookie_jar: config.cookie_jar }),
            Err(detail) => {
                let e = Self::build_error(detail);
                assert(e->Internal_0@ == "Failed to create reqwest client: "@ + detail@);
                Err(e)
            },
        }
    }

    /// Get the underlying reqwest client.
    pub fn client(&self) -> (c: &ReqwestClient)
        ensures
            *c == self.client_handle(),
    {
        &self.client
    }

    /// Get the cookie jar if configured.
    pub fn cookie_jar(&self) -> (jar: Option<&CookieJar>)
        ensures
            jar_opt_view(match jar { Some(j) => Some(*j), None => None }) == self.jar_view(),
    {
        match &self.cookie_jar {
            Some(j) => Some(j),
            None => None,
        }
    }

    /// Another handle on the same client, with a copy of the cookie jar.
    pub fn duplicate(&self) -> (b: Self)
        ensures
            b.jar_view() == self.jar_view(),
            b.client_handle() == self.client_handle(),
    {
        ReqwestBackend {
            client: clone_client(&self.client),
            cookie_jar: match &self.cookie_jar {
                Some(j) => Some(j.duplicate()),
                None => None,
            },
        }
    }
}

proof fn lemma_first_failure_push(s: Seq<ClientSettingView>, x: ClientSettingView)
    requires
        first_failure(s) is None,
        !setting_fails(x),
    ensures
        first_failure(s.push(x)) is None,
    decreases s.len(),
{
    let t = s.push(x);
    if s.len() == 0 {
        assert(t[0] == x);
        assert(t.drop_first() =~= Seq::<ClientSettingView>::empty());
        assert(first_failure(t.drop_first()) is None);
    } else {
        assert(t[0] == s[0]);
        assert(t.drop_first() =~= s.drop_first().push(x));
        lemma_first_failure_push(s.drop_first(), x);
        assert(first_failure(t.drop_first()) is None);
    }
    match t[0] {
        ClientSettingView::Proxy { kind, url, .. } => {
            assert(proxy_accepted(kind, url));
        },
        _ => {},
    }
}

/// The body of a planned request.
pub enum PlannedBody {
    /// No body
    Nothing,
    /// These bytes, with the content type the backend sets (forms only),
    /// streamed in chunks when upload progress is reported
    Bytes {
        /// The bytes
        data: Vec<u8>,
        /// The content type the backend sets
        content_type: Option<String>,
        /// Whether upload progress is reported
        with_progress: bool,
    },
    /// Parts framed by reqwest's multipart support
    Multipart(Vec<MultipartPart>),
}

/// The abstract value of a planned body.
pub enum PlannedBodyView {
    /// No body
    Nothing,
    /// Bytes, content type, progress
    Bytes(Seq<u8>, Option<Seq<char>>, bool),
    /// Multipart parts
    Multipart(Seq<PartView>),
}

impl View for PlannedBody {
    type V = PlannedBodyView;

    open spec fn view(&self) -> PlannedBodyView {
        match self {
            PlannedBody::Nothing => PlannedBodyView::Nothing,
            PlannedBody::Bytes { data, content_type, with_progress } => PlannedBodyView::Bytes(
                data@,
                opt_view(*content_type),
                *with_progress,
            ),
            PlannedBody::Multipart(p) => PlannedBodyView::Multipart(parts_view(p@)),
        }
    }
}

/// A request as reqwest sends it.
pub struct RequestPlan {
    /// Method
    pub method: Method,
    /// URL
    pub url: String,
    /// Header fields, in order
    pub headers: Vec<HeaderPair>,
    /// Body
    pub body: PlannedBody,
}

/// The content type the backend gives form bodies.
pub open spec fn form_content_type() -> Seq<char> {
    "application/x-www-form-urlencoded"@
}

/// The planned body of a request body: multipart parts go to reqwest's
/// multipart support; form bodies are sent encoded with the form content
/// type; other bodies (JSON serialized) are sent as their bytes.
pub open spec fn spec_planned_body(body: Option<BodyView>, progress: bool) -> PlannedBodyView {
    match body {
        None => PlannedBodyView::Nothing,
        Some(BodyView::Multipart(p)) => PlannedBodyView::Multipart(p),
        Some(BodyView::Form(f)) => PlannedBodyView::Bytes(spec_body_bytes(BodyView::Form(f)), Some(form_content_type()), progress),
        Some(b) => PlannedBodyView::Bytes(spec_body_bytes(b), None, progress),
    }
}

/// Whether `reqwest::multipart::Part::mime_str` accepts the text as a
/// content type (it parses as a MIME type). It depends on the text alone.
pub uninterp spec fn mime_accepts(content_type: Seq<char>) -> bool;

/// `Part::mime_str` on an empty part: whether the content type is
/// accepted; on failure, the error's text.
#[verifier::external_body]
fn part_mime_check(content_type: &str) -> (res: Result<(), String>)
    ensures
        res is Ok <==> mime_accepts(content_type@),
{
    reqwest::multipart::Part::bytes(Vec::new()).mime_str(content_type).map(|_| ()).map_err(|e| e.to_string())
}

/// Whether every content type the parts carry is accepted by reqwest.
pub open spec fn part_types_ok(parts: Seq<PartView>) -> bool {
    forall|i: int| 0 <= i < parts.len() ==> (#[trigger] parts[i].content_type matches Some(t) ==> mime_accepts(t))
}

/// Checks the content types of multipart parts: the first one reqwest
/// does not accept is an `Internal` error "Invalid content type: " with
/// reqwest's text.
pub fn check_part_types(parts: &Vec<MultipartPart>) -> (res: Result<(), Error>)
    ensures
        res is Ok <==> part_types_ok(parts_view(parts@)),
        res matches Err(e) ==> (e matches Error::Internal(m) && has_prefix(m@, "Invalid content type: "@)),
{
    let ghost pv = parts_view(parts@);
    let mut i: usize = 0;
    while i < parts.len()
        invariant
            pv == parts_view(parts@),
            pv.len() == parts@.len(),
            i <= parts@.len(),
            forall|j: int| 0 <= j < i ==> (#[trigger] pv[j].content_type matches Some(t) ==> mime_accepts(t)),
        decreases parts.len() - i,
    {
        assert(pv[i as int] == parts@[i as int]@);
        match &parts[i].content_type {
            Some(t) => match part_mime_check(t.as_str()) {
                Ok(()) => {},
                Err(detail) => {
                    let e = proxy_error("Invalid content type: ", detail);
                    proof {
                        reveal_strlit("Invalid content type: ");
                    }
                    assert(has_prefix(e->Internal_0@, "Invalid content type: "@));
                    assert(pv[i as int].content_type == Some(t@));
                    assert(!part_types_ok(pv));
                    return Err(e);
                },
            },
            None => {},
        }
        i += 1;
    }
    Ok(())
}

/// Whether reqwest sends requests with this method here: all but OPTIONS.
pub open spec fn method_supported(m: Method) -> bool {
    m != Method::Options
}

/// Whether the request's URL is an `http` or `https` URL.
pub open spec fn http_scheme(url: Seq<char>) -> bool {
    url_parses(url) && (url_scheme_of(url) == "http"@ || url_scheme_of(url) == "https"@)
}

/// Plans a request for reqwest: only `http` and `https` URLs are sent
/// (`InvalidUrl` otherwise), OPTIONS is refused with "Unsupported method:
/// OPTIONS", a multipart part whose content type reqwest does not accept
/// is an `Internal` error "Invalid content type: ...", and the body is
/// prepared as `spec_planned_body` says.
pub fn plan_request(request: BackendRequest) -> (res: Result<RequestPlan, Error>)
    ensures
        !http_scheme(request@.url) ==> res matches Err(Error::InvalidUrl),
        http_scheme(request@.url) && !method_supported(request@.method) ==> (res matches Err(Error::Internal(m))
            && m@ == "Unsupported method: "@ + spec_method_name(request@.method)),
        http_scheme(request@.url) && method_supported(request@.method) && (request@.body matches Some(BodyView::Multipart(p))
            && !part_types_ok(p)) ==> (res matches Err(Error::Internal(m)) && has_prefix(m@, "Invalid content type: "@)),
        http_scheme(request@.url) && method_supported(request@.method) && !(request@.body matches Some(BodyView::Multipart(p))
            && !part_types_ok(p)) ==> res is Ok,
        res matches Ok(p) ==> p.method == request@.method && p.url@ == request@.url && headers_view(p.headers@)
            == request@.headers && p.body@ == spec_planned_body(request@.body, request@.track_progress),
{
    let ghost rv = request@;
    match url_scheme(request.url.as_str()) {
        Some(scheme) => {
            if !(str_eq(scheme.as_str(), "http") || str_eq(scheme.as_str(), "https")) {
                return Err(Error::InvalidUrl);
            }
        },
        None => return Err(Error::InvalidUrl),
    }
    if request.method == Method::Options {
        let mut m = String::from_str("Unsupported method: ");
        m.append(request.method.as_str());
        return Err(Error::Internal(m));
    }
    let progress = request.track_progress;
    let body = match request.body {
        None => PlannedBody::Nothing,
        Some(Body::Multipart { parts }) => {
            match check_part_types(&parts) {
                Ok(()) => {},
                Err(e) => return Err(e),
            }
            PlannedBody::Multipart(parts)
        },
        Some(b) => {
            let is_form = match &b {
                Body::Form { .. } => true,
                _ => false,
            };
            let data = match body_to_bytes(&b) {
                Ok(d) => d,
                Err(e) => return Err(e),
            };
            let content_type = if is_form {
                Some(String::from_str("application/x-www-form-urlencoded"))
            } else {
                None
            };
            PlannedBody::Bytes { data, content_type, with_progress: progress }
        },
    };
    Ok(RequestPlan { method: request.method, url: request.url, headers: request.headers, body })
}

/// Splits an upload into chunks and counts the bytes handed out, the way
/// the upload stream reports progress.
pub struct UploadChunker {
    /// Total bytes to upload
    pub total: usize,
    /// Bytes handed out so far
    pub position: usize,
    /// Largest chunk
    pub chunk_size: usize,
}

impl UploadChunker {
    /// A chunker for `total` bytes; nothing handed out yet.
    pub fn new(total: usize, chunk_size: usize) -> (c: Self)
        requires
            chunk_size > 0,
        ensures
            c.total == total,
            c.position == 0,
            c.chunk_size == chunk_size,
    {
        UploadChunker { total, position: 0, chunk_size }
    }

    /// The next chunk, as the range `start..end` of the data, or `None`
    /// once everything was handed out; `end` is the progress to report.
    pub fn next_chunk(&mut self) -> (r: Option<(usize, usize)>)
        requires
            old(self).position <= old(self).total,
            old(self).chunk_size > 0,
        ensures
            r is None <==> old(self).position == old(self).total,
            r is None ==> *final(self) == *old(self),
            r matches Some((s, e)) ==> s == old(self).position && e == (if old(self).total - s < old(self).chunk_size {
                old(self).total as int
            } else {
                s + old(self).chunk_size
            }) && s < e && final(self).position == e,
            final(self).total == old(self).total,
            final(self).chunk_size == old(self).chunk_size,
            final(self).position <= final(self).total,
    {
        let remaining = self.total - self.position;
        if remaining == 0 {
            return None;
        }
        let size = if self.chunk_size < remaining { self.chunk_size } else { remaining };
        let start = self.position;
        self.position = start + size;
        Some((start, self.position))
    }
}

/// The chunks handed out from `position` on, in order.
pub open spec fn spec_chunks(total: int, position: int, chunk: int) -> Seq<(int, int)>
    decreases total - position,
{
    if position >= total || chunk <= 0 {
        Seq::empty()
    } else {
        let end = if total - position < chunk { total } else { position + chunk };
        seq![(position, end)] + spec_chunks(total, end, chunk)
    }
}

/// The chunks of an upload cover the data exactly: they follow one
/// another without gap or overlap, from where the chunker stands to the
/// end, and each is at most a chunk long.
pub proof fn law_chunks_tile(total: int, position: int, chunk: int)
    requires
        0 <= position <= total,
        chunk > 0,
    ensures
        ({
            let c = spec_chunks(total, position, chunk);
            &&& (position < total ==> c.len() > 0 && c[0].0 == position && c.last().1 == total)
            &&& (position == total ==> c.len() == 0)
            &&& forall|i: int| 0 <= i < c.len() ==> #[trigger] c[i].0 < c[i].1 && c[i].1 - c[i].0 <= chunk
            &&& forall|i: int| 0 <= i < c.len() - 1 ==> #[trigger] c[i].1 == c[i + 1].0
        }),
    decreases total - position,
{
    if position < total {
        let end = if total - position < chunk { total } else { position + chunk };
        law_chunks_tile(total, end, chunk);
        let rest = spec_chunks(total, end, chunk);
        let c = spec_chunks(total, position, chunk);
        assert(c == seq![(position, end)] + rest);
        assert forall|i: int| 0 <= i < c.len() implies #[trigger] c[i].0 < c[i].1 && c[i].1 - c[i].0 <= chunk by {
            if i > 0 {
                assert(c[i] == rest[i - 1]);
            }
        }
        assert forall|i: int| 0 <= i < c.len() - 1 implies #[trigger] c[i].1 == c[i + 1].0 by {
            assert(c[i + 1] == rest[i]);
            if i > 0 {
                assert(c[i] == rest[i - 1]);
            }
        }
        if end < total {
            assert(c.last() == rest.last());
        }
    }
}

} // verus!
