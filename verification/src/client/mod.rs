//! The client and its builder: configuration is collected into a
//! `BackendConfig` and handed to the selected backend.

pub mod background;
pub mod download;
pub mod upload;

use vstd::prelude::*;
use vstd::string::*;
use crate::backend::{Backend, BackendConfig, BackendConfigView, jar_opt_view, spec_default_config};
use crate::backend::cookie_store::{JarView, has_prefix};
use crate::backend::reqwest::{ReqwestClient, client_state, config_applicable, credentials_settable, first_failure, headers_fit, spec_client_settings, spec_configured_state};
use crate::backend::reqwest::websocket::ReqwestWebSocketBuilder;
use crate::cookies::{CookieAcceptPolicy, CookieJar, opt_view};
use vstd::multiset::Multiset;
use crate::error::Error;
use crate::request::{Method, RequestBuilder, RequestView};
use self::background::BackgroundDownloadBuilder;
use self::download::DownloadBuilder;
use self::upload::UploadBuilder;
use crate::wire::url_parses;
use crate::text::{starts_with, str_starts_with, trim_end_char, trim_leading, trim_start_char, trim_trailing};
use crate::wire::{HeaderPair, header_name_normalized, header_value_ok, header_value_valid, headers_view, insert_header, spec_header_name, spec_insert_header};

verus! {

/// Proxy configuration for requests.
pub struct ProxyConfig {
    /// Proxy host
    pub host: String,
    /// Proxy port
    pub port: u16,
    /// Optional username for authentication
    pub username: Option<String>,
    /// Optional password for authentication
    pub password: Option<String>,
}

/// The abstract value of a proxy configuration.
pub struct ProxyView {
    /// Proxy host
    pub host: Seq<char>,
    /// Proxy port
    pub port: u16,
    /// Username
    pub username: Option<Seq<char>>,
    /// Password
    pub password: Option<Seq<char>>,
}

/// The view of a proxy configuration.
pub open spec fn proxy_view(p: ProxyConfig) -> ProxyView {
    ProxyView { host: p.host@, port: p.port, username: opt_view(p.username), password: opt_view(p.password) }
}

/// A proxy on `host:port` without credentials.
pub open spec fn spec_proxy(host: Seq<char>, port: u16) -> ProxyView {
    ProxyView { host, port, username: None, password: None }
}

/// Backend type.
#[derive(Clone, Copy, PartialEq, Eq, Structural, Debug)]
#[non_exhaustive]
pub enum BackendType {
    /// Reqwest backend (all platforms)
    Reqwest,
}

impl BackendType {
    /// The default backend type for the current platform.
    pub fn fallback() -> (t: Self)
        ensures
            t == BackendType::Reqwest,
    {
        BackendType::Reqwest
    }
}

/// The kinds of proxy a client can be configured with.
#[derive(Clone, Copy, PartialEq, Eq, Structural, Debug)]
pub enum ProxySlot {
    /// The HTTP proxy
    Http,
    /// The HTTPS proxy
    Https,
    /// The SOCKS proxy
    Socks,
}

/// The abstract value of a client builder.
pub struct ClientBuilderView {
    /// The backend configuration collected so far
    pub config: BackendConfigView,
    /// The backend chosen, if any
    pub backend_type: Option<BackendType>,
    /// The base URL of relative request URLs, if any
    pub base_url: Option<Seq<char>>,
    /// The kind of proxy configured last, if any
    pub last_proxy: Option<ProxySlot>,
}

/// Builder for configuring HTTP clients.
pub struct ClientBuilder {
    config: BackendConfig,
    backend_type: Option<BackendType>,
    base_url: Option<String>,
    last_proxy: Option<ProxySlot>,
}

impl View for ClientBuilder {
    type V = ClientBuilderView;

    closed spec fn view(&self) -> ClientBuilderView {
        ClientBuilderView {
            config: self.config@,
            backend_type: self.backend_type,
            base_url: opt_view(self.base_url),
            last_proxy: self.last_proxy,
        }
    }
}

/// The default headers after setting one: an empty list when none were
/// set yet.
pub open spec fn spec_with_header(h: Option<Seq<(Seq<char>, Seq<char>)>>, n: Seq<char>, v: Seq<char>) -> Seq<(Seq<char>, Seq<char>)> {
    spec_insert_header(
        match h {
            Some(h) => h,
            None => Seq::empty(),
        },
        n,
        v,
    )
}

/// The configuration after `proxy_auth`: the credentials go to the proxy
/// configured last; with no proxy configured nothing changes.
pub open spec fn spec_proxy_auth(c: BackendConfigView, last: Option<ProxySlot>, u: Seq<char>, p: Seq<char>) -> BackendConfigView {
    match last {
        Some(ProxySlot::Socks) => match c.socks_proxy {
            Some(x) => BackendConfigView { socks_proxy: Some(ProxyView { username: Some(u), password: Some(p), ..x }), ..c },
            None => c,
        },
        Some(ProxySlot::Https) => match c.https_proxy {
            Some(x) => BackendConfigView { https_proxy: Some(ProxyView { username: Some(u), password: Some(p), ..x }), ..c },
            None => c,
        },
        Some(ProxySlot::Http) => match c.http_proxy {
            Some(x) => BackendConfigView { http_proxy: Some(ProxyView { username: Some(u), password: Some(p), ..x }), ..c },
            None => c,
        },
        None => c,
    }
}

/// `proxy_auth` right after configuring a proxy gives that proxy the
/// credentials and changes nothing else, whatever other proxies are set.
pub proof fn law_proxy_auth_targets_configured(b: ClientBuilderView, host: Seq<char>, port: u16, u: Seq<char>, p: Seq<char>)
    ensures
        spec_proxy_auth(BackendConfigView { http_proxy: Some(spec_proxy(host, port)), ..b.config }, Some(ProxySlot::Http), u, p)
            == (BackendConfigView { http_proxy: Some(ProxyView { host, port, username: Some(u), password: Some(p) }), ..b.config }),
        spec_proxy_auth(BackendConfigView { https_proxy: Some(spec_proxy(host, port)), ..b.config }, Some(ProxySlot::Https), u, p)
            == (BackendConfigView { https_proxy: Some(ProxyView { host, port, username: Some(u), password: Some(p) }), ..b.config }),
        spec_proxy_auth(BackendConfigView { socks_proxy: Some(spec_proxy(host, port)), ..b.config }, Some(ProxySlot::Socks), u, p)
            == (BackendConfigView { socks_proxy: Some(ProxyView { host, port, username: Some(u), password: Some(p) }), ..b.config }),
{
}

/// Sets the credentials of a proxy.
fn set_credentials(p: &mut ProxyConfig, username: &str, password: &str)
    ensures
        proxy_view(*final(p)) == (ProxyView { username: Some(username@), password: Some(password@), ..proxy_view(*old(p)) }),
{
    p.username = Some(String::from_str(username));
    p.password = Some(String::from_str(password));
}

/// The request URL for `url` given the client's base URL: absolute
/// `http://` and `https://` URLs are kept; other URLs are joined to the
/// base with exactly one `/` between them.
pub open spec fn spec_resolve_url(base: Option<Seq<char>>, url: Seq<char>) -> Seq<char> {
    match base {
        Some(b) => if starts_with(url, "http://"@) || starts_with(url, "https://"@) {
            url
        } else {
            trim_trailing(b, '/') + seq!['/'] + trim_leading(url, '/')
        },
        None => url,
    }
}

proof fn lemma_trim_trailing_end(s: Seq<char>, c: char)
    ensures
        trim_trailing(s, c).len() == 0 || trim_trailing(s, c).last() != c,
        trim_trailing(s, c).len() <= s.len(),
    decreases s.len(),
{
    if s.len() > 0 && s.last() == c {
        lemma_trim_trailing_end(s.drop_last(), c);
    }
}

proof fn lemma_trim_leading_start(s: Seq<char>, c: char)
    ensures
        trim_leading(s, c).len() == 0 || trim_leading(s, c)[0] != c,
    decreases s.len(),
{
    if s.len() > 0 && s[0] == c {
        lemma_trim_leading_start(s.drop_first(), c);
    }
}

/// Absolute `http` and `https` URLs are used as they are; any other URL
/// is joined to the base with exactly one `/`: the base loses its
/// trailing slashes, the URL its leading ones.
pub proof fn law_resolve_url(base: Seq<char>, url: Seq<char>)
    ensures
        (starts_with(url, "http://"@) || starts_with(url, "https://"@)) ==> spec_resolve_url(Some(base), url) == url,
        spec_resolve_url(None, url) == url,
        !(starts_with(url, "http://"@) || starts_with(url, "https://"@)) ==> ({
            let r = spec_resolve_url(Some(base), url);
            let k = trim_trailing(base, '/').len() as int;
            &&& r[k] == '/'
            &&& (k == 0 || r[k - 1] != '/')
            &&& (k + 1 == r.len() || r[k + 1] != '/')
        }),
{
    lemma_trim_trailing_end(base, '/');
    lemma_trim_leading_start(url, '/');
    let t = trim_trailing(base, '/');
    let l = trim_leading(url, '/');
    let r = t + seq!['/'] + l;
    assert(r[t.len() as int] == '/');
    if t.len() > 0 {
        assert(r[t.len() - 1] == t.last());
    }
    if l.len() > 0 {
        assert(r[t.len() as int + 1] == l[0]);
    }
}

/// The request URL for `url` given a base URL (see `spec_resolve_url`).
pub fn resolve_url(base: &Option<String>, url: &str) -> (r: String)
    ensures
        r@ == spec_resolve_url(opt_view(*base), url@),
{
    match base {
        Some(b) => {
            if str_starts_with(url, "http://") || str_starts_with(url, "https://") {
                String::from_str(url)
            } else {
                let mut r = trim_end_char(b.as_str(), '/');
                r.push('/');
                let rest = trim_start_char(url, '/');
                r.append(rest.as_str());
                r
            }
        },
        None => String::from_str(url),
    }
}

impl ClientBuilder {
    /// Create a new client builder with nothing configured.
    pub fn new() -> (b: Self)
        ensures
            b@ == (ClientBuilderView { config: spec_default_config(), backend_type: None, base_url: None, last_proxy: None }),
    {
        ClientBuilder { config: BackendConfig::new(), backend_type: None, base_url: None, last_proxy: None }
    }

    /// Set the base URL that relative request URLs are joined to.
    pub fn base_url(self, url: &str) -> (b: Self)
        ensures
            b@ == (ClientBuilderView { base_url: Some(url@), ..self@ }),
    {
        let mut b = self;
        b.base_url = Some(String::from_str(url));
        b
    }

    /// Set the request timeout.
    pub fn timeout(self, timeout: std::time::Duration) -> (b: Self)
        ensures
            b@ == (ClientBuilderView { config: BackendConfigView { timeout: Some(timeout), ..self@.config }, ..self@ }),
    {
        let mut b = self;
        b.config.timeout = Some(timeout);
        b
    }

    /// Set the user agent string.
    pub fn user_agent(self, user_agent: &str) -> (b: Self)
        ensures
            b@ == (ClientBuilderView { config: BackendConfigView { user_agent: Some(user_agent@), ..self@.config }, ..self@ }),
    {
        let mut b = self;
        b.config.user_agent = Some(String::from_str(user_agent));
        b
    }

    /// Set whether to ignore certificate errors (for testing only).
    pub fn ignore_certificate_errors(self, ignore: bool) -> (b: Self)
        ensures
            b@ == (ClientBuilderView { config: BackendConfigView { ignore_certificate_errors: Some(ignore), ..self@.config }, ..self@ }),
    {
        let mut b = self;
        b.config.ignore_certificate_errors = Some(ignore);
        b
    }

    /// Add a default header to all requests: the name is normalized to
    /// lower case and replaces an earlier header of the same name. Fails
    /// with `InvalidHeader` when the name or the value is not valid.
    pub fn header(self, name: &str, value: &str) -> (res: Result<Self, Error>)
        ensures
            res is Ok <==> (spec_header_name(name@) is Some && header_value_ok(value@)),
            res matches Err(e) ==> e is InvalidHeader,
            res matches Ok(b) ==> b@ == (ClientBuilderView {
                config: BackendConfigView {
                    default_headers: Some(spec_with_header(self@.config.default_headers, spec_header_name(name@)->0, value@)),
                    ..self@.config
                },
                ..self@
            }),
    {
        let header_name = match header_name_normalized(name) {
            Some(n) => n,
            None => return Err(Error::InvalidHeader),
        };
        if !header_value_valid(value).is_ok() {
            return Err(Error::InvalidHeader);
        }
        let mut b = self;
        let mut headers = match b.config.default_headers {
            Some(h) => h,
            None => Vec::new(),
        };
        proof {
            if self.config.default_headers is None {
                assert(headers_view(headers@) =~= Seq::empty());
            }
        }
        insert_header(&mut headers, header_name, String::from_str(value));
        b.config.default_headers = Some(headers);
        Ok(b)
    }

    /// Enable or disable cookie handling.
    pub fn use_cookies(self, use_cookies: bool) -> (b: Self)
        ensures
            b@ == (ClientBuilderView { config: BackendConfigView { use_cookies: Some(use_cookies), ..self@.config }, ..self@ }),
    {
        let mut b = self;
        b.config.use_cookies = Some(use_cookies);
        b
    }

    /// Set a custom cookie jar.
    pub fn cookie_jar(self, jar: CookieJar) -> (b: Self)
        ensures
            b@ == (ClientBuilderView { config: BackendConfigView { cookie_jar: Some(jar@), ..self@.config }, ..self@ }),
    {
        let mut b = self;
        b.config.cookie_jar = Some(jar);
        b
    }

    /// Set the HTTP proxy.
    pub fn http_proxy(self, host: &str, port: u16) -> (b: Self)
        ensures
            b@ == (ClientBuilderView {
                config: BackendConfigView { http_proxy: Some(spec_proxy(host@, port)), ..self@.config },
                last_proxy: Some(ProxySlot::Http),
                ..self@
            }),
    {
        let mut b = self;
        b.config.http_proxy = Some(ProxyConfig { host: String::from_str(host), port, username: None, password: None });
        b.last_proxy = Some(ProxySlot::Http);
        b
    }

    /// Set proxy authentication for the most recently configured proxy
    /// (see `spec_proxy_auth`).
    pub fn proxy_auth(self, username: &str, password: &str) -> (b: Self)
        ensures
            b@ == (ClientBuilderView { config: spec_proxy_auth(self@.config, self@.last_proxy, username@, password@), ..self@ }),
    {
        let mut b = self;
        match b.last_proxy {
            Some(ProxySlot::Socks) => {
                if let Some(p) = &mut b.config.socks_proxy {
                    set_credentials(p, username, password);
                }
            },
            Some(ProxySlot::Https) => {
                if let Some(p) = &mut b.config.https_proxy {
                    set_credentials(p, username, password);
                }
            },
            Some(ProxySlot::Http) => {
                if let Some(p) = &mut b.config.http_proxy {
                    set_credentials(p, username, password);
                }
            },
            None => {},
        }
        b
    }

    /// Set the HTTPS proxy.
    pub fn https_proxy(self, host: &str, port: u16) -> (b: Self)
        ensures
            b@ == (ClientBuilderView {
                config: BackendConfigView { https_proxy: Some(spec_proxy(host@, port)), ..self@.config },
                last_proxy: Some(ProxySlot::Https),
                ..self@
            }),
    {
        let mut b = self;
        b.config.https_proxy = Some(ProxyConfig { host: String::from_str(host), port, username: None, password: None });
        b.last_proxy = Some(ProxySlot::Https);
        b
    }

    /// Set the SOCKS proxy.
    pub fn socks_proxy(self, host: &str, port: u16) -> (b: Self)
        ensures
            b@ == (ClientBuilderView {
                config: BackendConfigView { socks_proxy: Some(spec_proxy(host@, port)), ..self@.config },
                last_proxy: Some(ProxySlot::Socks),
                ..self@
            }),
    {
        let mut b = self;
        b.config.socks_proxy = Some(ProxyConfig { host: String::from_str(host), port, username: None, password: None });
        b.last_proxy = Some(ProxySlot::Socks);
        b
    }

    /// Choose the backend.
    pub fn backend(self, backend_type: BackendType) -> (b: Self)
        ensures
            b@ == (ClientBuilderView { backend_type: Some(backend_type), ..self@ }),
    {
        let mut b = self;
        b.backend_type = Some(backend_type);
        b
    }

    /// Build the client with the configured settings; without a chosen
    /// backend the platform's default is used. With cookies enabled and no
    /// jar given, the client gets a new, empty jar that accepts every
    /// cookie.
    pub fn build(self) -> (res: Result<Client, Error>)
        requires
            headers_fit(self@.config),
            credentials_settable(spec_client_settings(self@.config)),
        ensures
            first_failure(spec_client_settings(self@.config)) matches Some(p) ==> (res matches Err(Error::Internal(m)) && has_prefix(m@, p)),
            first_failure(spec_client_settings(self@.config)) is None ==> (res is Ok || (res matches Err(Error::Internal(m))
                && has_prefix(m@, "Failed to create reqwest client: "@))),
            res matches Ok(c) ==> c.jar_view() == spec_built_jar(self@.config) && c.base_url_view() == self@.base_url,
            res matches Ok(c) ==> client_state(c.client_handle()) == spec_configured_state(self@.config),
    {
        let mut b = self;
        if b.config.cookie_jar.is_none() && b.config.use_cookies == Some(true) {
            b.config.cookie_jar = Some(CookieJar::with_store());
        }
        let ghost view = self@.config;
        assert(spec_client_settings(b@.config) == spec_client_settings(view));
        let backend_type = match b.backend_type {
            Some(t) => t,
            None => BackendType::fallback(),
        };
        let backend = match backend_type {
            BackendType::Reqwest => Backend::reqwest_with_config(b.config),
        };
        match backend {
            Ok(backend) => Ok(Client { backend, base_url: b.base_url }),
            Err(e) => Err(e),
        }
    }

    /// Builds the client as `build` does when the configuration can be
    /// applied (see `config_applicable`: the default header fields fit and
    /// every proxy with credentials has a URL that takes them); `None`
    /// otherwise, where reqwest would panic.
    pub fn build_checked(self) -> (res: Option<Result<Client, Error>>)
        ensures
            res is Some <==> (headers_fit(self@.config) && credentials_settable(spec_client_settings(self@.config))),
            res matches Some(r) ==> (first_failure(spec_client_settings(self@.config)) matches Some(p) ==> (r matches Err(Error::Internal(m)) && has_prefix(m@, p))),
            res matches Some(r) ==> (first_failure(spec_client_settings(self@.config)) is None ==> (r is Ok || (r matches Err(Error::Internal(m))
                && has_prefix(m@, "Failed to create reqwest client: "@)))),
            res matches Some(r) ==> (r matches Ok(c) ==> c.jar_view() == spec_built_jar(self@.config) && c.base_url_view() == self@.base_url),
            res matches Some(r) ==> (r matches Ok(c) ==> client_state(c.client_handle()) == spec_configured_state(self@.config)),
    {
        if config_applicable(&self.config) {
            Some(self.build())
        } else {
            None
        }
    }
}

/// The jar a built client has: the one given; else, with cookies enabled,
/// a new, empty jar that accepts every cookie; else none.
pub open spec fn spec_built_jar(c: BackendConfigView) -> Option<JarView> {
    match c.cookie_jar {
        Some(j) => Some(j),
        None => if c.use_cookies == Some(true) {
            Some(JarView { cookies: Multiset::empty(), policy: CookieAcceptPolicy::Always })
        } else {
            None
        },
    }
}

/// A fresh request: no header fields, no body, error statuses are errors.
pub open spec fn spec_new_request(method: Method, url: Seq<char>, jar: Option<JarView>, client: ReqwestClient) -> RequestView {
    RequestView {
        method,
        url,
        headers: Seq::empty(),
        body: None,
        track_progress: false,
        error_for_status: true,
        jar,
        client,
    }
}

/// HTTP client for making requests.
pub struct Client {
    backend: Backend,
    base_url: Option<String>,
}

impl Client {
    /// The reqwest client this client sends requests with.
    pub closed spec fn client_handle(&self) -> ReqwestClient {
        self.backend.client_handle()
    }

    /// The custom cookie jar the client was built with, if any.
    pub closed spec fn jar_view(&self) -> Option<JarView> {
        self.backend.jar_view()
    }

    /// The base URL of relative request URLs, if any.
    pub closed spec fn base_url_view(&self) -> Option<Seq<char>> {
        opt_view(self.base_url)
    }

    /// Create a new HTTP client with the platform's default backend.
    pub fn new() -> (res: Result<Self, Error>)
        ensures
            res matches Ok(c) ==> c.jar_view() is None && c.base_url_view() is None,
            res matches Err(e) ==> (e matches Error::Internal(m) && has_prefix(m@, "Failed to create reqwest client: "@)),
    {
        match Backend::default_for_platform() {
            Ok(backend) => Ok(Client { backend, base_url: None }),
            Err(e) => Err(e),
        }
    }

    /// Create a client builder for advanced configuration.
    pub fn builder() -> (b: ClientBuilder)
        ensures
            b@ == (ClientBuilderView { config: spec_default_config(), backend_type: None, base_url: None, last_proxy: None }),
    {
        ClientBuilder::new()
    }

    /// The URL a request for `url` goes to (see `spec_resolve_url`).
    pub fn resolve_url(&self, url: &str) -> (r: String)
        ensures
            r@ == spec_resolve_url(self.base_url_view(), url@),
    {
        resolve_url(&self.base_url, url)
    }

    /// A request with the method to `url`.
    fn request(&self, method: Method, url: &str) -> (res: Result<RequestBuilder, Error>)
        ensures
            res is Ok <==> url_parses(spec_resolve_url(self.base_url_view(), url@)),
            res matches Err(e) ==> e is InvalidUrl,
            res matches Ok(r) ==> r@ == spec_new_request(method, spec_resolve_url(self.base_url_view(), url@), self.jar_view(), self.client_handle()),
    {
        let target = self.resolve_url(url);
        RequestBuilder::new(method, target.as_str(), self.backend.duplicate())
    }

    /// Create a GET request to `url` (joined to the base URL, if any).
    /// Fails with `InvalidUrl` when the resulting URL does not parse.
    pub fn get(&self, url: &str) -> (res: Result<RequestBuilder, Error>)
        ensures
            res is Ok <==> url_parses(spec_resolve_url(self.base_url_view(), url@)),
            res matches Err(e) ==> e is InvalidUrl,
            res matches Ok(r) ==> r@ == spec_new_request(Method::Get, spec_resolve_url(self.base_url_view(), url@), self.jar_view(), self.client_handle()),
    {
        self.request(Method::Get, url)
    }

    /// Create a POST request to `url` (joined to the base URL, if any).
    /// Fails with `InvalidUrl` when the resulting URL does not parse.
    pub fn post(&self, url: &str) -> (res: Result<RequestBuilder, Error>)
        ensures
            res is Ok <==> url_parses(spec_resolve_url(self.base_url_view(), url@)),
            res matches Err(e) ==> e is InvalidUrl,
            res matches Ok(r) ==> r@ == spec_new_request(Method::Post, spec_resolve_url(self.base_url_view(), url@), self.jar_view(), self.client_handle()),
    {
        self.request(Method::Post, url)
    }

    /// Create a PUT request to `url` (joined to the base URL, if any).
    /// Fails with `InvalidUrl` when the resulting URL does not parse.
    pub fn put(&self, url: &str) -> (res: Result<RequestBuilder, Error>)
        ensures
            res is Ok <==> url_parses(spec_resolve_url(self.base_url_view(), url@)),
            res matches Err(e) ==> e is InvalidUrl,
            res matches Ok(r) ==> r@ == spec_new_request(Method::Put, spec_resolve_url(self.base_url_view(), url@), self.jar_view(), self.client_handle()),
    {
        self.request(Method::Put, url)
    }

    /// Create a DELETE request to `url` (joined to the base URL, if any).
    /// Fails with `InvalidUrl` when the resulting URL does not parse.
    pub fn delete(&self, url: &str) -> (res: Result<RequestBuilder, Error>)
        ensures
            res is Ok <==> url_parses(spec_resolve_url(self.base_url_view(), url@)),
            res matches Err(e) ==> e is InvalidUrl,
            res matches Ok(r) ==> r@ == spec_new_request(Method::Delete, spec_resolve_url(self.base_url_view(), url@), self.jar_view(), self.client_handle()),
    {
        self.request(Method::Delete, url)
    }

    /// Create a HEAD request to `url` (joined to the base URL, if any).
    /// Fails with `InvalidUrl` when the resulting URL does not parse.
    pub fn head(&self, url: &str) -> (res: Result<RequestBuilder, Error>)
        ensures
            res is Ok <==> url_parses(spec_resolve_url(self.base_url_view(), url@)),
            res matches Err(e) ==> e is InvalidUrl,
            res matches Ok(r) ==> r@ == spec_new_request(Method::Head, spec_resolve_url(self.base_url_view(), url@), self.jar_view(), self.client_handle()),
    {
        self.request(Method::Head, url)
    }

    /// Create a PATCH request to `url` (joined to the base URL, if any).
    /// Fails with `InvalidUrl` when the resulting URL does not parse.
    pub fn patch(&self, url: &str) -> (res: Result<RequestBuilder, Error>)
        ensures
            res is Ok <==> url_parses(spec_resolve_url(self.base_url_view(), url@)),
            res matches Err(e) ==> e is InvalidUrl,
            res matches Ok(r) ==> r@ == spec_new_request(Method::Patch, spec_resolve_url(self.base_url_view(), url@), self.jar_view(), self.client_handle()),
    {
        self.request(Method::Patch, url)
    }

    /// Create a download of `url` (joined to the base URL) into the file
    /// `path`; fails with `InvalidUrl` when the URL does not parse.
    pub fn download(&self, url: &str, path: &str) -> (res: Result<DownloadBuilder, Error>)
        ensures
            res is Ok <==> url_parses(spec_resolve_url(self.base_url_view(), url@)),
            res matches Err(e) ==> e is InvalidUrl,
            res matches Ok(d) ==> d@.request.url == spec_resolve_url(self.base_url_view(), url@) && d@.file_path == Some(path@),
            res matches Ok(d) ==> d@.request.jar == self.jar_view() && d@.request.client == self.client_handle(),
    {
        let target = self.resolve_url(url);
        DownloadBuilder::new(self.backend.duplicate(), target.as_str(), path)
    }

    /// Create a background download of `url` (joined to the base URL) into
    /// the file `path`; the URL must parse.
    pub fn download_background(&self, url: &str, path: &str) -> (b: BackgroundDownloadBuilder)
        requires
            url_parses(spec_resolve_url(self.base_url_view(), url@)),
        ensures
            b@.request.url == spec_resolve_url(self.base_url_view(), url@) && b@.file_path == Some(path@),
            b@.request.jar == self.jar_view() && b@.request.client == self.client_handle(),
    {
        let target = self.resolve_url(url);
        BackgroundDownloadBuilder::new(self.backend.duplicate(), target.as_str(), path)
    }

    /// Create a background download as `download_background` does when
    /// the URL (joined to the base URL) parses; `None` when it does not.
    pub fn download_background_checked(&self, url: &str, path: &str) -> (b: Option<BackgroundDownloadBuilder>)
        ensures
            b is Some <==> url_parses(spec_resolve_url(self.base_url_view(), url@)),
            b matches Some(b) ==> b@.request.url == spec_resolve_url(self.base_url_view(), url@) && b@.file_path == Some(path@),
            b matches Some(b) ==> b@.request.jar == self.jar_view() && b@.request.client == self.client_handle(),
    {
        let target = self.resolve_url(url);
        match crate::wire::parse_url(target.as_str()) {
            Some(_) => Some(self.download_background(url, path)),
            None => None,
        }
    }

    /// Create an upload to `url` (joined to the base URL); fails with
    /// `InvalidUrl` when the URL does not parse.
    pub fn upload(&self, url: &str) -> (res: Result<UploadBuilder, Error>)
        ensures
            res is Ok <==> url_parses(spec_resolve_url(self.base_url_view(), url@)),
            res matches Err(e) ==> e is InvalidUrl,
            res matches Ok(u) ==> u@.request.url == spec_resolve_url(self.base_url_view(), url@),
            res matches Ok(u) ==> u@.request.jar == self.jar_view() && u@.request.client == self.client_handle(),
    {
        let target = self.resolve_url(url);
        UploadBuilder::new(self.backend.duplicate(), target.as_str())
    }

    /// The backend of this client.
    pub fn backend(&self) -> (b: &Backend)
        ensures
            b.jar_view() == self.jar_view(),
            b.client_handle() == self.client_handle(),
    {
        &self.backend
    }

    /// Create a WebSocket connection builder.
    pub fn websocket(&self) -> (b: ReqwestWebSocketBuilder)
        ensures
            b.max_message_size is None,
    {
        ReqwestWebSocketBuilder::new()
    }

    /// The cookie jar the client was built with, if any.
    pub fn cookie_jar(&self) -> (jar: Option<&CookieJar>)
        ensures
            jar_opt_view(match jar { Some(j) => Some(*j), None => None }) == self.jar_view(),
    {
        self.backend.cookie_jar()
    }
}

} // verus!
