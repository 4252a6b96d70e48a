//! Backend abstraction for HTTP client implementations.

pub mod android;
pub mod cookie_store;
pub mod foundation;
pub mod reqwest;
pub mod types;
pub mod windows;

use vstd::prelude::*;
use crate::client::{ProxyConfig, ProxyView, proxy_view};
use crate::cookies::{Cookie, CookieAcceptPolicy, CookieJar, spec_cookie_url, spec_set_cookie_line};
use crate::error::Error;
use crate::wire::{HeaderPair, headers_view, url_parses};
use self::reqwest::{first_failure, spec_client_settings};
use self::cookie_store::{JarView, cookies_send_all, drawn_from, StoredCookie, cookies_view, has_prefix, names_expiry, session_cookie_accepted, spec_cookie_from_stored, spec_removal_line, stored_from_line, stored_one};

verus! {

/// Configuration for backend creation.
pub struct BackendConfig {
    /// Request timeout
    pub timeout: Option<std::time::Duration>,
    /// User agent string
    pub user_agent: Option<String>,
    /// Whether to ignore certificate errors
    pub ignore_certificate_errors: Option<bool>,
    /// Default headers to add to all requests (lower-case names, each once)
    pub default_headers: Option<Vec<HeaderPair>>,
    /// Enable or disable cookies
    pub use_cookies: Option<bool>,
    /// Custom cookie jar
    pub cookie_jar: Option<CookieJar>,
    /// HTTP proxy configuration
    pub http_proxy: Option<ProxyConfig>,
    /// HTTPS proxy configuration
    pub https_proxy: Option<ProxyConfig>,
    /// SOCKS proxy configuration
    pub socks_proxy: Option<ProxyConfig>,
}

/// The abstract value of a backend configuration.
pub struct BackendConfigView {
    /// Request timeout
    pub timeout: Option<std::time::Duration>,
    /// User agent string
    pub user_agent: Option<Seq<char>>,
    /// Whether to ignore certificate errors
    pub ignore_certificate_errors: Option<bool>,
    /// Default headers
    pub default_headers: Option<Seq<(Seq<char>, Seq<char>)>>,
    /// Enable or disable cookies
    pub use_cookies: Option<bool>,
    /// Custom cookie jar
    pub cookie_jar: Option<JarView>,
    /// HTTP proxy configuration
    pub http_proxy: Option<ProxyView>,
    /// HTTPS proxy configuration
    pub https_proxy: Option<ProxyView>,
    /// SOCKS proxy configuration
    pub socks_proxy: Option<ProxyView>,
}

/// The view of an optional jar.
pub open spec fn jar_opt_view(j: Option<CookieJar>) -> Option<JarView> {
    match j {
        Some(j) => Some(j@),
        None => None,
    }
}

/// The view of an optional proxy configuration.
pub open spec fn proxy_opt_view(p: Option<ProxyConfig>) -> Option<ProxyView> {
    match p {
        Some(p) => Some(proxy_view(p)),
        None => None,
    }
}

impl View for BackendConfig {
    type V = BackendConfigView;

    open spec fn view(&self) -> BackendConfigView {
        BackendConfigView {
            timeout: self.timeout,
            user_agent: crate::cookies::opt_view(self.user_agent),
            ignore_certificate_errors: self.ignore_certificate_errors,
            default_headers: match self.default_headers {
                Some(h) => Some(headers_view(h@)),
                None => None,
            },
            use_cookies: self.use_cookies,
            cookie_jar: jar_opt_view(self.cookie_jar),
            http_proxy: proxy_opt_view(self.http_proxy),
            https_proxy: proxy_opt_view(self.https_proxy),
            socks_proxy: proxy_opt_view(self.socks_proxy),
        }
    }
}

/// The configuration with nothing set.
pub open spec fn spec_default_config() -> BackendConfigView {
    BackendConfigView {
        timeout: None,
        user_agent: None,
        ignore_certificate_errors: None,
        default_headers: None,
        use_cookies: None,
        cookie_jar: None,
        http_proxy: None,
        https_proxy: None,
        socks_proxy: None,
    }
}

impl BackendConfig {
    /// The configuration with nothing set.
    pub fn new() -> (config: Self)
        ensures
            config@ == spec_default_config(),
    {
        BackendConfig {
            timeout: None,
            user_agent: None,
            ignore_certificate_errors: None,
            default_headers: None,
            use_cookies: None,
            cookie_jar: None,
            http_proxy: None,
            https_proxy: None,
            socks_proxy: None,
        }
    }
}

/// HTTP client backend implementations.
#[non_exhaustive]
pub enum Backend {
    /// Cross-platform implementation using reqwest
    Reqwest(self::reqwest::ReqwestBackend),
}

impl Backend {
    /// The client the backend sends requests with.
    pub open spec fn client_handle(&self) -> self::reqwest::ReqwestClient {
        match self {
            Backend::Reqwest(r) => r.client_handle(),
        }
    }

    /// The custom cookie jar the backend was configured with, if any.
    pub open spec fn jar_view(&self) -> Option<JarView> {
        match self {
            Backend::Reqwest(r) => r.jar_view(),
        }
    }

    /// Auto-select the best backend for the platform (reqwest here).
    pub fn default_for_platform() -> (res: Result<Self, Error>)
        ensures
            res matches Ok(b) ==> b.jar_view() is None,
            res matches Err(e) ==> (e matches Error::Internal(m) && has_prefix(m@, "Failed to create reqwest client: "@)),
    {
        Ok(Backend::Reqwest(self::reqwest::ReqwestBackend::new()?))
    }

    /// Explicitly use the reqwest backend (works on all platforms).
    pub fn reqwest() -> (res: Result<Self, Error>)
        ensures
            res matches Ok(b) ==> b.jar_view() is None,
            res matches Err(e) ==> (e matches Error::Internal(m) && has_prefix(m@, "Failed to create reqwest client: "@)),
    {
        Ok(Backend::Reqwest(self::reqwest::ReqwestBackend::new()?))
    }

    /// Use the reqwest backend with a configuration.
    pub fn reqwest_with_config(config: BackendConfig) -> (res: Result<Self, Error>)
        requires
            self::reqwest::headers_fit(config@),
            self::reqwest::credentials_settable(spec_client_settings(config@)),
        ensures
            res matches Ok(b) ==> self::reqwest::client_state(b.client_handle()) == self::reqwest::spec_configured_state(config@),
            first_failure(spec_client_settings(config@)) matches Some(p) ==> (res matches Err(Error::Internal(m)) && has_prefix(m@, p)),
            first_failure(spec_client_settings(config@)) is None ==> (res is Ok || (res matches Err(Error::Internal(m))
                && has_prefix(m@, "Failed to create reqwest client: "@))),
            res matches Ok(b) ==> b.jar_view() == config@.cookie_jar,
    {
        match self::reqwest::ReqwestBackend::with_config(config) {
            Ok(r) => Ok(Backend::Reqwest(r)),
            Err(e) => Err(e),
        }
    }

    /// Get the cookie jar if configured.
    pub fn cookie_jar(&self) -> (jar: Option<&CookieJar>)
        ensures
            jar_opt_view(match jar { Some(j) => Some(*j), None => None }) == self.jar_view(),
    {
        match self {
            Backend::Reqwest(r) => r.cookie_jar(),
        }
    }

    /// A handle to the same backend (the underlying client is shared).
    pub fn duplicate(&self) -> (b: Self)
        ensures
            b.jar_view() == self.jar_view(),
            b.client_handle() == self.client_handle(),
    {
        match self {
            Backend::Reqwest(r) => Backend::Reqwest(r.duplicate()),
        }
    }
}

/// Cookie storage backend implementations.
pub enum CookieStorage {
    /// RFC 6265 compliant implementation using cookie_store
    CookieStore(self::cookie_store::CookieJar),
}

impl View for CookieStorage {
    type V = JarView;

    open spec fn view(&self) -> JarView {
        match self {
            CookieStorage::CookieStore(j) => j@,
        }
    }
}

impl CookieStorage {
    /// The name/value pairs the storage sends to a URL without consulting
    /// the clock.
    pub open spec fn sends(&self, url: Seq<char>) -> vstd::multiset::Multiset<(Seq<char>, Seq<char>)> {
        match self {
            CookieStorage::CookieStore(j) => j.sends(url),
        }
    }

    /// Whether the cookie a line names, received from `url`, is stored and
    /// sent to every URL it matches.
    pub open spec fn added(&self, line: Seq<char>, url: Seq<char>) -> bool {
        match self {
            CookieStorage::CookieStore(j) => j.added(line, url),
        }
    }

    /// Create a new, empty cookie storage for a backend.
    pub fn new(backend: Backend) -> (storage: Self)
        ensures
            storage@.cookies =~= vstd::multiset::Multiset::empty(),
            storage@.policy == CookieAcceptPolicy::Always,
            forall|u: Seq<char>| #[trigger] storage.sends(u) =~= vstd::multiset::Multiset::empty(),
    {
        match backend {
            Backend::Reqwest(_) => CookieStorage::CookieStore(self::cookie_store::CookieJar::new()),
        }
    }

    /// A copy of this storage.
    pub fn duplicate(&self) -> (storage: Self)
        ensures
            storage@ == self@,
            forall|u: Seq<char>| #[trigger] storage.sends(u) == self.sends(u),
    {
        match self {
            CookieStorage::CookieStore(j) => CookieStorage::CookieStore(j.duplicate()),
        }
    }

    /// Get all cookies.
    pub fn all_cookies(&self) -> (cookies: Vec<Cookie>)
        ensures
            exists|s: Seq<StoredCookie>|
                s.to_multiset() == self@.cookies
                && cookies_view(cookies@) == s.map_values(|t: StoredCookie| spec_cookie_from_stored(t)),
    {
        match self {
            CookieStorage::CookieStore(storage) => storage.all_cookies(),
        }
    }

    /// Get cookies for a specific URL.
    pub fn cookies_for_url(&self, url: &str) -> (res: Result<Vec<Cookie>, Error>)
        ensures
            res is Err <==> !url_parses(url@),
            res matches Err(e) ==> e is InvalidUrl,
            res matches Ok(v) ==> drawn_from(cookies_view(v@), self@.cookies),
            res matches Ok(v) ==> cookies_send_all(cookies_view(v@), self.sends(url@)),
    {
        match self {
            CookieStorage::CookieStore(storage) => storage.cookies_for_url(url),
        }
    }

    /// Add a cookie.
    pub fn add_cookie(&mut self, cookie: Cookie) -> (res: Result<(), Error>)
        ensures
            final(self)@.policy == old(self)@.policy,
            !url_parses(spec_cookie_url(cookie@, true)) ==> res matches Err(Error::InvalidUrl),
            url_parses(spec_cookie_url(cookie@, true)) ==> (res is Ok || (res matches Err(Error::Internal(m)) && has_prefix(m@, "Failed to parse cookie: "@))),
            res is Err ==> final(self)@.cookies == old(self)@.cookies,
            res is Ok ==> stored_one(old(self)@.cookies, final(self)@.cookies),
            res is Ok ==> stored_from_line(old(self)@.cookies, final(self)@.cookies, spec_set_cookie_line(cookie@)),
            url_parses(spec_cookie_url(cookie@, true)) && session_cookie_accepted(spec_set_cookie_line(cookie@), spec_cookie_url(cookie@, true))
                ==> res is Ok && final(self).added(spec_set_cookie_line(cookie@), spec_cookie_url(cookie@, true)),
            res is Ok && !names_expiry(spec_set_cookie_line(cookie@)) ==> final(self).added(spec_set_cookie_line(cookie@), spec_cookie_url(cookie@, true)),
    {
        match self {
            CookieStorage::CookieStore(storage) => storage.add_cookie(cookie),
        }
    }

    /// Remove a cookie.
    pub fn remove_cookie(&mut self, cookie: Cookie) -> (res: Result<(), Error>)
        ensures
            final(self)@.policy == old(self)@.policy,
            !url_parses(spec_cookie_url(cookie@, true)) ==> res matches Err(Error::InvalidUrl),
            url_parses(spec_cookie_url(cookie@, true)) ==> (res is Ok || (res matches Err(Error::Internal(m)) && has_prefix(m@, "Failed to remove cookie: "@))),
            res is Err ==> final(self)@.cookies == old(self)@.cookies,
            res is Ok ==> stored_one(old(self)@.cookies, final(self)@.cookies),
            res is Ok ==> stored_from_line(old(self)@.cookies, final(self)@.cookies, spec_removal_line(cookie@)),
            forall|to: Seq<char>, t: (Seq<char>, Seq<char>)| #[trigger] final(self).sends(to).count(t) <= old(self).sends(to).count(t),
    {
        match self {
            CookieStorage::CookieStore(storage) => storage.remove_cookie(cookie),
        }
    }

    /// Clear all cookies.
    pub fn clear(&mut self)
        ensures
            final(self)@.cookies =~= vstd::multiset::Multiset::empty(),
            final(self)@.policy == old(self)@.policy,
            forall|u: Seq<char>| #[trigger] final(self).sends(u) =~= vstd::multiset::Multiset::empty(),
    {
        match self {
            CookieStorage::CookieStore(storage) => storage.clear(),
        }
    }

    /// Set cookie acceptance policy.
    pub fn set_cookie_accept_policy(&mut self, policy: CookieAcceptPolicy)
        ensures
            final(self)@.policy == policy,
            final(self)@.cookies == old(self)@.cookies,
            forall|u: Seq<char>| #[trigger] final(self).sends(u) == old(self).sends(u),
    {
        match self {
            CookieStorage::CookieStore(storage) => storage.set_cookie_accept_policy(policy),
        }
    }
}

} // verus!
