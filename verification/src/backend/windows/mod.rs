//! Logic of the Windows (WinHTTP) backend that does not depend on the
//! Windows API: its cookie storage, the error codes it maps, the request
//! it composes, the way its status callback reacts to each notification,
//! BITS job states, its WebSocket buffers and close state, and the
//! settings a backend is created with.

pub mod bits;
pub mod cookies;
pub mod error;
pub mod http_client;
pub mod websocket;

use vstd::prelude::*;
use vstd::string::*;
use vstd::multiset::Multiset;
use crate::backend::{BackendConfig, jar_opt_view};
use crate::cookies::CookieJar;
use crate::error::Error;
use crate::wire::{HeaderPair, headers_view};
use self::cookies::WindowsCookieStorage;

verus! {

/// The default headers of a backend, as field lists.
pub open spec fn headers_opt_view(h: Option<Vec<HeaderPair>>) -> Option<Seq<(Seq<char>, Seq<char>)>> {
    match h {
        Some(v) => Some(headers_view(v@)),
        None => None,
    }
}

/// The WinHTTP backend's settings. `M` is the BITS download manager, when
/// one could be created: background downloads then try BITS first.
pub struct WindowsBackend<M> {
    /// User agent sent with each request
    pub user_agent: String,
    /// Custom cookie jar, if any
    pub cookie_jar: Option<CookieJar>,
    /// The backend's own cookie storage, when cookies are enabled
    pub cookie_storage: Option<WindowsCookieStorage>,
    /// Default header fields of every request
    pub default_headers: Option<Vec<HeaderPair>>,
    /// Request timeout
    pub timeout: Option<std::time::Duration>,
    /// BITS download manager, if available
    pub bits_manager: Option<M>,
}

impl<M> WindowsBackend<M> {
    /// A backend with the default settings: user agent `frakt/1.0`, no
    /// cookies, default headers or timeout.
    pub fn new(bits_manager: Option<M>) -> (res: Result<Self, Error>)
        ensures
            res matches Ok(b) && b.user_agent@ == "frakt/1.0"@ && b.cookie_jar is None && b.cookie_storage is None
                && b.default_headers is None && b.timeout is None && b.bits_manager == bits_manager,
    {
        Ok(WindowsBackend {
            user_agent: String::from_str("frakt/1.0"),
            cookie_jar: None,
            cookie_storage: None,
            default_headers: None,
            timeout: None,
            bits_manager,
        })
    }

    /// A backend with the configured settings: the configured user agent,
    /// else `frakt/1.0`; an empty cookie storage exactly when cookies are
    /// enabled; the configured jar, default headers and timeout.
    pub fn with_config(config: BackendConfig, bits_manager: Option<M>) -> (res: Result<Self, Error>)
        ensures
            res matches Ok(b) && {
                &&& b.user_agent@ == (match config@.user_agent {
                    Some(u) => u,
                    None => "frakt/1.0"@,
                })
                &&& jar_opt_view(b.cookie_jar) == config@.cookie_jar
                &&& (b.cookie_storage is Some <==> config@.use_cookies == Some(true))
                &&& (b.cookie_storage matches Some(s) ==> s@ =~= Multiset::empty())
                &&& headers_opt_view(b.default_headers) == config@.default_headers
                &&& b.timeout == config@.timeout
                &&& b.bits_manager == bits_manager
            },
    {
        let BackendConfig { timeout, user_agent, default_headers, use_cookies, cookie_jar, .. } = config;
        let user_agent = match user_agent {
            Some(u) => u,
            None => String::from_str("frakt/1.0"),
        };
        let enabled = match use_cookies {
            Some(b) => b,
            None => false,
        };
        let cookie_storage = if enabled {
            match WindowsCookieStorage::new() {
                Ok(s) => Some(s),
                Err(_) => None,
            }
        } else {
            None
        };
        Ok(WindowsBackend { user_agent, cookie_jar, cookie_storage, default_headers, timeout, bits_manager })
    }

    /// Whether a background download tries BITS first: when a manager is
    /// available.
    pub fn uses_bits(&self) -> (b: bool)
        ensures
            b == self.bits_manager is Some,
    {
        self.bits_manager.is_some()
    }
}

} // verus!
