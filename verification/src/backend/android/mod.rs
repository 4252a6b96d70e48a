//! Logic of the Android (Cronet) backend that does not depend on the JVM:
//! its cookie storage, the method and priority constants handed to
//! Cronet, the reading of response status and header fields, the errors
//! Cronet reports, how request callbacks are routed, and the monitoring of
//! `DownloadManager` downloads.

pub mod callback;
pub mod cookies;
pub mod download;
pub mod jni_bindings;
pub mod request;
pub mod response;

use vstd::prelude::*;
use vstd::multiset::Multiset;
use crate::backend::{BackendConfig, BackendConfigView, spec_default_config};
use crate::backend::cookie_store::{from_lines, lemma_from_lines_compose, lemma_from_lines_same, pairs_drawn_from, sends_all, set_cookie_values, spec_cookie_headers};
use crate::backend::types::BackendRequest;
use crate::cookies::CookieJar;
use crate::error::Error;
use crate::wire::{HeaderPair, header_lookup, headers_view, lookup_header, parse_url, str_eq, url_parses, url_scheme, url_scheme_of};
use self::cookies::AndroidCookieStorage;

verus! {

/// The header fields of each redirect response.
pub open spec fn redirects_view(r: Seq<Vec<HeaderPair>>) -> Seq<Seq<(Seq<char>, Seq<char>)>> {
    r.map_values(|v: Vec<HeaderPair>| headers_view(v@))
}

/// The `set-cookie` lines of the redirect responses, in order.
pub open spec fn redirect_lines(r: Seq<Seq<(Seq<char>, Seq<char>)>>) -> Seq<Seq<char>>
    decreases r.len(),
{
    if r.len() == 0 {
        Seq::empty()
    } else {
        redirect_lines(r.drop_last()) + set_cookie_values(r.last())
    }
}

/// The `set-cookie` lines a response brings, in order: those of each
/// redirect, then those of the final fields.
pub open spec fn response_cookie_lines(r: Seq<Seq<(Seq<char>, Seq<char>)>>, h: Seq<(Seq<char>, Seq<char>)>) -> Seq<Seq<char>> {
    redirect_lines(r) + set_cookie_values(h)
}

/// The fields after adding each field of `extra` whose name is not yet
/// present, in order (`HeaderMap::entry(..).or_insert(..)`).
pub open spec fn spec_add_missing(h: Seq<(Seq<char>, Seq<char>)>, extra: Seq<(Seq<char>, Seq<char>)>) -> Seq<(Seq<char>, Seq<char>)>
    decreases extra.len(),
{
    if extra.len() == 0 {
        h
    } else {
        let r = spec_add_missing(h, extra.drop_last());
        if header_lookup(r, extra.last().0) is Some {
            r
        } else {
            r.push(extra.last())
        }
    }
}

/// Adds each field of `extra` whose name is not yet present (see
/// `spec_add_missing`).
pub fn add_missing_headers(headers: &mut Vec<HeaderPair>, extra: &Vec<HeaderPair>)
    ensures
        headers_view(final(headers)@) == spec_add_missing(headers_view(old(headers)@), headers_view(extra@)),
{
    let ghost h0 = headers_view(headers@);
    let ghost ev = headers_view(extra@);
    let mut i: usize = 0;
    assert(ev.take(0) =~= Seq::<(Seq<char>, Seq<char>)>::empty());
    while i < extra.len()
        invariant
            h0 == headers_view(old(headers)@),
            ev == headers_view(extra@),
            ev.len() == extra@.len(),
            i <= extra@.len(),
            headers_view(headers@) == spec_add_missing(h0, ev.take(i as int)),
        decreases extra.len() - i,
    {
        assert(ev.take(i + 1).drop_last() =~= ev.take(i as int));
        assert(ev.take(i + 1).last() == extra@[i as int]@);
        if lookup_header(headers, extra[i].name.as_str()).is_none() {
            let ghost before = headers@;
            headers.push(HeaderPair { name: extra[i].name.clone(), value: extra[i].value.clone() });
            assert(headers_view(headers@) =~= headers_view(before).push(extra@[i as int]@));
        }
        i += 1;
    }
    assert(ev.take(ev.len() as int) =~= ev);
}

/// The Cronet backend's settings. `V` is the Java VM handle and `C` the
/// Cronet engine; both are carried through unread.
pub struct AndroidBackend<V, C> {
    /// The Java VM
    pub jvm: V,
    /// The Cronet engine
    pub cronet_engine: C,
    /// The backend's own cookie storage, when cookies are enabled
    pub cookie_storage: Option<AndroidCookieStorage>,
    /// The configuration the backend was created with
    pub config: BackendConfig,
}

impl<V, C> AndroidBackend<V, C> {
    /// A backend with the default configuration and no cookie storage.
    pub fn new(jvm: V, cronet_engine: C) -> (res: Result<Self, Error>)
        ensures
            res matches Ok(b) && b.jvm == jvm && b.cronet_engine == cronet_engine && b.cookie_storage is None
                && b.config@ == spec_default_config(),
    {
        Ok(AndroidBackend { jvm, cronet_engine, cookie_storage: None, config: BackendConfig::new() })
    }

    /// A backend with the configuration: an empty cookie storage exactly
    /// when cookies are enabled.
    pub fn with_config(config: BackendConfig, jvm: V, cronet_engine: C) -> (res: Result<Self, Error>)
        ensures
            res matches Ok(b) && b.jvm == jvm && b.cronet_engine == cronet_engine && b.config@ == config@
                && (b.cookie_storage is Some <==> config@.use_cookies == Some(true))
                && (b.cookie_storage matches Some(s) ==> s@ =~= Multiset::empty()),
    {
        let enabled = match config.use_cookies {
            Some(b) => b,
            None => false,
        };
        let cookie_storage = if enabled {
            match AndroidCookieStorage::new() {
                Ok(s) => Some(s),
                Err(e) => return Err(e),
            }
        } else {
            None
        };
        Ok(AndroidBackend { jvm, cronet_engine, cookie_storage, config })
    }

    /// The cookie fields the storage gives for a request to the URL: made
    /// of stored cookies, among them every one it sends to the URL; none
    /// without a storage.
    pub open spec fn cookie_fields_ok(&self, url: Seq<char>, c: Seq<(Seq<char>, Seq<char>)>) -> bool {
        match self.cookie_storage {
            None => c.len() == 0,
            Some(s) => exists|pairs: Seq<(Seq<char>, Seq<char>)>|
                pairs_drawn_from(pairs, s@) && sends_all(pairs, s.sends(url)) && c == spec_cookie_headers(pairs),
        }
    }

    /// The request Cronet is given: only `http` and `https` URLs are
    /// accepted (`InvalidUrl` otherwise); the default header fields, then
    /// the stored cookies' `cookie` field, are added where the request has
    /// no field of that name.
    pub fn prepare_request(&self, request: BackendRequest) -> (res: Result<BackendRequest, Error>)
        ensures
            !url_parses(request@.url) || !(url_scheme_of(request@.url) == "http"@ || url_scheme_of(request@.url)
                == "https"@) ==> res matches Err(Error::InvalidUrl),
            url_parses(request@.url) && (url_scheme_of(request@.url) == "http"@ || url_scheme_of(request@.url)
                == "https"@) ==> (res matches Ok(r) && {
                &&& r@.method == request@.method
                &&& r@.url == request@.url
                &&& r@.body == request@.body
                &&& r@.track_progress == request@.track_progress
                &&& exists|c: Seq<(Seq<char>, Seq<char>)>| #[trigger] self.cookie_fields_ok(request@.url, c) && r@.headers
                    == spec_add_missing(
                    spec_add_missing(
                        request@.headers,
                        match self.config@.default_headers {
                            Some(d) => d,
                            None => Seq::empty(),
                        },
                    ),
                    c,
                )
            }),
    {
        let scheme = match url_scheme(request.url.as_str()) {
            Some(s) => s,
            None => return Err(Error::InvalidUrl),
        };
        if !(str_eq(scheme.as_str(), "http") || str_eq(scheme.as_str(), "https")) {
            return Err(Error::InvalidUrl);
        }
        let url = match parse_url(request.url.as_str()) {
            Some(u) => u,
            None => return Err(Error::InvalidUrl),
        };
        let mut request = request;
        let ghost h0 = headers_view(request.headers@);
        match &self.config.default_headers {
            Some(d) => add_missing_headers(&mut request.headers, d),
            None => {
                assert(spec_add_missing(h0, Seq::empty()) == h0);
            },
        }
        let ghost h1 = headers_view(request.headers@);
        match &self.cookie_storage {
            Some(storage) => {
                match storage.get_cookies_for_url(request.url.as_str()) {
                    Ok(c) => {
                        add_missing_headers(&mut request.headers, &c);
                        assert(self.cookie_fields_ok(request.url@, headers_view(c@)));
                    },
                    Err(_) => {
                        assert(false);
                    },
                }
            },
            None => {
                assert(spec_add_missing(h1, Seq::empty()) == h1);
                assert(self.cookie_fields_ok(request.url@, Seq::empty()));
            },
        }
        Ok(request)
    }

    /// Stores the cookies a response set: those of each redirect's fields,
    /// in order, then those of the final fields. Without a storage, or
    /// without `set-cookie` fields, nothing changes; otherwise the stored
    /// cookies change only through those lines (see `response_cookie_lines`).
    pub fn store_response_cookies(&mut self, url: &str, redirect_headers: &Vec<Vec<HeaderPair>>, headers: &Vec<HeaderPair>)
        ensures
            old(self).cookie_storage is None ==> final(self).cookie_storage is None,
            (forall|i: int| 0 <= i < redirect_headers@.len() ==> set_cookie_values(headers_view(#[trigger] redirect_headers@[i]@)).len() == 0)
                && set_cookie_values(headers_view(headers@)).len() == 0 ==> match (old(self).cookie_storage, final(self).cookie_storage) {
                (Some(a), Some(b)) => b@ == a@,
                (None, None) => true,
                _ => false,
            },
            old(self).cookie_storage is Some ==> final(self).cookie_storage is Some,
            match (old(self).cookie_storage, final(self).cookie_storage) {
                (Some(a), Some(b)) => from_lines(
                    a@,
                    b@,
                    response_cookie_lines(redirects_view(redirect_headers@), headers_view(headers@)),
                ),
                _ => true,
            },
            match final(self).cookie_storage {
                Some(b) => b.kept(set_cookie_values(headers_view(headers@)), url@),
                None => true,
            },
    {
        match &mut self.cookie_storage {
            Some(storage) => {
                let ghost start = storage@;
                let ghost rv = redirects_view(redirect_headers@);
                let mut i: usize = 0;
                proof {
                    lemma_from_lines_same(start, Seq::empty());
                    assert(rv.take(0) =~= Seq::<Seq<(Seq<char>, Seq<char>)>>::empty());
                }
                while i < redirect_headers.len()
                    invariant
                        rv == redirects_view(redirect_headers@),
                        rv.len() == redirect_headers@.len(),
                        i <= redirect_headers@.len(),
                        (forall|j: int| 0 <= j < redirect_headers@.len() ==> set_cookie_values(headers_view(#[trigger] redirect_headers@[j]@)).len() == 0)
                            ==> storage@ == start,
                        from_lines(start, storage@, redirect_lines(rv.take(i as int))),
                    decreases redirect_headers.len() - i,
                {
                    let ghost before = storage@;
                    let _ = storage.process_response_headers(url, &redirect_headers[i]);
                    proof {
                        lemma_from_lines_compose(
                            start,
                            before,
                            storage@,
                            redirect_lines(rv.take(i as int)),
                            set_cookie_values(headers_view(redirect_headers@[i as int]@)),
                        );
                        assert(rv.take(i + 1).drop_last() =~= rv.take(i as int));
                        assert(rv.take(i + 1).last() == headers_view(redirect_headers@[i as int]@));
                    }
                    i += 1;
                }
                let ghost before = storage@;
                let _ = storage.process_response_headers(url, headers);
                proof {
                    assert(rv.take(rv.len() as int) =~= rv);
                    lemma_from_lines_compose(
                        start,
                        before,
                        storage@,
                        redirect_lines(rv),
                        set_cookie_values(headers_view(headers@)),
                    );
                }
            },
            None => {},
        }
    }

    /// The custom cookie jar: this backend has none.
    pub fn cookie_jar(&self) -> (jar: Option<&CookieJar>)
        ensures
            jar is None,
    {
        None
    }
}

} // verus!
