//! Cookies and the cookie jar that clients expose.

use vstd::prelude::*;
use vstd::string::*;
use crate::text::{trim_leading, trim_start_char};
use crate::wire::{str_eq, url_parses};
use crate::backend::{Backend, CookieStorage};
use crate::backend::cookie_store::{JarView, cookie_sent_to, cookies_send_all, drawn_from, line_pair, names_expiry, raw_cookie_of, session_cookie_accepted, StoredCookie, cookies_view, has_prefix, spec_cookie_from_stored, spec_removal_line, stored_from_line, stored_one};
use crate::error::Error;

verus! {

/// Policy for cookie acceptance.
#[derive(Clone, Copy, PartialEq, Eq, Structural, Debug)]
pub enum CookieAcceptPolicy {
    /// Accept all cookies.
    Always,
    /// Never accept cookies.
    Never,
    /// Accept cookies only from the main document domain.
    OnlyFromMainDocumentDomain,
}

/// An HTTP cookie with its attributes.
pub struct Cookie {
    /// Cookie name
    pub name: String,
    /// Cookie value
    pub value: String,
    /// Domain
    pub domain: String,
    /// Path
    pub path: String,
    /// Whether the cookie is secure (HTTPS only)
    pub secure: bool,
    /// Whether the cookie is HTTP only
    pub http_only: bool,
    /// Expiration date as string (None for session cookies)
    pub expires: Option<String>,
}

/// The abstract value of a cookie.
pub struct CookieView {
    /// Cookie name
    pub name: Seq<char>,
    /// Cookie value
    pub value: Seq<char>,
    /// Domain
    pub domain: Seq<char>,
    /// Path
    pub path: Seq<char>,
    /// HTTPS only
    pub secure: bool,
    /// HTTP only
    pub http_only: bool,
    /// Expiration date
    pub expires: Option<Seq<char>>,
}

/// The view of an optional string.
pub open spec fn opt_view(o: Option<String>) -> Option<Seq<char>> {
    match o {
        Some(s) => Some(s@),
        None => None,
    }
}

impl View for Cookie {
    type V = CookieView;

    open spec fn view(&self) -> CookieView {
        CookieView {
            name: self.name@,
            value: self.value@,
            domain: self.domain@,
            path: self.path@,
            secure: self.secure,
            http_only: self.http_only,
            expires: opt_view(self.expires),
        }
    }
}

/// A fresh session cookie: empty domain, path `/`, neither secure nor
/// HTTP-only, no expiration.
pub open spec fn spec_new_cookie(name: Seq<char>, value: Seq<char>) -> CookieView {
    CookieView {
        name,
        value,
        domain: Seq::empty(),
        path: "/"@,
        secure: false,
        http_only: false,
        expires: None,
    }
}

/// The `Set-Cookie` line that stores a cookie: `name=value` followed by the
/// attributes that differ from the defaults.
pub open spec fn spec_set_cookie_line(c: CookieView) -> Seq<char> {
    c.name + seq!['='] + c.value
        + (if c.domain.len() > 0 { "; Domain="@ + c.domain } else { Seq::empty() })
        + (if c.path != "/"@ { "; Path="@ + c.path } else { Seq::empty() })
        + (if c.secure { "; Secure"@ } else { Seq::empty() })
        + (if c.http_only { "; HttpOnly"@ } else { Seq::empty() })
        + (match c.expires { Some(e) => "; Expires="@ + e, None => Seq::empty() })
}

/// The URL a cookie is stored for: `https` for secure cookies, `http`
/// otherwise; the domain (leading dots removed when `trim_dots`), or
/// `localhost` when there is none; then the path.
pub open spec fn spec_cookie_url(c: CookieView, trim_dots: bool) -> Seq<char> {
    (if c.secure { "https"@ } else { "http"@ }) + "://"@ + (if c.domain.len() == 0 {
        "localhost"@
    } else if trim_dots {
        trim_leading(c.domain, '.')
    } else {
        c.domain
    }) + c.path
}

impl Cookie {
    /// Create a new cookie with the given name and value.
    pub fn new(name: &str, value: &str) -> (cookie: Self)
        ensures
            cookie@ == spec_new_cookie(name@, value@),
    {
        Cookie {
            name: String::from_str(name),
            value: String::from_str(value),
            domain: String::new(),
            path: String::from_str("/"),
            secure: false,
            http_only: false,
            expires: None,
        }
    }

    /// Set the domain for this cookie.
    pub fn domain(self, domain: &str) -> (cookie: Self)
        ensures
            cookie@ == (CookieView { domain: domain@, ..self@ }),
    {
        let mut c = self;
        c.domain = String::from_str(domain);
        c
    }

    /// Set the path for this cookie.
    pub fn path(self, path: &str) -> (cookie: Self)
        ensures
            cookie@ == (CookieView { path: path@, ..self@ }),
    {
        let mut c = self;
        c.path = String::from_str(path);
        c
    }

    /// Set whether the cookie should only be sent over HTTPS.
    pub fn secure(self, secure: bool) -> (cookie: Self)
        ensures
            cookie@ == (CookieView { secure, ..self@ }),
    {
        let mut c = self;
        c.secure = secure;
        c
    }

    /// Set whether the cookie should be HTTP-only.
    pub fn http_only(self, http_only: bool) -> (cookie: Self)
        ensures
            cookie@ == (CookieView { http_only, ..self@ }),
    {
        let mut c = self;
        c.http_only = http_only;
        c
    }

    /// Set the expiration date for this cookie.
    pub fn expires(self, expires: &str) -> (cookie: Self)
        ensures
            cookie@ == (CookieView { expires: Some(expires@), ..self@ }),
    {
        let mut c = self;
        c.expires = Some(String::from_str(expires));
        c
    }

    /// The `Set-Cookie` line that stores this cookie.
    pub fn set_cookie_line(&self) -> (line: String)
        ensures
            line@ == spec_set_cookie_line(self@),
    {
        let ghost c = self@;
        let mut line = self.name.clone();
        line.push('=');
        line.append(self.value.as_str());
        let ghost p0 = line@;
        assert(p0 == c.name + seq!['='] + c.value);
        if !self.domain.as_str().is_empty() {
            line.append("; Domain=");
            line.append(self.domain.as_str());
        }
        let ghost p1 = line@;
        assert(p1 =~= p0 + (if c.domain.len() > 0 { "; Domain="@ + c.domain } else { Seq::empty() }));
        if !str_eq(self.path.as_str(), "/") {
            line.append("; Path=");
            line.append(self.path.as_str());
        }
        let ghost p2 = line@;
        assert(p2 =~= p1 + (if c.path != "/"@ { "; Path="@ + c.path } else { Seq::empty() }));
        if self.secure {
            line.append("; Secure");
        }
        let ghost p3 = line@;
        assert(p3 =~= p2 + (if c.secure { "; Secure"@ } else { Seq::empty() }));
        if self.http_only {
            line.append("; HttpOnly");
        }
        let ghost p4 = line@;
        assert(p4 =~= p3 + (if c.http_only { "; HttpOnly"@ } else { Seq::empty() }));
        match &self.expires {
            Some(e) => {
                line.append("; Expires=");
                line.append(e.as_str());
            },
            None => {},
        }
        assert(line@ =~= p4 + (match c.expires { Some(e) => "; Expires="@ + e, None => Seq::empty() }));
        line
    }

    /// The URL this cookie is stored for (see `spec_cookie_url`).
    pub fn storage_url(&self, trim_dots: bool) -> (url: String)
        ensures
            url@ == spec_cookie_url(self@, trim_dots),
    {
        let mut url = if self.secure { String::from_str("https") } else { String::from_str("http") };
        url.append("://");
        if self.domain.as_str().is_empty() {
            url.append("localhost");
        } else if trim_dots {
            let d = trim_start_char(self.domain.as_str(), '.');
            url.append(d.as_str());
        } else {
            url.append(self.domain.as_str());
        }
        url.append(self.path.as_str());
        url
    }

    /// A copy of this cookie.
    pub fn duplicate(&self) -> (c: Cookie)
        ensures
            c@ == self@,
    {
        Cookie {
            name: self.name.clone(),
            value: self.value.clone(),
            domain: self.domain.clone(),
            path: self.path.clone(),
            secure: self.secure,
            http_only: self.http_only,
            expires: match &self.expires {
                Some(e) => Some(e.clone()),
                None => None,
            },
        }
    }
}

/// A cookie jar that manages HTTP cookies over the storage of a backend.
pub struct CookieJar {
    storage: CookieStorage,
}

impl View for CookieJar {
    type V = JarView;

    closed spec fn view(&self) -> JarView {
        self.storage@
    }
}

impl CookieJar {
    /// The name/value pairs the jar sends to a URL without consulting the
    /// clock: those of its cookies that never expire and match the URL.
    pub closed spec fn sends(&self, url: Seq<char>) -> vstd::multiset::Multiset<(Seq<char>, Seq<char>)> {
        self.storage.sends(url)
    }

    /// Whether the cookie a `Set-Cookie` line names, received from `url`,
    /// is in the jar and sent to every URL it matches.
    pub open spec fn added(&self, line: Seq<char>, url: Seq<char>) -> bool {
        &&& raw_cookie_of(line) is Some
        &&& self@.cookies.count(raw_cookie_of(line)->0) > 0
        &&& forall|to: Seq<char>| #[trigger] cookie_sent_to(line, url, to) ==> self.sends(to).count(line_pair(line)) > 0
    }

    /// Create a new, empty cookie jar with the storage the backend uses;
    /// it accepts every cookie.
    pub fn new(backend: Backend) -> (jar: Self)
        ensures
            jar@.cookies =~= vstd::multiset::Multiset::empty(),
            jar@.policy == CookieAcceptPolicy::Always,
            forall|u: Seq<char>| #[trigger] jar.sends(u) =~= vstd::multiset::Multiset::empty(),
    {
        CookieJar { storage: CookieStorage::new(backend) }
    }

    /// A new, empty cookie jar over the `cookie_store` storage that the
    /// reqwest backend uses; it accepts every cookie.
    pub(crate) fn with_store() -> (jar: Self)
        ensures
            jar@.cookies =~= vstd::multiset::Multiset::empty(),
            jar@.policy == CookieAcceptPolicy::Always,
            forall|u: Seq<char>| #[trigger] jar.sends(u) =~= vstd::multiset::Multiset::empty(),
    {
        CookieJar { storage: CookieStorage::CookieStore(crate::backend::cookie_store::CookieJar::new()) }
    }

    /// A copy of this jar with the same cookies and policy.
    pub fn duplicate(&self) -> (jar: Self)
        ensures
            jar@ == self@,
            forall|u: Seq<char>| #[trigger] jar.sends(u) == self.sends(u),
    {
        CookieJar { storage: self.storage.duplicate() }
    }

    /// Get all cookies stored in this jar, in the store's order.
    pub fn all_cookies(&self) -> (cookies: Vec<Cookie>)
        ensures
            exists|s: Seq<StoredCookie>|
                s.to_multiset() == self@.cookies
                && cookies_view(cookies@) == s.map_values(|t: StoredCookie| spec_cookie_from_stored(t)),
    {
        self.storage.all_cookies()
    }

    /// Get the cookies a request to `url` would carry: cookies of stored
    /// cookies, among them every cookie the jar sends to the URL.
    pub fn cookies_for_url(&self, url: &str) -> (res: Result<Vec<Cookie>, Error>)
        ensures
            res is Err <==> !url_parses(url@),
            res matches Err(e) ==> e is InvalidUrl,
            res matches Ok(v) ==> drawn_from(cookies_view(v@), self@.cookies),
            res matches Ok(v) ==> cookies_send_all(cookies_view(v@), self.sends(url@)),
    {
        self.storage.cookies_for_url(url)
    }

    /// Add a cookie to the jar.
    pub fn add_cookie(&mut self, cookie: Cookie) -> (res: Result<(), Error>)
        ensures
            final(self)@.policy == old(self)@.policy,
            !url_parses(spec_cookie_url(cookie@, true)) ==> res matches Err(Error::InvalidUrl),
            url_parses(spec_cookie_url(cookie@, true)) ==> (res is Ok || (res matches Err(Error::Internal(m)) && has_prefix(m@, "Failed to parse cookie: "@))),
            res is Err ==> final(self)@.cookies == old(self)@.cookies,
            res is Ok ==> stored_one(old(self)@.cookies, final(self)@.cookies),
            res is Ok ==> stored_from_line(old(self)@.cookies, final(self)@.cookies, spec_set_cookie_line(cookie@)),
            url_parses(spec_cookie_url(cookie@, true)) && session_cookie_accepted(spec_set_cookie_line(cookie@), spec_cookie_url(cookie@, true))
                ==> res is Ok && final(self).added(spec_set_cookie_line(cookie@), spec_cookie_url(cookie@, true)),
            res is Ok && !names_expiry(spec_set_cookie_line(cookie@)) ==> final(self).added(spec_set_cookie_line(cookie@), spec_cookie_url(cookie@, true)),
    {
        self.storage.add_cookie(cookie)
    }

    /// Remove a cookie from the jar.
    pub fn remove_cookie(&mut self, cookie: Cookie) -> (res: Result<(), Error>)
        ensures
            final(self)@.policy == old(self)@.policy,
            !url_parses(spec_cookie_url(cookie@, true)) ==> res matches Err(Error::InvalidUrl),
            url_parses(spec_cookie_url(cookie@, true)) ==> (res is Ok || (res matches Err(Error::Internal(m)) && has_prefix(m@, "Failed to remove cookie: "@))),
            res is Err ==> final(self)@.cookies == old(self)@.cookies,
            res is Ok ==> stored_one(old(self)@.cookies, final(self)@.cookies),
            res is Ok ==> stored_from_line(old(self)@.cookies, final(self)@.cookies, spec_removal_line(cookie@)),
            forall|to: Seq<char>, t: (Seq<char>, Seq<char>)| #[trigger] final(self).sends(to).count(t) <= old(self).sends(to).count(t),
    {
        self.storage.remove_cookie(cookie)
    }

    /// Remove all cookies from the jar.
    pub fn clear(&mut self)
        ensures
            final(self)@.cookies =~= vstd::multiset::Multiset::empty(),
            final(self)@.policy == old(self)@.policy,
            forall|u: Seq<char>| #[trigger] final(self).sends(u) =~= vstd::multiset::Multiset::empty(),
    {
        self.storage.clear()
    }

    /// Set the cookie acceptance policy.
    pub fn set_cookie_accept_policy(&mut self, policy: CookieAcceptPolicy)
        ensures
            final(self)@.policy == policy,
            final(self)@.cookies == old(self)@.cookies,
            forall|u: Seq<char>| #[trigger] final(self).sends(u) == old(self).sends(u),
    {
        self.storage.set_cookie_accept_policy(policy)
    }
}

/// A cookie that `add_cookie` stored as one that never expires comes back,
/// by name and value, from `cookies_for_url` for every URL it matches.
pub proof fn law_added_cookie_returned(jar: CookieJar, line: Seq<char>, from: Seq<char>, to: Seq<char>, found: Seq<CookieView>)
    requires
        jar.added(line, from),
        cookie_sent_to(line, from, to),
        cookies_send_all(found, jar.sends(to)),
    ensures
        found.contains(spec_new_cookie(line_pair(line).0, line_pair(line).1)),
{
    assert(jar.sends(to).count(line_pair(line)) > 0);
}

} // verus!
