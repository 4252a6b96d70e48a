//! Cookie storage over reqwest's own cookie jar (`reqwest::cookie::Jar`).

use vstd::prelude::*;
use vstd::string::*;
use std::sync::Arc;
use crate::backend::cookie_store::cookies_view;
use crate::cookies::{Cookie, CookieAcceptPolicy, CookieView, spec_cookie_url, spec_new_cookie};
use crate::error::Error;
use crate::text::{chars_of, find_char, find_in, split_on, trim_range, trim_ws};
use crate::wire::{parse_url, url_parses};

verus! {

#[verifier::external_type_specification]
#[verifier::external_body]
pub struct ExReqwestJar(reqwest::cookie::Jar);

/// An empty jar (`Jar::default`).
#[verifier::external_body]
fn new_jar() -> Arc<reqwest::cookie::Jar> {
    Arc::new(reqwest::cookie::Jar::default())
}

/// `Jar::add_cookie_str`: parses the `Set-Cookie` line and stores it for
/// `url`; a line that does not parse is dropped. The jar changes through a
/// shared reference, so nothing is stated of its contents.
#[verifier::external_body]
fn jar_add_cookie_str(jar: &Arc<reqwest::cookie::Jar>, line: &str, url: &url::Url) {
    jar.add_cookie_str(line, url)
}

/// The `Cookie` header the jar gives for a request to `url`
/// (`CookieStore::cookies`), as text; `None` when there are no cookies or
/// the value is not visible ASCII. Which cookies match depends on the
/// jar's contents and on the clock, and is not stated.
#[verifier::external_body]
fn jar_cookie_header(jar: &Arc<reqwest::cookie::Jar>, url: &url::Url) -> Option<String> {
    reqwest::cookie::CookieStore::cookies(&**jar, url).and_then(|v| v.to_str().ok().map(|s| s.to_string()))
}

/// Another handle on the same jar (`Arc::clone`): it points to the same
/// jar.
#[verifier::external_body]
fn share_jar(jar: &Arc<reqwest::cookie::Jar>) -> (shared: Arc<reqwest::cookie::Jar>)
    ensures
        shared == *jar,
{
    Arc::clone(jar)
}

/// The cookie one `;`-separated piece of a `Cookie` header names: the
/// trimmed piece split at its first `=`, both halves trimmed; none when
/// the piece has no `=`.
pub open spec fn spec_cookie_of_part(p: Seq<char>) -> Option<CookieView> {
    let t = trim_ws(p);
    match find_char(t, '=') {
        Some(k) => Some(spec_new_cookie(trim_ws(t.take(k)), trim_ws(t.skip(k + 1)))),
        None => None,
    }
}

/// The cookies the pieces name, in order.
pub open spec fn spec_cookies_of_parts(parts: Seq<Seq<char>>) -> Seq<CookieView>
    decreases parts.len(),
{
    if parts.len() == 0 {
        Seq::empty()
    } else {
        let rest = spec_cookies_of_parts(parts.drop_last());
        match spec_cookie_of_part(parts.last()) {
            Some(c) => rest.push(c),
            None => rest,
        }
    }
}

/// The cookies a `Cookie` header lists.
pub open spec fn spec_parse_cookie_header(h: Seq<char>) -> Seq<CookieView> {
    spec_cookies_of_parts(split_on(h, ';'))
}

/// The cookie the piece `v[start..end]` names, if any.
fn cookie_of_part(v: &Vec<char>, start: usize, end: usize) -> (c: Option<Cookie>)
    requires
        start <= end <= v@.len(),
    ensures
        match c {
            Some(c) => spec_cookie_of_part(v@.subrange(start as int, end as int)) == Some(c@),
            None => spec_cookie_of_part(v@.subrange(start as int, end as int)) is None,
        },
{
    let t = trim_range(v, start, end);
    let tv = chars_of(t.as_str());
    assert(tv@.subrange(0, tv@.len() as int) =~= tv@);
    match find_in(&tv, 0, tv.len(), '=') {
        Some(k) => {
            let name = trim_range(&tv, 0, k);
            let value = trim_range(&tv, k + 1, tv.len());
            assert(tv@.subrange(0, k as int) =~= tv@.take(k as int));
            assert(tv@.subrange(k + 1, tv@.len() as int) =~= tv@.skip(k + 1));
            Some(Cookie::new(name.as_str(), value.as_str()))
        },
        None => None,
    }
}

/// Parses a `Cookie` header into name/value cookies: the header is split
/// at `;`, each piece is trimmed and split at its first `=`, and pieces
/// without `=` are skipped.
pub fn parse_cookie_header(header: &str) -> (cookies: Vec<Cookie>)
    ensures
        cookies_view(cookies@) == spec_parse_cookie_header(header@),
{
    let v = chars_of(header);
    let ghost h = v@;
    let mut cookies: Vec<Cookie> = Vec::new();
    let ghost mut done: Seq<Seq<char>> = Seq::empty();
    let mut piece_start: usize = 0;
    let mut i: usize = 0;
    assert(h.take(0) =~= Seq::<char>::empty());
    assert(split_on(h.take(0), ';') =~= done.push(h.subrange(0, 0)));
    while i < v.len()
        invariant
            h == v@,
            h == header@,
            piece_start <= i <= v@.len(),
            split_on(h.take(i as int), ';') == done.push(h.subrange(piece_start as int, i as int)),
            cookies_view(cookies@) == spec_cookies_of_parts(done),
        decreases v.len() - i,
    {
        let ghost prev = split_on(h.take(i as int), ';');
        assert(h.take(i + 1).drop_last() =~= h.take(i as int));
        assert(h.take(i + 1).last() == h[i as int]);
        if v[i] == ';' {
            let c = cookie_of_part(&v, piece_start, i);
            let ghost piece = h.subrange(piece_start as int, i as int);
            let ghost before = cookies@;
            match c {
                Some(c) => {
                    cookies.push(c);
                    assert(cookies_view(cookies@) =~= cookies_view(before).push(c@));
                },
                None => {},
            }
            proof {
                assert(done.push(piece).drop_last() =~= done);
                assert(split_on(h.take(i + 1), ';') == prev.push(Seq::empty()));
                done = done.push(piece);
                assert(h.subrange(i + 1, i + 1) =~= Seq::<char>::empty());
                assert(split_on(h.take(i + 1), ';') =~= done.push(h.subrange(i + 1, i + 1)));
            }
            piece_start = i + 1;
        } else {
            assert(split_on(h.take(i + 1), ';') == prev.update(prev.len() - 1, prev.last().push(h[i as int])));
            assert(h.subrange(piece_start as int, i + 1) =~= h.subrange(piece_start as int, i as int).push(h[i as int]));
            assert(split_on(h.take(i + 1), ';') =~= done.push(h.subrange(piece_start as int, i + 1)));
        }
        i += 1;
    }
    let c = cookie_of_part(&v, piece_start, v.len());
    let ghost piece = h.subrange(piece_start as int, h.len() as int);
    let ghost before = cookies@;
    match c {
        Some(c) => {
            cookies.push(c);
            assert(cookies_view(cookies@) =~= cookies_view(before).push(c@));
        },
        None => {},
    }
    proof {
        assert(h.take(h.len() as int) =~= h);
        assert(done.push(piece).drop_last() =~= done);
    }
    cookies
}

/// Cookie storage using reqwest's cookie jar; clones share the jar.
pub struct ReqwestCookieStorage {
    jar: Arc<reqwest::cookie::Jar>,
}

impl ReqwestCookieStorage {
    /// The jar this storage uses.
    pub closed spec fn jar_handle(&self) -> Arc<reqwest::cookie::Jar> {
        self.jar
    }

    /// Create a new cookie storage.
    pub fn new() -> Self {
        ReqwestCookieStorage { jar: new_jar() }
    }

    /// All cookies: reqwest's jar cannot list its cookies, so none.
    pub fn all_cookies(&self) -> (cookies: Vec<Cookie>)
        ensures
            cookies@.len() == 0,
    {
        Vec::new()
    }

    /// The cookies the jar sends to `url`, read back from its `Cookie`
    /// header (see `parse_cookie_header`).
    pub fn cookies_for_url(&self, url: &str) -> (res: Result<Vec<Cookie>, Error>)
        ensures
            res is Err <==> !url_parses(url@),
            res matches Err(e) ==> e is InvalidUrl,
            res matches Ok(v) ==> exists|h: Seq<char>| cookies_view(v@) == spec_parse_cookie_header(h),
    {
        let parsed = match parse_url(url) {
            Some(u) => u,
            None => return Err(Error::InvalidUrl),
        };
        match jar_cookie_header(&self.jar, &parsed) {
            Some(h) => {
                let cookies = parse_cookie_header(h.as_str());
                assert(cookies_view(cookies@) == spec_parse_cookie_header(h@));
                Ok(cookies)
            },
            None => {
                let cookies = parse_cookie_header("");
                assert(cookies_view(cookies@) == spec_parse_cookie_header(""@));
                Ok(cookies)
            },
        }
    }

    /// Add a cookie: its `Set-Cookie` line is stored as received from the
    /// cookie's own URL (`http` or `https`, the domain or `localhost`,
    /// then the path).
    pub fn add_cookie(&self, cookie: Cookie) -> (res: Result<(), Error>)
        ensures
            res is Ok <==> url_parses(spec_cookie_url(cookie@, false)),
            res matches Err(e) ==> e is InvalidUrl,
    {
        let url_str = cookie.storage_url(false);
        let url = match parse_url(url_str.as_str()) {
            Some(u) => u,
            None => return Err(Error::InvalidUrl),
        };
        let line = cookie.set_cookie_line();
        jar_add_cookie_str(&self.jar, line.as_str(), &url);
        Ok(())
    }

    /// Remove a cookie: reqwest's jar cannot remove cookies, so nothing
    /// happens.
    pub fn remove_cookie(&self, cookie: Cookie) -> (res: Result<(), Error>)
        ensures
            res is Ok,
    {
        Ok(())
    }

    /// Clear all cookies: reqwest's jar cannot be cleared, so nothing
    /// happens.
    pub fn clear(&self) {
    }

    /// Set the acceptance policy: reqwest's jar has none, so nothing
    /// happens.
    pub fn set_cookie_accept_policy(&self, policy: CookieAcceptPolicy) {
    }

    /// The underlying reqwest cookie jar.
    pub fn jar(&self) -> (j: &Arc<reqwest::cookie::Jar>)
        ensures
            *j == self.jar_handle(),
    {
        &self.jar
    }

    /// Another handle on the same jar.
    pub fn duplicate(&self) -> (d: Self)
        ensures
            d.jar_handle() == self.jar_handle(),
    {
        ReqwestCookieStorage { jar: share_jar(&self.jar) }
    }
}

} // verus!
