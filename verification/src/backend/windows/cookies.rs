//! Windows cookie storage over an RFC 6265 cookie store.

use vstd::prelude::*;
use vstd::string::*;
use vstd::multiset::Multiset;
use crate::backend::cookie_store::{StoreEntry, StoredCookie, accepted_effect, cookie_sent_to, names_expiry, from_lines, last_of_name, lemma_from_line, lemma_from_lines_compose, lemma_from_lines_same, line_pair, raw_cookie_of, sends_all, session_cookie_accepted, stored_from_line, empty_store, entries_view, has_prefix, pairs_drawn_from, request_cookie_fields, set_cookie_values, spec_cookie_headers, stored_one, store_contents, store_entries, store_parse, store_sends, store_set_cookie_fields};
use crate::error::Error;
use crate::text::{starts_with, str_starts_with};
use crate::backend::windows::http_client::strings_view;
use crate::wire::{HeaderPair, headers_view, str_eq, url_parses, url_text};

verus! {

/// The host of a URL (`Url::host_str`), if it has one.
#[verifier::external_body]
fn url_host_text(url: &url::Url) -> Option<String> {
    url.host_str().map(|h| h.to_string())
}

/// The path of a URL (`Url::path`).
#[verifier::external_body]
fn url_path_text(url: &url::Url) -> String {
    url.path().to_string()
}

/// Windows cookie storage over an RFC 6265 cookie store.
pub struct WindowsCookieStorage {
    store: cookie_store::CookieStore,
}

impl View for WindowsCookieStorage {
    type V = Multiset<StoredCookie>;

    closed spec fn view(&self) -> Multiset<StoredCookie> {
        store_contents(self.store)
    }
}

/// Whether a stored cookie is named `name`.
pub open spec fn any_named(cookies: Multiset<StoredCookie>, name: Seq<char>) -> bool {
    exists|t: StoredCookie| cookies.count(t) > 0 && t.0 == name
}

impl WindowsCookieStorage {
    /// The name/value pairs the storage sends to a URL without consulting
    /// the clock (see `store_sends`).
    pub closed spec fn sends(&self, url: Seq<char>) -> Multiset<(Seq<char>, Seq<char>)> {
        store_sends(self.store, url)
    }

    /// Whether the cookie a line names, received from `url`, is stored and
    /// sent to every URL it matches.
    pub open spec fn added(&self, line: Seq<char>, url: Seq<char>) -> bool {
        &&& raw_cookie_of(line) is Some
        &&& self@.count(raw_cookie_of(line)->0) > 0
        &&& forall|to: Seq<char>| #[trigger] cookie_sent_to(line, url, to) ==> self.sends(to).count(line_pair(line)) > 0
    }

    /// Whether every line accepted as a cookie that never expires, and not
    /// followed by a line of the same name, is stored and sent to every URL
    /// it matches.
    pub open spec fn kept(&self, lines: Seq<Seq<char>>, url: Seq<char>) -> bool {
        forall|k: int| 0 <= k < lines.len() && #[trigger] session_cookie_accepted(lines[k], url) && last_of_name(lines, k)
            ==> self.added(lines[k], url)
    }

    /// Create a new, empty storage.
    pub fn new() -> (res: Result<Self, Error>)
        ensures
            res matches Ok(s) && s@ =~= Multiset::empty(),
    {
        Ok(WindowsCookieStorage { store: empty_store() })
    }

    /// Store a `Set-Cookie` line received from `url`; a line that does not
    /// parse is an `Internal` error starting "Failed to parse cookie: " and
    /// leaves the storage as it was.
    pub fn add_cookie_from_header(&mut self, url: &str, set_cookie_header: &str) -> (res: Result<(), Error>)
        ensures
            res is Err ==> final(self)@ == old(self)@ && (res matches Err(Error::Internal(m)) && has_prefix(m@, "Failed to parse cookie: "@)),
            res is Ok ==> stored_one(old(self)@, final(self)@),
            raw_cookie_of(set_cookie_header@) is None ==> res is Err,
            res is Ok ==> stored_from_line(old(self)@, final(self)@, set_cookie_header@),
            !url_parses(url@) ==> res is Err,
            session_cookie_accepted(set_cookie_header@, url@) ==> res is Ok && final(self).added(set_cookie_header@, url@),
            res is Ok && !names_expiry(set_cookie_header@) ==> final(self).added(set_cookie_header@, url@),
    {
        match store_parse(&mut self.store, set_cookie_header, url) {
            Ok(()) => Ok(()),
            Err(e) => {
                let mut m = String::from_str("Failed to parse cookie: ");
                m.append(e.as_str());
                assert(m@ == "Failed to parse cookie: "@ + e@);
                Err(Error::Internal(m))
            },
        }
    }

    /// Store a simple `name=value` cookie received from `url`.
    pub fn add_cookie(&mut self, url: &str, name: &str, value: &str) -> (res: Result<(), Error>)
        ensures
            res is Err ==> final(self)@ == old(self)@ && (res matches Err(Error::Internal(m)) && has_prefix(m@, "Failed to parse cookie: "@)),
            res is Ok ==> stored_one(old(self)@, final(self)@),
            raw_cookie_of(name@ + seq!['='] + value@) is None ==> res is Err,
            res is Ok ==> stored_from_line(old(self)@, final(self)@, name@ + seq!['='] + value@),
            !url_parses(url@) ==> res is Err,
            session_cookie_accepted(name@ + seq!['='] + value@, url@) ==> res is Ok && final(self).added(name@ + seq!['='] + value@, url@),
            res is Ok && !names_expiry(name@ + seq!['='] + value@) ==> final(self).added(name@ + seq!['='] + value@, url@),
    {
        let mut line = String::from_str(name);
        line.push('=');
        line.append(value);
        assert(line@ =~= name@ + seq!['='] + value@);
        self.add_cookie_from_header(url, line.as_str())
    }

    /// Store the cookies of the `set-cookie` fields of a response to `url`;
    /// lines that do not parse are skipped.
    pub fn process_response_headers(&mut self, url: &str, headers: &Vec<HeaderPair>) -> (res: Result<(), Error>)
        ensures
            res is Ok,
            set_cookie_values(headers_view(headers@)).len() == 0 ==> final(self)@ == old(self)@,
            from_lines(old(self)@, final(self)@, set_cookie_values(headers_view(headers@))),
            final(self).kept(set_cookie_values(headers_view(headers@)), url@),
    {
        let _ = store_set_cookie_fields(&mut self.store, url, headers);
        proof {
            let lines = set_cookie_values(headers_view(headers@));
            assert forall|k: int| 0 <= k < lines.len() && #[trigger] session_cookie_accepted(lines[k], url@) && last_of_name(lines, k)
                implies self.added(lines[k], url@) by {
                assert(accepted_effect(self.store, lines[k], url@));
            }
            assert(self.kept(lines, url@));
        }
        Ok(())
    }

    /// The `cookie` header field for a request to `url`.
    pub fn get_cookies_for_url(&self, url: &str) -> (res: Result<Vec<HeaderPair>, Error>)
        ensures
            res matches Ok(h) && exists|pairs: Seq<(Seq<char>, Seq<char>)>|
                pairs_drawn_from(pairs, self@) && sends_all(pairs, self.sends(url@))
                    && headers_view(h@) == spec_cookie_headers(pairs),
    {
        Ok(request_cookie_fields(&self.store, url))
    }

    /// Delete the cookies named `name` that apply to `url` (see
    /// `expiry_lines`; a URL without a host counts as `localhost`): each
    /// line that expires one is parsed into the store for the URL. When no
    /// stored cookie has that name nothing changes.
    pub fn delete_cookie(&mut self, url: &url::Url, name: &str) -> (res: Result<(), Error>)
        ensures
            res is Ok,
            !any_named(old(self)@, name@) ==> final(self)@ == old(self)@,
            exists|e: Seq<StoredCookie>, host: Seq<char>, path: Seq<char>|
                e.to_multiset() == old(self)@ && from_lines(old(self)@, final(self)@, spec_expiry_lines(e, name@, host, path)),
    {
        let domain = match url_host_text(url) {
            Some(h) => h,
            None => String::from_str("localhost"),
        };
        let path = url_path_text(url);
        let text = url_text(url);
        let entries = store_entries(&self.store);
        let lines = expiry_lines(&entries, name, domain.as_str(), path.as_str());
        let ghost ev = entries_view(entries@);
        let ghost lv = strings_view(lines@);
        proof {
            if !any_named(self@, name@) {
                assert(ev.take(ev.len() as int) =~= ev);
                lemma_no_lines_without_name(ev, self@, name@, domain@, path@, ev);
            }
            lemma_from_lines_same(self@, Seq::empty());
            assert(lv.take(0) =~= Seq::<Seq<char>>::empty());
        }
        let mut i: usize = 0;
        while i < lines.len()
            invariant
                i <= lines@.len(),
                lv == strings_view(lines@),
                lv.len() == lines@.len(),
                lines@.len() > 0 || self@ == old(self)@,
                from_lines(old(self)@, self@, lv.take(i as int)),
            decreases lines.len() - i,
        {
            let ghost before = self@;
            let _ = store_parse(&mut self.store, lines[i].as_str(), text.as_str());
            proof {
                lemma_from_line(before, self@, lines@[i as int]@);
                lemma_from_lines_compose(old(self)@, before, self@, lv.take(i as int), seq![lines@[i as int]@]);
                assert(lv.take(i + 1) =~= lv.take(i as int) + seq![lines@[i as int]@]);
            }
            i += 1;
        }
        proof {
            assert(lv.take(lv.len() as int) =~= lv);
            assert(ev.to_multiset() == old(self)@);
        }
        Ok(())
    }

    /// Remove every cookie.
    pub fn clear_all_cookies(&mut self) -> (res: Result<(), Error>)
        ensures
            res is Ok,
            final(self)@ =~= Multiset::empty(),
    {
        self.store = empty_store();
        Ok(())
    }

    /// Every stored cookie, expired ones included, in the store's order.
    pub fn get_all_cookies(&self) -> (res: Result<Vec<StoreEntry>, Error>)
        ensures
            res matches Ok(v) && entries_view(v@).to_multiset() == self@,
    {
        Ok(store_entries(&self.store))
    }
}

/// The path a stored cookie applies under: its own, or `/`.
pub open spec fn cookie_path_of(c: StoredCookie) -> Seq<char> {
    match c.3 {
        Some(p) => p,
        None => "/"@,
    }
}

/// Whether deleting `name` for a URL of host `host` and path `path`
/// removes the stored cookie: it has that name, no domain or the host as
/// domain, and a path that starts the URL's path.
pub open spec fn spec_deletes(c: StoredCookie, name: Seq<char>, host: Seq<char>, path: Seq<char>) -> bool {
    &&& c.0 == name
    &&& (c.2 is None || c.2 == Some(host))
    &&& starts_with(path, cookie_path_of(c))
}

/// The `Set-Cookie` line that expires a stored cookie: its name with an
/// empty value, its domain (else the host), its path (else `/`) and an
/// expiry date in 1970.
pub open spec fn spec_expiry_line(c: StoredCookie, host: Seq<char>) -> Seq<char> {
    c.0 + "=; Domain="@ + (match c.2 {
        Some(d) => d,
        None => host,
    }) + "; Path="@ + cookie_path_of(c) + "; Expires=Thu, 01 Jan 1970 00:00:00 GMT"@
}

/// The lines that expire the cookies deleting `name` removes, in order.
pub open spec fn spec_expiry_lines(cs: Seq<StoredCookie>, name: Seq<char>, host: Seq<char>, path: Seq<char>) -> Seq<Seq<char>>
    decreases cs.len(),
{
    if cs.len() == 0 {
        Seq::empty()
    } else {
        let r = spec_expiry_lines(cs.drop_last(), name, host, path);
        if spec_deletes(cs.last(), name, host, path) {
            r.push(spec_expiry_line(cs.last(), host))
        } else {
            r
        }
    }
}

/// The lines that expire the stored cookies named `name` that apply to a
/// URL of host `host` and path `path` (see `spec_expiry_lines`).
pub fn expiry_lines(entries: &Vec<StoreEntry>, name: &str, host: &str, path: &str) -> (lines: Vec<String>)
    ensures
        strings_view(lines@) == spec_expiry_lines(entries_view(entries@), name@, host@, path@),
{
    let ghost ev = entries_view(entries@);
    let mut lines: Vec<String> = Vec::new();
    let mut i: usize = 0;
    assert(ev.take(0) =~= Seq::<StoredCookie>::empty());
    assert(strings_view(lines@) =~= Seq::<Seq<char>>::empty());
    while i < entries.len()
        invariant
            ev == entries_view(entries@),
            ev.len() == entries@.len(),
            i <= entries@.len(),
            strings_view(lines@) == spec_expiry_lines(ev.take(i as int), name@, host@, path@),
        decreases entries.len() - i,
    {
        assert(ev.take(i + 1).drop_last() =~= ev.take(i as int));
        assert(ev.take(i + 1).last() == entries@[i as int]@);
        let e = &entries[i];
        let domain_applies = match &e.domain {
            None => true,
            Some(d) => str_eq(d.as_str(), host),
        };
        let cookie_path = match &e.path {
            Some(p) => p.clone(),
            None => String::from_str("/"),
        };
        if str_eq(e.name.as_str(), name) && domain_applies && str_starts_with(path, cookie_path.as_str()) {
            let mut line = e.name.clone();
            line.append("=; Domain=");
            match &e.domain {
                Some(d) => line.append(d.as_str()),
                None => line.append(host),
            }
            line.append("; Path=");
            line.append(cookie_path.as_str());
            line.append("; Expires=Thu, 01 Jan 1970 00:00:00 GMT");
            let ghost before = lines@;
            lines.push(line);
            assert(strings_view(lines@) =~= strings_view(before).push(spec_expiry_line(e@, host@)));
        }
        i += 1;
    }
    assert(ev.take(ev.len() as int) =~= ev);
    lines
}

/// Without a stored cookie of that name no prefix of the entries has a
/// line to expire.
proof fn lemma_no_lines_without_name(
    rest: Seq<StoredCookie>,
    m: Multiset<StoredCookie>,
    name: Seq<char>,
    host: Seq<char>,
    path: Seq<char>,
    cs: Seq<StoredCookie>,
)
    requires
        cs.to_multiset() == m,
        !any_named(m, name),
        rest.len() <= cs.len(),
        rest == cs.take(rest.len() as int),
    ensures
        spec_expiry_lines(rest, name, host, path).len() == 0,
    decreases rest.len(),
{
    if rest.len() > 0 {
        let k = rest.len() - 1;
        assert(rest.last() == cs[k]);
        vstd::seq_lib::to_multiset_contains(cs, cs[k]);
        assert(cs.contains(cs[k]));
        assert(m.count(cs[k]) > 0);
        assert(rest.drop_last() =~= cs.take(k));
        lemma_no_lines_without_name(rest.drop_last(), m, name, host, path, cs);
    }
}

} // verus!
