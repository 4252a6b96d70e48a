//! Android cookie storage using cookie_store.

use vstd::prelude::*;
use vstd::multiset::Multiset;
use crate::backend::cookie_store::{StoredCookie, accepted_effect, cookie_sent_to, from_lines, empty_store, last_of_name, line_pair, pairs_drawn_from, raw_cookie_of, request_cookie_fields, sends_all, session_cookie_accepted, set_cookie_values, spec_cookie_headers, store_contents, store_sends, store_set_cookie_fields};
use crate::cookies::{Cookie, CookieAcceptPolicy};
use crate::error::Error;
use crate::wire::{HeaderPair, headers_view};

verus! {

/// Android cookie storage over an RFC 6265 cookie store.
pub struct AndroidCookieStorage {
    store: cookie_store::CookieStore,
}

impl View for AndroidCookieStorage {
    type V = Multiset<StoredCookie>;

    closed spec fn view(&self) -> Multiset<StoredCookie> {
        store_contents(self.store)
    }
}

impl AndroidCookieStorage {
    /// The name/value pairs the storage sends to a URL without consulting
    /// the clock (see `store_sends`).
    pub closed spec fn sends(&self, url: Seq<char>) -> Multiset<(Seq<char>, Seq<char>)> {
        store_sends(self.store, url)
    }

    /// Whether the cookie a line names, received from `url`, is stored and
    /// sent to every URL it matches.
    pub open spec fn added(&self, line: Seq<char>, url: Seq<char>) -> bool {
        &&& raw_cookie_of(line) is Some
        &&& self@.count(raw_cookie_of(line)->0) > 0
        &&& forall|to: Seq<char>| #[trigger] cookie_sent_to(line, url, to) ==> self.sends(to).count(line_pair(line)) > 0
    }

    /// Whether every line accepted as a cookie that never expires, and not
    /// followed by a line of the same name, is stored and sent to every URL
    /// it matches.
    pub open spec fn kept(&self, lines: Seq<Seq<char>>, url: Seq<char>) -> bool {
        forall|k: int| 0 <= k < lines.len() && #[trigger] session_cookie_accepted(lines[k], url) && last_of_name(lines, k)
            ==> self.added(lines[k], url)
    }

    /// Create a new, empty storage.
    pub fn new() -> (res: Result<Self, Error>)
        ensures
            res matches Ok(s) && s@ =~= Multiset::empty(),
    {
        Ok(AndroidCookieStorage { store: empty_store() })
    }

    /// Store the cookies of the `set-cookie` fields of a response to `url`;
    /// returns how many lines were stored (lines that do not parse are
    /// skipped).
    pub fn process_response_headers(&mut self, url: &str, headers: &Vec<HeaderPair>) -> (res: Result<usize, Error>)
        ensures
            res matches Ok(n) && n <= set_cookie_values(headers_view(headers@)).len(),
            set_cookie_values(headers_view(headers@)).len() == 0 ==> final(self)@ == old(self)@,
            from_lines(old(self)@, final(self)@, set_cookie_values(headers_view(headers@))),
            final(self).kept(set_cookie_values(headers_view(headers@)), url@),
    {
        let n = store_set_cookie_fields(&mut self.store, url, headers);
        proof {
            let lines = set_cookie_values(headers_view(headers@));
            assert forall|k: int| 0 <= k < lines.len() && #[trigger] session_cookie_accepted(lines[k], url@) && last_of_name(lines, k)
                implies self.added(lines[k], url@) by {
                assert(accepted_effect(self.store, lines[k], url@));
            }
            assert(self.kept(lines, url@));
        }
        Ok(n)
    }

    /// The `cookie` header field for a request to `url`.
    pub fn get_cookies_for_url(&self, url: &str) -> (res: Result<Vec<HeaderPair>, Error>)
        ensures
            res matches Ok(h) && exists|pairs: Seq<(Seq<char>, Seq<char>)>|
                pairs_drawn_from(pairs, self@) && sends_all(pairs, self.sends(url@))
                    && headers_view(h@) == spec_cookie_headers(pairs),
    {
        Ok(request_cookie_fields(&self.store, url))
    }

    /// All cookies: this storage does not convert its cookies, so none.
    pub fn all_cookies(&self) -> (cookies: Vec<Cookie>)
        ensures
            cookies@.len() == 0,
    {
        Vec::new()
    }

    /// Cookies for a URL: this storage does not convert its cookies, so
    /// none.
    pub fn cookies_for_url(&self, url: &str) -> (res: Result<Vec<Cookie>, Error>)
        ensures
            res matches Ok(v) && v@.len() == 0,
    {
        Ok(Vec::new())
    }

    /// Add a cookie: not converted to the store's form, so nothing is
    /// stored.
    pub fn add_cookie(&self, cookie: Cookie) -> (res: Result<(), Error>)
        ensures
            res is Ok,
    {
        Ok(())
    }

    /// Remove a cookie: nothing is removed.
    pub fn remove_cookie(&self, cookie: Cookie) -> (res: Result<(), Error>)
        ensures
            res is Ok,
    {
        Ok(())
    }

    /// Remove every cookie.
    pub fn clear(&mut self)
        ensures
            final(self)@ =~= Multiset::empty(),
    {
        self.store = empty_store();
    }

    /// Set the acceptance policy: the store has no such setting, so
    /// nothing happens.
    pub fn set_cookie_accept_policy(&self, policy: CookieAcceptPolicy) {
    }
}

} // verus!
