//! Cookie storage over the `cookie_store` crate (RFC 6265 storage model),
//! shared by every backend that does not use the platform's own store.

use vstd::prelude::*;
use vstd::string::*;
use vstd::multiset::Multiset;
use crate::cookies::{Cookie, CookieAcceptPolicy, CookieView, spec_cookie_url, spec_new_cookie, spec_set_cookie_line};
use crate::error::Error;
use crate::text::chars_of;
use crate::wire::{HeaderPair, ascii_lower, header_value_ok, header_value_valid, headers_view, parse_url, str_eq, url_parses};

verus! {

#[verifier::external_type_specification]
#[verifier::external_body]
pub struct ExCookieStore(cookie_store::CookieStore);

/// A stored cookie as its attributes read: name, value, `Domain`, `Path`,
/// `Secure` and `HttpOnly` (the last four as set on the cookie, if at all).
pub type StoredCookie = (Seq<char>, Seq<char>, Option<Seq<char>>, Option<Seq<char>>, Option<bool>, Option<bool>);

/// The cookies a `cookie_store::CookieStore` holds, expired ones included.
pub uninterp spec fn store_contents(store: cookie_store::CookieStore) -> Multiset<(Seq<char>, Seq<char>, Option<Seq<char>>, Option<Seq<char>>, Option<bool>, Option<bool>)>;

/// The name/value pairs of the stored cookies that never expire (received
/// without `Max-Age` or `Expires`, and not expired by the store since) and
/// that `CookieStore::matches` selects for the URL text (none when it does
/// not parse). The clock does not change it.
pub uninterp spec fn store_sends(store: cookie_store::CookieStore, url: Seq<char>) -> Multiset<(Seq<char>, Seq<char>)>;

/// One stored cookie, read through its accessors.
pub struct StoreEntry {
    /// Cookie name
    pub name: String,
    /// Cookie value
    pub value: String,
    /// `Domain` attribute
    pub domain: Option<String>,
    /// `Path` attribute
    pub path: Option<String>,
    /// `Secure` attribute
    pub secure: Option<bool>,
    /// `HttpOnly` attribute
    pub http_only: Option<bool>,
}

impl View for StoreEntry {
    type V = StoredCookie;

    open spec fn view(&self) -> StoredCookie {
        (self.name@, self.value@, crate::cookies::opt_view(self.domain),
            crate::cookies::opt_view(self.path), self.secure, self.http_only)
    }
}

/// The views of a list of entries.
pub open spec fn entries_view(v: Seq<StoreEntry>) -> Seq<StoredCookie> {
    v.map_values(|e: StoreEntry| e@)
}

/// An empty store: `cookie_store::CookieStore::default()`.
#[verifier::external_body]
pub(crate) fn empty_store() -> (store: cookie_store::CookieStore)
    ensures
        store_contents(store) =~= Multiset::empty(),
        forall|u: Seq<char>| #[trigger] store_sends(store, u) =~= Multiset::empty(),
{
    cookie_store::CookieStore::default()
}

/// A copy of a store (`Clone`, which copies every stored cookie with its
/// expiry).
#[verifier::external_body]
fn copy_store(store: &cookie_store::CookieStore) -> (copy: cookie_store::CookieStore)
    ensures
        store_contents(copy) == store_contents(*store),
        forall|u: Seq<char>| #[trigger] store_sends(copy, u) == store_sends(*store, u),
{
    store.clone()
}

/// Every stored cookie, expired ones included (`CookieStore::iter_any`),
/// each read through its accessors.
#[verifier::external_body]
pub(crate) fn store_entries(store: &cookie_store::CookieStore) -> (entries: Vec<StoreEntry>)
    ensures
        entries_view(entries@).to_multiset() == store_contents(*store),
{
    store
        .iter_any()
        .map(|c| StoreEntry {
            name: c.name().to_string(),
            value: c.value().to_string(),
            domain: c.domain().map(|d| d.to_string()),
            path: c.path().map(|p| p.to_string()),
            secure: c.secure(),
            http_only: c.http_only(),
        })
        .collect()
}

/// The stored cookies that `CookieStore::matches` gives for the URL text
/// (parsed by `Url::parse`; none when it does not parse): unexpired stored
/// cookies that match the URL, among them every cookie that never expires
/// and matches (`store_sends`). Which others come, and in which order,
/// depends on the clock and on the order of the store's hash maps, and is
/// not stated.
#[verifier::external_body]
fn store_matches(store: &cookie_store::CookieStore, url_text: &str) -> (entries: Vec<StoreEntry>)
    ensures
        forall|i: int| 0 <= i < entries@.len() ==> store_contents(*store).count(#[trigger] entries@[i]@) > 0,
        forall|t: (Seq<char>, Seq<char>)| #[trigger] store_sends(*store, url_text@).count(t) > 0 ==> exists|i: int|
            0 <= i < entries@.len() && (entries@[i]@.0, entries@[i]@.1) == t,
{
    match url::Url::parse(url_text) {
        Ok(u) => store.matches(&u).into_iter().map(|c| StoreEntry {
            name: c.name().to_string(),
            value: c.value().to_string(),
            domain: c.domain().map(|d| d.to_string()),
            path: c.path().map(|p| p.to_string()),
            secure: c.secure(),
            http_only: c.http_only(),
        }).collect(),
        Err(_) => Vec::new(),
    }
}

/// The (name, value) pairs of a list of stored cookies.
fn request_values(entries: &Vec<StoreEntry>) -> (pairs: Vec<HeaderPair>)
    ensures
        pairs@.len() == entries@.len(),
        forall|i: int| 0 <= i < pairs@.len() ==> #[trigger] pairs@[i]@ == (entries@[i]@.0, entries@[i]@.1),
{
    let mut pairs: Vec<HeaderPair> = Vec::new();
    let mut i: usize = 0;
    while i < entries.len()
        invariant
            i <= entries@.len(),
            pairs@.len() == i,
            forall|j: int| 0 <= j < i ==> #[trigger] pairs@[j]@ == (entries@[j]@.0, entries@[j]@.1),
        decreases entries.len() - i,
    {
        pairs.push(HeaderPair { name: entries[i].name.clone(), value: entries[i].value.clone() });
        i += 1;
    }
    pairs
}

/// The cookie a `Set-Cookie` line names, as `cookie::Cookie::parse` reads
/// it: its name, value, `Domain`, `Path`, `Secure` and `HttpOnly`; none
/// when the line does not parse. It depends on the line alone.
pub uninterp spec fn raw_cookie_of(line: Seq<char>) -> Option<(Seq<char>, Seq<char>, Option<Seq<char>>, Option<Seq<char>>, Option<bool>, Option<bool>)>;

/// Whether `CookieStore::parse`, given the line as received from the URL
/// text (`Url::parse`), stores the line's cookie as one that never expires
/// without consulting the stored cookies or the clock: the URL parses and
/// its scheme starts with `http`, the line parses with neither `Max-Age`
/// nor `Expires`, and the cookie passes the store's domain and `HttpOnly`
/// checks. It depends on the line and the URL alone.
pub uninterp spec fn session_cookie_accepted(line: Seq<char>, url: Seq<char>) -> bool;

/// Whether the cookie a line names, received from `from`, is one
/// `CookieStore::matches` selects for a request to `to` while it has not
/// expired (`Cookie::matches`: domain, path, `Secure` and `HttpOnly`
/// against the request URL). It depends on the line and the two URLs.
pub uninterp spec fn cookie_sent_to(line: Seq<char>, from: Seq<char>, to: Seq<char>) -> bool;

/// Whether the word `w` (lower case) occurs in `s` at `i`, in any ASCII
/// letter case.
pub open spec fn occurs_at_ci(s: Seq<char>, i: int, w: Seq<char>) -> bool {
    0 <= i && i + w.len() <= s.len() && forall|j: int| 0 <= j < w.len() ==> ascii_lower(#[trigger] s[i + j]) == w[j]
}

/// Whether a `Set-Cookie` line may carry an expiry: `expires` or
/// `max-age`, the names of the expiry attributes (matched in any ASCII
/// letter case), occurs in it. A line without either names a cookie that
/// never expires.
pub open spec fn names_expiry(line: Seq<char>) -> bool {
    exists|i: int| occurs_at_ci(line, i, "expires"@) || occurs_at_ci(line, i, "max-age"@)
}

/// The last attribute of a line that expires a cookie at once: an expiry
/// date in 1970.
pub open spec fn epoch_expiry() -> Seq<char> {
    "; Expires=Thu, 01 Jan 1970 00:00:00 GMT"@
}

/// Whether the line ends with `epoch_expiry`: the cookie it names has an
/// expiry whatever else the line holds.
pub open spec fn ends_with_epoch_expiry(line: Seq<char>) -> bool {
    line.len() >= epoch_expiry().len() && line.subrange(line.len() - epoch_expiry().len(), line.len() as int) == epoch_expiry()
}

/// How one parsed line may change the stored cookies: not at all (it was
/// refused, or it only marked a stored cookie expired), by adding the
/// cookie the line names, or by putting that cookie in place of a stored
/// one of the same name.
pub open spec fn stored_from_line(before: Multiset<StoredCookie>, after: Multiset<StoredCookie>, line: Seq<char>) -> bool {
    ||| after == before
    ||| (raw_cookie_of(line) matches Some(c) && after == before.insert(c))
    ||| (raw_cookie_of(line) matches Some(c) && exists|d: StoredCookie|
        before.count(d) > 0 && d.0 == c.0 && after == before.remove(d).insert(c))
}

/// The name and value of the cookie a line names.
pub open spec fn line_pair(line: Seq<char>) -> (Seq<char>, Seq<char>) {
    ((raw_cookie_of(line)->0).0, (raw_cookie_of(line)->0).1)
}

/// What parsing a line that `session_cookie_accepted` admits does: it
/// succeeds, the cookie it names is stored, and the store sends it to
/// every URL it matches.
pub open spec fn accepted_effect(after: cookie_store::CookieStore, line: Seq<char>, url: Seq<char>) -> bool {
    &&& raw_cookie_of(line) is Some
    &&& store_contents(after).count(raw_cookie_of(line)->0) > 0
    &&& forall|to: Seq<char>| #[trigger] cookie_sent_to(line, url, to) ==> store_sends(after, to).count(line_pair(line)) > 0
}

/// Parses a `Set-Cookie` line received from the URL text and stores it
/// (`Url::parse`, then `CookieStore::parse`); on failure, the error's
/// text. A URL or line that does not parse fails. A failure leaves the
/// store as it was; a success adds the cookie the line names, puts it in
/// place of a stored cookie of the same name (same name, domain and path),
/// or only marks a stored cookie expired. A line accepted as a cookie that
/// never expires (`session_cookie_accepted`) succeeds and is stored, and
/// sent to every URL it matches; so is a line that succeeds and names no
/// expiry (`names_expiry`). A line that ends with an expiry date in 1970
/// (`ends_with_epoch_expiry`) names a cookie that expires, so the store
/// sends no more than before: the stored cookie of its name, domain and
/// path, if any, is expired or replaced. A success leaves every cookie of another
/// name that the store sends where it was sent. Otherwise whether a line
/// is accepted, and what it does, depends on the stored cookies and on the
/// clock, and is not stated.
#[verifier::external_body]
pub(crate) fn store_parse(store: &mut cookie_store::CookieStore, line: &str, url_text: &str) -> (res: Result<(), String>)
    ensures
        raw_cookie_of(line@) is None ==> res is Err,
        !url_parses(url_text@) ==> res is Err,
        res is Err ==> *final(store) == *old(store),
        res is Ok ==> stored_from_line(store_contents(*old(store)), store_contents(*final(store)), line@),
        session_cookie_accepted(line@, url_text@) ==> res is Ok,
        session_cookie_accepted(line@, url_text@) ==> store_contents(*final(store)).count(raw_cookie_of(line@)->0) > 0,
        forall|to: Seq<char>| session_cookie_accepted(line@, url_text@) && #[trigger] cookie_sent_to(line@, url_text@, to) ==> store_sends(*final(store), to).count(line_pair(line@)) > 0,
        res is Ok && !names_expiry(line@) ==> store_contents(*final(store)).count(raw_cookie_of(line@)->0) > 0,
        forall|to: Seq<char>| res is Ok && !names_expiry(line@) && #[trigger] cookie_sent_to(line@, url_text@, to) ==> store_sends(*final(store), to).count(line_pair(line@)) > 0,
        forall|to: Seq<char>, t: (Seq<char>, Seq<char>)| #![trigger store_sends(*final(store), to).count(t)]
            res is Ok && ends_with_epoch_expiry(line@) ==> store_sends(*final(store), to).count(t) <= store_sends(*old(store), to).count(t),
        forall|to: Seq<char>, t: (Seq<char>, Seq<char>)| #![trigger store_sends(*final(store), to).count(t)]
            res is Ok && store_sends(*old(store), to).count(t) > 0 && t.0 != line_pair(line@).0 ==> store_sends(*final(store), to).count(t) > 0,
{
    match url::Url::parse(url_text) {
        Ok(u) => store.parse(line, &u).map(|_| ()).map_err(|e| e.to_string()),
        Err(e) => Err(e.to_string()),
    }
}

/// The `Cookie` that a stored cookie reads as: missing attributes take the
/// defaults (empty domain, path `/`, not secure, not HTTP-only); the
/// expiration is not read back.
pub open spec fn spec_cookie_from_stored(t: StoredCookie) -> CookieView {
    CookieView {
        name: t.0,
        value: t.1,
        domain: match t.2 { Some(d) => d, None => Seq::empty() },
        path: match t.3 { Some(p) => p, None => "/"@ },
        secure: match t.4 { Some(b) => b, None => false },
        http_only: match t.5 { Some(b) => b, None => false },
        expires: None,
    }
}

/// The views of a list of cookies.
pub open spec fn cookies_view(v: Seq<Cookie>) -> Seq<CookieView> {
    v.map_values(|c: Cookie| c@)
}

/// The `Cookie` header of a request: the `name=value` pairs joined by
/// `"; "`.
pub open spec fn spec_cookie_header(pairs: Seq<(Seq<char>, Seq<char>)>) -> Seq<char>
    decreases pairs.len(),
{
    if pairs.len() == 0 {
        Seq::empty()
    } else if pairs.len() == 1 {
        pairs[0].0 + seq!['='] + pairs[0].1
    } else {
        spec_cookie_header(pairs.drop_last()) + "; "@ + pairs.last().0 + seq!['='] + pairs.last().1
    }
}

/// The header fields that carry these pairs: one `cookie` field when there
/// are pairs and their joined text is a valid header value, none otherwise.
pub open spec fn spec_cookie_headers(pairs: Seq<(Seq<char>, Seq<char>)>) -> Seq<(Seq<char>, Seq<char>)> {
    if pairs.len() > 0 && header_value_ok(spec_cookie_header(pairs)) {
        seq![("cookie"@, spec_cookie_header(pairs))]
    } else {
        Seq::empty()
    }
}

/// The abstract value of a cookie jar: the stored cookies and the
/// acceptance policy.
pub struct JarView {
    /// The stored cookies
    pub cookies: Multiset<StoredCookie>,
    /// The acceptance policy
    pub policy: CookieAcceptPolicy,
}

/// Unified cookie storage over `cookie_store::CookieStore`, used by the
/// reqwest, Windows and Android backends.
pub struct CookieJar {
    store: cookie_store::CookieStore,
    accept_policy: CookieAcceptPolicy,
}

impl View for CookieJar {
    type V = JarView;

    closed spec fn view(&self) -> JarView {
        JarView { cookies: store_contents(self.store), policy: self.accept_policy }
    }
}

/// Whether `p` starts `s`.
pub open spec fn has_prefix(s: Seq<char>, p: Seq<char>) -> bool {
    p.len() <= s.len() && forall|i: int| 0 <= i < p.len() ==> s[i] == #[trigger] p[i]
}

/// Whether every cookie is a name/value cookie of a stored cookie.
pub open spec fn drawn_from(v: Seq<CookieView>, cookies: Multiset<StoredCookie>) -> bool {
    forall|i: int| 0 <= i < v.len() ==> exists|t: StoredCookie|
        cookies.count(t) > 0 && #[trigger] v[i] == spec_new_cookie(t.0, t.1)
}

/// Whether the cookies include a name/value cookie for every pair the
/// store sends.
pub open spec fn cookies_send_all(v: Seq<CookieView>, sent: Multiset<(Seq<char>, Seq<char>)>) -> bool {
    forall|t: (Seq<char>, Seq<char>)| #[trigger] sent.count(t) > 0 ==> v.contains(spec_new_cookie(t.0, t.1))
}

/// At most one cookie changed: nothing, one added, or one replaced.
pub open spec fn stored_one(before: Multiset<StoredCookie>, after: Multiset<StoredCookie>) -> bool {
    ||| after == before
    ||| exists|c: StoredCookie| after == before.insert(c)
    ||| exists|c: StoredCookie, d: StoredCookie| before.count(d) > 0 && after == before.remove(d).insert(c)
}

/// Whether a header value reads as text (`HeaderValue::to_str`): visible
/// ASCII characters and tabs only.
pub open spec fn visible_ascii(v: Seq<char>) -> bool {
    forall|i: int| 0 <= i < v.len() ==> (' ' <= #[trigger] v[i] && v[i] <= '~') || v[i] == '\t'
}

/// Whether a header value reads as text (see `visible_ascii`).
pub fn is_visible_ascii(s: &str) -> (r: bool)
    ensures
        r == visible_ascii(s@),
{
    let v = chars_of(s);
    let mut i: usize = 0;
    while i < v.len()
        invariant
            v@ == s@,
            i <= v@.len(),
            forall|j: int| 0 <= j < i ==> (' ' <= #[trigger] v@[j] && v@[j] <= '~') || v@[j] == '\t',
        decreases v.len() - i,
    {
        let c = v[i];
        if !((' ' <= c && c <= '~') || c == '\t') {
            return false;
        }
        i += 1;
    }
    true
}

/// The `set-cookie` values of a list of header fields that read as text,
/// in order.
pub open spec fn set_cookie_values(h: Seq<(Seq<char>, Seq<char>)>) -> Seq<Seq<char>>
    decreases h.len(),
{
    if h.len() == 0 {
        Seq::empty()
    } else if h.last().0 == "set-cookie"@ && visible_ascii(h.last().1) {
        set_cookie_values(h.drop_last()).push(h.last().1)
    } else {
        set_cookie_values(h.drop_last())
    }
}

/// Whether the stored cookies changed only through parsing the lines: each
/// cookie added is one a line names, and each cookie removed shares its
/// name with a cookie a line names.
pub open spec fn from_lines(before: Multiset<StoredCookie>, after: Multiset<StoredCookie>, lines: Seq<Seq<char>>) -> bool {
    &&& forall|t: StoredCookie| #[trigger] after.count(t) > before.count(t) ==> exists|k: int|
        0 <= k < lines.len() && #[trigger] raw_cookie_of(lines[k]) == Some(t)
    &&& forall|t: StoredCookie| #[trigger] after.count(t) < before.count(t) ==> exists|k: int|
        0 <= k < lines.len() && (#[trigger] raw_cookie_of(lines[k]) matches Some(c) && c.0 == t.0)
}

/// No lines, no change.
pub proof fn lemma_from_no_lines(before: Multiset<StoredCookie>, after: Multiset<StoredCookie>)
    requires
        from_lines(before, after, Seq::empty()),
    ensures
        after == before,
{
    assert(after =~= before);
}

/// Nothing changed: true of any lines.
pub proof fn lemma_from_lines_same(m: Multiset<StoredCookie>, lines: Seq<Seq<char>>)
    ensures
        from_lines(m, m, lines),
{
}

/// Changes through some lines, then through more lines, are changes
/// through all of them in order.
pub proof fn lemma_from_lines_compose(
    a: Multiset<StoredCookie>,
    b: Multiset<StoredCookie>,
    c: Multiset<StoredCookie>,
    l1: Seq<Seq<char>>,
    l2: Seq<Seq<char>>,
)
    requires
        from_lines(a, b, l1),
        from_lines(b, c, l2),
    ensures
        from_lines(a, c, l1 + l2),
{
    let l = l1 + l2;
    assert forall|t: StoredCookie| #[trigger] c.count(t) > a.count(t) implies exists|k: int|
        0 <= k < l.len() && #[trigger] raw_cookie_of(l[k]) == Some(t) by {
        if c.count(t) > b.count(t) {
            let k = choose|k: int| 0 <= k < l2.len() && #[trigger] raw_cookie_of(l2[k]) == Some(t);
            assert(l[l1.len() + k] == l2[k]);
        } else {
            let k = choose|k: int| 0 <= k < l1.len() && #[trigger] raw_cookie_of(l1[k]) == Some(t);
            assert(l[k] == l1[k]);
        }
    }
    assert forall|t: StoredCookie| #[trigger] c.count(t) < a.count(t) implies exists|k: int|
        0 <= k < l.len() && (#[trigger] raw_cookie_of(l[k]) matches Some(x) && x.0 == t.0) by {
        if c.count(t) < b.count(t) {
            let k = choose|k: int| 0 <= k < l2.len() && (#[trigger] raw_cookie_of(l2[k]) matches Some(x) && x.0 == t.0);
            assert(l[l1.len() + k] == l2[k]);
        } else {
            let k = choose|k: int| 0 <= k < l1.len() && (#[trigger] raw_cookie_of(l1[k]) matches Some(x) && x.0 == t.0);
            assert(l[k] == l1[k]);
        }
    }
}

/// One parsed line changes the stored cookies only through that line.
pub proof fn lemma_from_line(before: Multiset<StoredCookie>, after: Multiset<StoredCookie>, line: Seq<char>)
    requires
        stored_from_line(before, after, line),
    ensures
        from_lines(before, after, seq![line]),
{
    let l = seq![line];
    assert(l[0] == line);
    if after == before {
    } else if raw_cookie_of(line) is Some && after == before.insert(raw_cookie_of(line)->0) {
        let c = raw_cookie_of(line)->0;
        assert forall|t: StoredCookie| #[trigger] after.count(t) > before.count(t) implies exists|k: int|
            0 <= k < l.len() && #[trigger] raw_cookie_of(l[k]) == Some(t) by {
            assert(t == c);
            assert(raw_cookie_of(l[0]) == Some(t));
        }
    } else {
        let c = raw_cookie_of(line)->0;
        let d = choose|d: StoredCookie| before.count(d) > 0 && d.0 == c.0 && after == before.remove(d).insert(c);
        assert forall|t: StoredCookie| #[trigger] after.count(t) > before.count(t) implies exists|k: int|
            0 <= k < l.len() && #[trigger] raw_cookie_of(l[k]) == Some(t) by {
            assert(t == c);
            assert(raw_cookie_of(l[0]) == Some(t));
        }
        assert forall|t: StoredCookie| #[trigger] after.count(t) < before.count(t) implies exists|k: int|
            0 <= k < l.len() && (#[trigger] raw_cookie_of(l[k]) matches Some(x) && x.0 == t.0) by {
            assert(t == d);
            assert(raw_cookie_of(l[0]) == Some(c));
        }
    }
}

/// Whether no line after the `k`-th names a cookie of the same name.
pub open spec fn last_of_name(lines: Seq<Seq<char>>, k: int) -> bool {
    forall|j: int| k < j < lines.len() ==> (#[trigger] raw_cookie_of(lines[j]) is None
        || line_pair(lines[j]).0 != line_pair(lines[k]).0)
}

/// Whether every line that the store accepts as a cookie that never
/// expires, and that no later line renames, is stored and sent to every
/// URL it matches.
pub open spec fn accepted_lines_kept(after: cookie_store::CookieStore, lines: Seq<Seq<char>>, url: Seq<char>) -> bool {
    forall|k: int| 0 <= k < lines.len() && #[trigger] session_cookie_accepted(lines[k], url) && last_of_name(lines, k)
        ==> accepted_effect(after, lines[k], url)
}

/// Stores every `set-cookie` line of a response to the URL text that reads
/// as text (`CookieStore::parse` on each, in order); lines that do not
/// parse are skipped. Returns how many were stored. The stored cookies
/// change only through those lines, and each line accepted as a cookie
/// that never expires, and not followed by a line of the same name, is
/// stored and sent to every URL it matches.
pub fn store_set_cookie_fields(store: &mut cookie_store::CookieStore, url: &str, headers: &Vec<HeaderPair>) -> (stored: usize)
    ensures
        accepted_lines_kept(*final(store), set_cookie_values(headers_view(headers@)), url@),
        stored <= set_cookie_values(headers_view(headers@)).len(),
        from_lines(store_contents(*old(store)), store_contents(*final(store)), set_cookie_values(headers_view(headers@))),
        set_cookie_values(headers_view(headers@)).len() == 0 ==> store_contents(*final(store)) == store_contents(*old(store)),
{
    let ghost hv = headers_view(headers@);
    let ghost start = store_contents(*store);
    let mut stored: usize = 0;
    let mut i: usize = 0;
    proof {
        lemma_from_lines_same(start, Seq::empty());
        assert(hv.take(0) =~= Seq::<(Seq<char>, Seq<char>)>::empty());
    }
    while i < headers.len()
        invariant
            hv == headers_view(headers@),
            start == store_contents(*old(store)),
            i <= headers@.len(),
            stored <= i,
            stored <= set_cookie_values(hv.take(i as int)).len(),
            set_cookie_values(hv.take(i as int)).len() == 0 ==> store_contents(*store) == start,
            from_lines(start, store_contents(*store), set_cookie_values(hv.take(i as int))),
            accepted_lines_kept(*store, set_cookie_values(hv.take(i as int)), url@),
        decreases headers.len() - i,
    {
        assert(hv.take(i + 1).drop_last() =~= hv.take(i as int));
        assert(hv.take(i + 1).last() == headers@[i as int]@);
        if str_eq(headers[i].name.as_str(), "set-cookie") && is_visible_ascii(headers[i].value.as_str()) {
            let ghost before = store_contents(*store);
            let ghost before_store = *store;
            let ghost prev_lines = set_cookie_values(hv.take(i as int));
            match store_parse(store, headers[i].value.as_str(), url) {
                Ok(()) => stored = stored + 1,
                Err(_) => {},
            }
            proof {
                reveal_strlit("set-cookie");
                lemma_kept_after_line(before_store, *store, prev_lines, headers@[i as int].value@, url@);
                lemma_from_line(before, store_contents(*store), headers@[i as int].value@);
                lemma_from_lines_compose(
                    start,
                    before,
                    store_contents(*store),
                    set_cookie_values(hv.take(i as int)),
                    seq![headers@[i as int].value@],
                );
                assert(set_cookie_values(hv.take(i + 1)) =~= set_cookie_values(hv.take(i as int)) + seq![
                    headers@[i as int].value@,
                ]);
            }
        } else {
            proof {
                reveal_strlit("set-cookie");
            }
        }
        i += 1;
    }
    assert(hv.take(headers@.len() as int) =~= hv);
    stored
}

/// Parsing one more line keeps every earlier accepted line that the new
/// line does not rename, and keeps the new line when it is accepted.
proof fn lemma_kept_after_line(
    before: cookie_store::CookieStore,
    after: cookie_store::CookieStore,
    lines: Seq<Seq<char>>,
    line: Seq<char>,
    url: Seq<char>,
)
    requires
        accepted_lines_kept(before, lines, url),
        raw_cookie_of(line) is None ==> after == before,
        session_cookie_accepted(line, url) ==> raw_cookie_of(line) is Some,
        after == before || stored_from_line(store_contents(before), store_contents(after), line),
        forall|to: Seq<char>, t: (Seq<char>, Seq<char>)| #![trigger store_sends(after, to).count(t)]
            after != before && store_sends(before, to).count(t) > 0 && t.0 != line_pair(line).0 ==> store_sends(after, to).count(t) > 0,
        session_cookie_accepted(line, url) ==> store_contents(after).count(raw_cookie_of(line)->0) > 0,
        forall|to: Seq<char>| session_cookie_accepted(line, url) && #[trigger] cookie_sent_to(line, url, to) ==> store_sends(after, to).count(line_pair(line)) > 0,
    ensures
        accepted_lines_kept(after, lines.push(line), url),
{
    let l = lines.push(line);
    assert forall|k: int| 0 <= k < l.len() && #[trigger] session_cookie_accepted(l[k], url) && last_of_name(l, k)
        implies accepted_effect(after, l[k], url) by {
        if k == lines.len() {
            assert(l[k] == line);
        } else {
            assert(l[k] == lines[k]);
            assert(last_of_name(lines, k)) by {
                assert forall|j: int| k < j < lines.len() implies (#[trigger] raw_cookie_of(lines[j]) is None
                    || line_pair(lines[j]).0 != line_pair(lines[k]).0) by {
                    assert(l[j] == lines[j]);
                    assert(raw_cookie_of(l[j]) is None || line_pair(l[j]).0 != line_pair(l[k]).0);
                }
            }
            assert(accepted_effect(before, lines[k], url));
            assert(raw_cookie_of(l[lines.len() as int]) is None || line_pair(line).0 != line_pair(lines[k]).0);
            if after != before {
                let c = raw_cookie_of(lines[k])->0;
                assert(store_contents(before).count(c) > 0);
                assert(store_contents(after).count(c) > 0);
                assert forall|to: Seq<char>| #[trigger] cookie_sent_to(lines[k], url, to)
                    implies store_sends(after, to).count(line_pair(lines[k])) > 0 by {
                    assert(store_sends(before, to).count(line_pair(lines[k])) > 0);
                }
            }
        }
    }
}

/// Whether every pair names a stored cookie by its name and value.
pub open spec fn pairs_drawn_from(pairs: Seq<(Seq<char>, Seq<char>)>, cookies: Multiset<StoredCookie>) -> bool {
    forall|i: int| 0 <= i < pairs.len() ==> exists|t: StoredCookie|
        cookies.count(t) > 0 && #[trigger] pairs[i] == (t.0, t.1)
}

/// Whether the pairs include every pair the store sends.
pub open spec fn sends_all(pairs: Seq<(Seq<char>, Seq<char>)>, sent: Multiset<(Seq<char>, Seq<char>)>) -> bool {
    forall|t: (Seq<char>, Seq<char>)| #[trigger] sent.count(t) > 0 ==> pairs.contains(t)
}

/// The `cookie` header field for the pairs (see `spec_cookie_headers`):
/// the pairs joined as `name=value` with `"; "`, when that is a valid
/// header value.
pub fn cookie_headers_for_pairs(pairs: &Vec<HeaderPair>) -> (headers: Vec<HeaderPair>)
    ensures
        headers_view(headers@) == spec_cookie_headers(headers_view(pairs@)),
{
    let ghost pv = headers_view(pairs@);
    let mut joined = String::new();
    let mut i: usize = 0;
    assert(pv.take(0) =~= Seq::<(Seq<char>, Seq<char>)>::empty());
    while i < pairs.len()
        invariant
            pv == headers_view(pairs@),
            pv.len() == pairs@.len(),
            i <= pairs@.len(),
            joined@ == spec_cookie_header(pv.take(i as int)),
        decreases pairs.len() - i,
    {
        assert(pv.take(i + 1).drop_last() =~= pv.take(i as int));
        assert(pv.take(i + 1).last() == pairs@[i as int]@);
        if i > 0 {
            joined.append("; ");
        }
        joined.append(pairs[i].name.as_str());
        joined.push('=');
        joined.append(pairs[i].value.as_str());
        proof {
            if i == 0 {
                assert(pv.take(1).len() == 1);
                assert(pv.take(1)[0] == pairs@[0]@);
                assert(joined@ =~= spec_cookie_header(pv.take(1)));
            } else {
                assert(joined@ =~= spec_cookie_header(pv.take(i + 1)));
            }
        }
        i += 1;
    }
    assert(pv.take(pv.len() as int) =~= pv);
    let mut headers: Vec<HeaderPair> = Vec::new();
    if pairs.len() > 0 && header_value_valid(joined.as_str()).is_ok() {
        headers.push(HeaderPair { name: String::from_str("cookie"), value: joined });
        assert(headers_view(headers@) =~= seq![("cookie"@, spec_cookie_header(pv))]);
    } else {
        assert(headers_view(headers@) =~= Seq::<(Seq<char>, Seq<char>)>::empty());
    }
    headers
}

/// The `cookie` header field for a request to the URL text (see
/// `spec_cookie_headers`), made of the name/value pairs of stored cookies
/// that `CookieStore::matches` selects: among them every pair the store
/// sends to that URL.
pub fn request_cookie_fields(store: &cookie_store::CookieStore, url: &str) -> (headers: Vec<HeaderPair>)
    ensures
        exists|pairs: Seq<(Seq<char>, Seq<char>)>|
            pairs_drawn_from(pairs, store_contents(*store)) && sends_all(pairs, store_sends(*store, url@))
                && headers_view(headers@) == spec_cookie_headers(pairs),
{
    let entries = store_matches(store, url);
    let pairs = request_values(&entries);
    let headers = cookie_headers_for_pairs(&pairs);
    proof {
        let pv = headers_view(pairs@);
        assert forall|i: int| 0 <= i < pv.len() implies exists|t: StoredCookie|
            store_contents(*store).count(t) > 0 && #[trigger] pv[i] == (t.0, t.1) by {
            let t = entries@[i]@;
            assert(store_contents(*store).count(t) > 0);
            assert(pv[i] == pairs@[i]@);
        }
        assert(pairs_drawn_from(pv, store_contents(*store)));
        assert forall|t: (Seq<char>, Seq<char>)| #[trigger] store_sends(*store, url@).count(t) > 0 implies pv.contains(t) by {
            let i = choose|i: int| 0 <= i < entries@.len() && (entries@[i]@.0, entries@[i]@.1) == t;
            assert(pv[i] == pairs@[i]@);
        }
    }
    headers
}

/// The line that removes a cookie ends with an expiry date in 1970.
pub proof fn lemma_removal_line_expires(c: CookieView)
    ensures
        ends_with_epoch_expiry(spec_removal_line(c)),
{
    let l = spec_removal_line(c);
    let head = c.name + "=; Domain="@ + (if c.domain.len() == 0 { "localhost"@ } else { c.domain }) + "; Path="@ + c.path;
    assert(l == head + epoch_expiry());
    assert(l.subrange(l.len() - epoch_expiry().len(), l.len() as int) =~= epoch_expiry());
}

/// The line that removes a cookie: its name with an empty value, its
/// domain (`localhost` when empty), its path, and an expiry date in 1970.
pub open spec fn spec_removal_line(c: CookieView) -> Seq<char> {
    c.name + "=; Domain="@ + (if c.domain.len() == 0 { "localhost"@ } else { c.domain }) + "; Path="@ + c.path
        + "; Expires=Thu, 01 Jan 1970 00:00:00 GMT"@
}

impl CookieJar {
    /// The name/value pairs the jar sends to a URL without consulting the
    /// clock (see `store_sends`).
    pub closed spec fn sends(&self, url: Seq<char>) -> Multiset<(Seq<char>, Seq<char>)> {
        store_sends(self.store, url)
    }

    /// Create a new, empty cookie storage that accepts every cookie.
    pub fn new() -> (jar: Self)
        ensures
            jar@.cookies =~= Multiset::empty(),
            jar@.policy == CookieAcceptPolicy::Always,
            forall|u: Seq<char>| #[trigger] jar.sends(u) =~= Multiset::empty(),
    {
        CookieJar { store: empty_store(), accept_policy: CookieAcceptPolicy::Always }
    }

    /// A copy of this jar with the same cookies and policy.
    pub fn duplicate(&self) -> (jar: Self)
        ensures
            jar@ == self@,
            forall|u: Seq<char>| #[trigger] jar.sends(u) == self.sends(u),
    {
        CookieJar { store: copy_store(&self.store), accept_policy: self.accept_policy }
    }

    /// Convert a stored cookie to a `Cookie`.
    fn convert_from_cookie_store(e: &StoreEntry) -> (c: Option<Cookie>)
        ensures
            c matches Some(k) && k@ == spec_cookie_from_stored(e@),
    {
        Some(Cookie {
            name: e.name.clone(),
            value: e.value.clone(),
            domain: match &e.domain {
                Some(d) => d.clone(),
                None => String::new(),
            },
            path: match &e.path {
                Some(p) => p.clone(),
                None => String::from_str("/"),
            },
            secure: match e.secure {
                Some(b) => b,
                None => false,
            },
            http_only: match e.http_only {
                Some(b) => b,
                None => false,
            },
            expires: None,
        })
    }

    /// All cookies stored in the jar, expired ones included, in the store's
    /// order.
    pub fn all_cookies(&self) -> (cookies: Vec<Cookie>)
        ensures
            exists|s: Seq<StoredCookie>|
                s.to_multiset() == self@.cookies
                && cookies_view(cookies@) == s.map_values(|t: StoredCookie| spec_cookie_from_stored(t)),
    {
        let entries = store_entries(&self.store);
        let ghost s = entries_view(entries@);
        let mut cookies: Vec<Cookie> = Vec::new();
        let mut i: usize = 0;
        while i < entries.len()
            invariant
                s == entries_view(entries@),
                i <= entries@.len(),
                cookies_view(cookies@) =~= s.take(i as int).map_values(|t: StoredCookie| spec_cookie_from_stored(t)),
            decreases entries.len() - i,
        {
            let c = Self::convert_from_cookie_store(&entries[i]);
            let ghost prev = cookies@;
            match c {
                Some(c) => {
                    cookies.push(c);
                    assert(cookies_view(cookies@) =~= cookies_view(prev).push(c@));
                },
                None => {},
            }
            assert(s.take(i + 1) =~= s.take(i as int).push(s[i as int]));
            i += 1;
        }
        assert(s.take(entries.len() as int) =~= s);
        cookies
    }

    /// Get the cookies a request to `url` would carry, as name/value
    /// cookies with default attributes: cookies of stored cookies, among
    /// them every cookie the jar sends to the URL.
    pub fn cookies_for_url(&self, url: &str) -> (res: Result<Vec<Cookie>, Error>)
        ensures
            res is Err <==> !url_parses(url@),
            res matches Err(e) ==> e is InvalidUrl,
            res matches Ok(v) ==> drawn_from(cookies_view(v@), self@.cookies),
            res matches Ok(v) ==> cookies_send_all(cookies_view(v@), self.sends(url@)),
    {
        if parse_url(url).is_none() {
            return Err(Error::InvalidUrl);
        }
        let entries = store_matches(&self.store, url);
        let pairs = request_values(&entries);
        let mut cookies: Vec<Cookie> = Vec::new();
        let mut i: usize = 0;
        while i < pairs.len()
            invariant
                i <= pairs@.len(),
                pairs@.len() == entries@.len(),
                cookies@.len() == i,
                forall|j: int| 0 <= j < pairs@.len() ==> #[trigger] pairs@[j]@ == (entries@[j]@.0, entries@[j]@.1),
                forall|j: int| 0 <= j < i ==> #[trigger] cookies@[j]@ == spec_new_cookie(pairs@[j].name@, pairs@[j].value@),
            decreases pairs.len() - i,
        {
            cookies.push(Cookie::new(pairs[i].name.as_str(), pairs[i].value.as_str()));
            i += 1;
        }
        proof {
            assert forall|j: int| 0 <= j < cookies_view(cookies@).len() implies exists|t: StoredCookie|
                self@.cookies.count(t) > 0 && #[trigger] cookies_view(cookies@)[j] == spec_new_cookie(t.0, t.1) by {
                let t = entries@[j]@;
                assert(store_contents(self.store).count(t) > 0);
                assert(self@.cookies.count(t) > 0);
                assert(pairs@[j]@ == (t.0, t.1));
                assert(cookies@[j]@ == spec_new_cookie(t.0, t.1));
            }
            assert forall|t: (Seq<char>, Seq<char>)| #[trigger] self.sends(url@).count(t) > 0 implies cookies_view(
                cookies@,
            ).contains(spec_new_cookie(t.0, t.1)) by {
                let j = choose|j: int| 0 <= j < entries@.len() && (entries@[j]@.0, entries@[j]@.1) == t;
                assert(pairs@[j]@ == (t.0, t.1));
                assert(cookies_view(cookies@)[j] == cookies@[j]@);
            }
        }
        Ok(cookies)
    }

    /// Add a cookie to the jar: its `Set-Cookie` line is stored as if
    /// received from the cookie's own URL (leading dots of the domain
    /// removed). A line that the store accepts as a cookie that never
    /// expires is stored and sent to every URL it matches.
    pub fn add_cookie(&mut self, cookie: Cookie) -> (res: Result<(), Error>)
        ensures
            final(self)@.policy == old(self)@.policy,
            !url_parses(spec_cookie_url(cookie@, true)) ==> res matches Err(Error::InvalidUrl),
            url_parses(spec_cookie_url(cookie@, true)) ==> (res is Ok || (res matches Err(Error::Internal(m)) && has_prefix(m@, "Failed to parse cookie: "@))),
            res is Err ==> final(self)@.cookies == old(self)@.cookies,
            res is Ok ==> stored_one(old(self)@.cookies, final(self)@.cookies),
            res is Ok ==> stored_from_line(old(self)@.cookies, final(self)@.cookies, spec_set_cookie_line(cookie@)),
            url_parses(spec_cookie_url(cookie@, true)) && session_cookie_accepted(spec_set_cookie_line(cookie@), spec_cookie_url(cookie@, true))
                ==> res is Ok && final(self).added(spec_set_cookie_line(cookie@), spec_cookie_url(cookie@, true)),
            res is Ok && !names_expiry(spec_set_cookie_line(cookie@)) ==> final(self).added(spec_set_cookie_line(cookie@), spec_cookie_url(cookie@, true)),
    {
        let set_cookie = cookie.set_cookie_line();
        let url_str = cookie.storage_url(true);
        if parse_url(url_str.as_str()).is_none() {
            return Err(Error::InvalidUrl);
        }
        match store_parse(&mut self.store, set_cookie.as_str(), url_str.as_str()) {
            Ok(()) => Ok(()),
            Err(e) => {
                let mut m = String::from_str("Failed to parse cookie: ");
                m.append(e.as_str());
                assert(m@ == "Failed to parse cookie: "@ + e@);
                Err(Error::Internal(m))
            },
        }
    }

    /// Whether the cookie a line names, received from `url`, is in the jar
    /// and sent to every URL it matches.
    pub open spec fn added(&self, line: Seq<char>, url: Seq<char>) -> bool {
        &&& raw_cookie_of(line) is Some
        &&& self@.cookies.count(raw_cookie_of(line)->0) > 0
        &&& forall|to: Seq<char>| #[trigger] cookie_sent_to(line, url, to) ==> self.sends(to).count(line_pair(line)) > 0
    }

    /// Whether every line accepted as a cookie that never expires, and not
    /// followed by a line of the same name, is in the jar and sent to every
    /// URL it matches.
    pub open spec fn kept(&self, lines: Seq<Seq<char>>, url: Seq<char>) -> bool {
        forall|k: int| 0 <= k < lines.len() && #[trigger] session_cookie_accepted(lines[k], url) && last_of_name(lines, k)
            ==> self.added(lines[k], url)
    }

    /// The line that removes `cookie` (see `spec_removal_line`).
    pub fn removal_line(cookie: &Cookie) -> (line: String)
        ensures
            line@ == spec_removal_line(cookie@),
    {
        let mut line = cookie.name.clone();
        line.append("=; Domain=");
        if cookie.domain.as_str().is_empty() {
            line.append("localhost");
        } else {
            line.append(cookie.domain.as_str());
        }
        line.append("; Path=");
        line.append(cookie.path.as_str());
        line.append("; Expires=Thu, 01 Jan 1970 00:00:00 GMT");
        line
    }

    /// Remove a cookie by storing an expired cookie of the same name for
    /// the same domain and path: afterwards the jar sends no more to any
    /// URL than before.
    pub fn remove_cookie(&mut self, cookie: Cookie) -> (res: Result<(), Error>)
        ensures
            forall|to: Seq<char>, t: (Seq<char>, Seq<char>)| #[trigger] final(self).sends(to).count(t) <= old(self).sends(to).count(t),
            final(self)@.policy == old(self)@.policy,
            !url_parses(spec_cookie_url(cookie@, true)) ==> res matches Err(Error::InvalidUrl),
            url_parses(spec_cookie_url(cookie@, true)) ==> (res is Ok || (res matches Err(Error::Internal(m)) && has_prefix(m@, "Failed to remove cookie: "@))),
            res is Err ==> final(self)@.cookies == old(self)@.cookies,
            res is Ok ==> stored_one(old(self)@.cookies, final(self)@.cookies),
            res is Ok ==> stored_from_line(old(self)@.cookies, final(self)@.cookies, spec_removal_line(cookie@)),
    {
        let url_str = cookie.storage_url(true);
        if parse_url(url_str.as_str()).is_none() {
            return Err(Error::InvalidUrl);
        }
        let expired_cookie = Self::removal_line(&cookie);
        proof {
            lemma_removal_line_expires(cookie@);
        }
        match store_parse(&mut self.store, expired_cookie.as_str(), url_str.as_str()) {
            Ok(()) => Ok(()),
            Err(e) => {
                let mut m = String::from_str("Failed to remove cookie: ");
                m.append(e.as_str());
                assert(m@ == "Failed to remove cookie: "@ + e@);
                Err(Error::Internal(m))
            },
        }
    }

    /// Clear all cookies from the jar.
    pub fn clear(&mut self)
        ensures
            final(self)@.cookies =~= Multiset::empty(),
            final(self)@.policy == old(self)@.policy,
            forall|u: Seq<char>| #[trigger] final(self).sends(u) =~= Multiset::empty(),
    {
        self.store = empty_store();
    }

    /// Set the cookie acceptance policy.
    pub fn set_cookie_accept_policy(&mut self, policy: CookieAcceptPolicy)
        ensures
            final(self)@.policy == policy,
            final(self)@.cookies == old(self)@.cookies,
            forall|u: Seq<char>| #[trigger] final(self).sends(u) == old(self).sends(u),
    {
        self.accept_policy = policy;
    }

    /// Get the current cookie acceptance policy.
    pub fn get_cookie_accept_policy(&self) -> (policy: CookieAcceptPolicy)
        ensures
            policy == self@.policy,
    {
        self.accept_policy
    }

    /// Store the cookies of the `set-cookie` fields of a response to the
    /// URL text; lines that do not parse are skipped. Under the `Never`
    /// policy nothing is stored.
    pub fn process_response_headers(&mut self, url: &str, headers: &Vec<HeaderPair>) -> (res: Result<(), Error>)
        ensures
            res is Ok,
            final(self)@.policy == old(self)@.policy,
            old(self)@.policy == CookieAcceptPolicy::Never ==> final(self)@.cookies == old(self)@.cookies,
            set_cookie_values(headers_view(headers@)).len() == 0 ==> final(self)@.cookies == old(self)@.cookies,
            from_lines(old(self)@.cookies, final(self)@.cookies, set_cookie_values(headers_view(headers@))),
            old(self)@.policy != CookieAcceptPolicy::Never ==> final(self).kept(set_cookie_values(headers_view(headers@)), url@),
    {
        let policy = self.get_cookie_accept_policy();
        if policy == CookieAcceptPolicy::Never {
            proof {
                lemma_from_lines_same(self@.cookies, set_cookie_values(headers_view(headers@)));
            }
            return Ok(());
        }
        let _ = store_set_cookie_fields(&mut self.store, url, headers);
        proof {
            let lines = set_cookie_values(headers_view(headers@));
            assert forall|k: int| 0 <= k < lines.len() && #[trigger] session_cookie_accepted(lines[k], url@) && last_of_name(lines, k)
                implies self.added(lines[k], url@) by {
                assert(accepted_effect(self.store, lines[k], url@));
            }
            assert(self.kept(lines, url@));
        }
        Ok(())
    }

    /// The `cookie` header field for a request to the URL text: made of
    /// stored cookies, among them every cookie the jar sends to the URL.
    pub fn get_cookies_for_url(&self, url: &str) -> (res: Result<Vec<HeaderPair>, Error>)
        ensures
            res matches Ok(h) && exists|pairs: Seq<(Seq<char>, Seq<char>)>|
                pairs_drawn_from(pairs, self@.cookies) && sends_all(pairs, self.sends(url@))
                    && headers_view(h@) == spec_cookie_headers(pairs),
    {
        Ok(request_cookie_fields(&self.store, url))
    }
}

} // verus!
