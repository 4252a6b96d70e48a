//! URLs and header fields as the library handles them: the `url` and
//! `http` crates parse and validate, the library keeps plain values.

use vstd::prelude::*;
use vstd::string::*;

verus! {

#[verifier::external_type_specification]
#[verifier::external_body]
pub struct ExUrl(url::Url);

/// Whether `url::Url::parse` accepts the text (the WHATWG URL parser; its
/// result depends on the text alone).
pub uninterp spec fn url_parses(s: Seq<char>) -> bool;

/// Parses an absolute URL with `url::Url::parse`.
#[verifier::external_body]
pub fn parse_url(s: &str) -> (res: Option<url::Url>)
    ensures
        res is Some <==> url_parses(s@),
{
    url::Url::parse(s).ok()
}

/// The text of a parsed URL (`Url::as_str`, its serialization, which
/// parses again to the same URL).
#[verifier::external_body]
pub(crate) fn url_text(url: &url::Url) -> (s: String)
    ensures
        url_parses(s@),
{
    url.as_str().to_string()
}

/// The scheme of a URL as `url::Url::scheme` gives it for the parsed
/// text (the WHATWG parser lower-cases it).
pub uninterp spec fn url_scheme_of(s: Seq<char>) -> Seq<char>;

/// Parses the text with `url::Url::parse` and gives its scheme
/// (`Url::scheme`).
#[verifier::external_body]
pub fn url_scheme(s: &str) -> (res: Option<String>)
    ensures
        res is Some <==> url_parses(s@),
        res matches Some(x) ==> x@ == url_scheme_of(s@),
{
    url::Url::parse(s).ok().map(|u| u.scheme().to_string())
}

/// A byte that `http::HeaderValue` accepts: visible ASCII, space, tab and
/// every byte of 128 and above (only the other control bytes and DEL are
/// refused).
pub open spec fn header_value_byte_ok(b: u8) -> bool {
    (b >= 32 && b != 127) || b == 9
}

/// Whether `http::HeaderValue::from_str` accepts the text: every byte of
/// its UTF-8 encoding is accepted.
pub open spec fn header_value_ok(s: Seq<char>) -> bool {
    forall|i: int|
        0 <= i < vstd::utf8::encode_utf8(s).len() ==> header_value_byte_ok(
            #[trigger] vstd::utf8::encode_utf8(s)[i],
        )
}

/// Checks a header value with `http::HeaderValue::from_str`: `Ok` when it
/// is accepted, else the text of the error (`InvalidHeaderValue`'s
/// `Display`).
#[verifier::external_body]
pub fn header_value_valid(s: &str) -> (res: Result<(), String>)
    ensures
        res is Ok <==> header_value_ok(s@),
        res matches Err(t) ==> t@ == "failed to parse header value"@,
{
    http::HeaderValue::from_str(s).map(|_| ()).map_err(|e| e.to_string())
}

/// A token character of a header name (RFC 9110 `tchar`).
pub open spec fn header_name_char_ok(c: char) -> bool {
    ('a' <= c && c <= 'z') || ('A' <= c && c <= 'Z') || ('0' <= c && c <= '9') || c == '!'
        || c == '#' || c == '$' || c == '%' || c == '&' || c == '\'' || c == '*' || c == '+'
        || c == '-' || c == '.' || c == '^' || c == '_' || c == '`' || c == '|' || c == '~'
}

/// The lower-case form of an ASCII character.
pub open spec fn ascii_lower(c: char) -> char {
    if 'A' <= c && c <= 'Z' {
        ((c as u32) + 32) as char
    } else {
        c
    }
}

/// The header name that `http::HeaderName::from_bytes` makes of the text:
/// a name of 1 to 65535 token characters, lower-cased; `None` otherwise.
pub open spec fn spec_header_name(s: Seq<char>) -> Option<Seq<char>> {
    if 1 <= s.len() <= 65535 && (forall|i: int| 0 <= i < s.len() ==> header_name_char_ok(
        #[trigger] s[i],
    )) {
        Some(s.map_values(|c: char| ascii_lower(c)))
    } else {
        None
    }
}

/// Normalizes a header name with `http::HeaderName::try_from`.
#[verifier::external_body]
pub fn header_name_normalized(s: &str) -> (res: Option<String>)
    ensures
        res matches Some(n) ==> spec_header_name(s@) == Some(n@),
        res is None ==> spec_header_name(s@) is None,
{
    http::HeaderName::try_from(s).ok().map(|n| n.as_str().to_string())
}

/// Parses a header name with `http::HeaderName::from_str`: the
/// normalized name, or the text of the error (`InvalidHeaderName`'s
/// `Display`).
#[verifier::external_body]
pub fn header_name_from_str(s: &str) -> (res: Result<String, String>)
    ensures
        res matches Ok(n) ==> spec_header_name(s@) == Some(n@),
        res matches Err(t) ==> spec_header_name(s@) is None && t@ == "invalid HTTP header name"@,
{
    <http::HeaderName as std::str::FromStr>::from_str(s).map(|n| n.as_str().to_string()).map_err(|e| e.to_string())
}

/// Parses the UTF-8 bytes of a header name with
/// `http::HeaderName::from_bytes`: the normalized name, if valid.
#[verifier::external_body]
pub fn header_name_from_bytes(s: &str) -> (res: Option<String>)
    ensures
        res matches Some(n) ==> spec_header_name(s@) == Some(n@),
        res is None ==> spec_header_name(s@) is None,
{
    http::HeaderName::from_bytes(s.as_bytes()).ok().map(|n| n.as_str().to_string())
}

/// Checks a status code with `http::StatusCode::from_u16`: the code when
/// it lies in 100 to 999, else the text of the error
/// (`InvalidStatusCode`'s `Display`).
#[verifier::external_body]
pub fn status_code_from_u16(code: u16) -> (res: Result<u16, String>)
    ensures
        res matches Ok(s) ==> s == code && 100 <= code <= 999,
        res matches Err(t) ==> !(100 <= code <= 999) && t@ == "invalid status code"@,
{
    http::StatusCode::from_u16(code).map(|s| s.as_u16()).map_err(|e| e.to_string())
}

/// One header field: a lower-case name and its value.
pub struct HeaderPair {
    /// Header name (lower case)
    pub name: String,
    /// Header value
    pub value: String,
}

impl View for HeaderPair {
    type V = (Seq<char>, Seq<char>);

    open spec fn view(&self) -> (Seq<char>, Seq<char>) {
        (self.name@, self.value@)
    }
}

/// The abstract value of a list of header fields.
pub open spec fn headers_view(h: Seq<HeaderPair>) -> Seq<(Seq<char>, Seq<char>)> {
    h.map_values(|p: HeaderPair| p@)
}

/// Whether two strings hold the same characters.
pub fn str_eq(a: &str, b: &str) -> (r: bool)
    ensures
        r == (a@ == b@),
{
    let x = crate::text::chars_of(a);
    let y = crate::text::chars_of(b);
    if x.len() != y.len() {
        return false;
    }
    let mut i: usize = 0;
    while i < x.len()
        invariant
            x@ == a@,
            y@ == b@,
            x.len() == y.len(),
            i <= x.len(),
            forall|j: int| 0 <= j < i ==> x@[j] == y@[j],
        decreases x.len() - i,
    {
        if x[i] != y[i] {
            return false;
        }
        i += 1;
    }
    assert(x@ =~= y@);
    true
}

/// The index of the first field named `n`, if any.
pub open spec fn header_index(h: Seq<(Seq<char>, Seq<char>)>, n: Seq<char>) -> Option<int>
    decreases h.len(),
{
    if h.len() == 0 {
        None
    } else if h[0].0 == n {
        Some(0)
    } else {
        match header_index(h.drop_first(), n) {
            Some(i) => Some(i + 1),
            None => None,
        }
    }
}

/// The fields after setting `n` to `v` the way `HeaderMap::insert` does:
/// an existing field of that name keeps its place and takes the new
/// value; otherwise the field is appended.
pub open spec fn spec_insert_header(h: Seq<(Seq<char>, Seq<char>)>, n: Seq<char>, v: Seq<char>) -> Seq<(Seq<char>, Seq<char>)> {
    match header_index(h, n) {
        Some(i) => h.update(i, (n, v)),
        None => h.push((n, v)),
    }
}

/// The value of the first field named `n`, if any.
pub open spec fn header_lookup(h: Seq<(Seq<char>, Seq<char>)>, n: Seq<char>) -> Option<Seq<char>> {
    match header_index(h, n) {
        Some(i) => Some(h[i].1),
        None => None,
    }
}

proof fn lemma_header_index_prefix(h: Seq<(Seq<char>, Seq<char>)>, n: Seq<char>, i: int)
    requires
        0 <= i <= h.len(),
        forall|j: int| 0 <= j < i ==> #[trigger] h[j].0 != n,
    ensures
        i < h.len() && h[i].0 == n ==> header_index(h, n) == Some(i),
        i == h.len() ==> header_index(h, n) is None,
    decreases i,
{
    if i > 0 {
        assert forall|j: int| 0 <= j < i - 1 implies #[trigger] h.drop_first()[j].0 != n by {
            assert(h.drop_first()[j] == h[j + 1]);
        }
        lemma_header_index_prefix(h.drop_first(), n, i - 1);
    }
}

/// The value of the first field named `name` (see `header_lookup`).
pub fn lookup_header(h: &Vec<HeaderPair>, name: &str) -> (r: Option<String>)
    ensures
        match r {
            Some(v) => header_lookup(headers_view(h@), name@) == Some(v@),
            None => header_lookup(headers_view(h@), name@) is None,
        },
{
    let ghost hv = headers_view(h@);
    let mut i: usize = 0;
    while i < h.len()
        invariant
            hv == headers_view(h@),
            i <= h@.len(),
            forall|j: int| 0 <= j < i ==> #[trigger] hv[j].0 != name@,
        decreases h.len() - i,
    {
        assert(hv[i as int] == h@[i as int]@);
        if str_eq(h[i].name.as_str(), name) {
            proof {
                lemma_header_index_prefix(hv, name@, i as int);
            }
            return Some(h[i].value.clone());
        }
        i += 1;
    }
    proof {
        lemma_header_index_prefix(hv, name@, i as int);
    }
    None
}

/// Setting a field and reading it back: the field set reads as the new
/// value, every other field reads as before, and a list in which no name
/// occurs twice keeps that property.
pub proof fn law_insert_then_lookup(h: Seq<(Seq<char>, Seq<char>)>, n: Seq<char>, v: Seq<char>, other: Seq<char>)
    ensures
        header_lookup(spec_insert_header(h, n, v), n) == Some(v),
        other != n ==> header_lookup(spec_insert_header(h, n, v), other) == header_lookup(h, other),
        names_unique(h) ==> names_unique(spec_insert_header(h, n, v)),
{
    lemma_header_index_bounds(h, n);
    lemma_header_index_bounds(h, other);
    match header_index(h, n) {
        Some(i) => {
            let g = h.update(i, (n, v));
            lemma_index_after_update(h, i, n, v, n);
            lemma_index_after_update(h, i, n, v, other);
            if names_unique(h) {
                assert forall|a: int, b: int| 0 <= a < b < g.len() implies #[trigger] g[a].0 != #[trigger] g[b].0 by {
                    assert(h[i].0 == n);
                    if a != i && b != i {
                        assert(g[a] == h[a] && g[b] == h[b]);
                    } else if a == i {
                        assert(g[b] == h[b]);
                        assert(h[a].0 != h[b].0);
                    } else {
                        assert(g[a] == h[a]);
                        assert(h[a].0 != h[b].0);
                    }
                }
            }
        },
        None => {
            let g = h.push((n, v));
            lemma_index_after_push(h, n, v, n);
            lemma_index_after_push(h, n, v, other);
            if names_unique(h) {
                assert forall|a: int, b: int| 0 <= a < b < g.len() implies #[trigger] g[a].0 != #[trigger] g[b].0 by {
                    if b == h.len() {
                        lemma_header_index_none(h, n, a);
                    }
                }
            }
        },
    }
}

/// Whether no name occurs twice.
pub open spec fn names_unique(h: Seq<(Seq<char>, Seq<char>)>) -> bool {
    forall|a: int, b: int| 0 <= a < b < h.len() ==> #[trigger] h[a].0 != #[trigger] h[b].0
}

proof fn lemma_header_index_bounds(h: Seq<(Seq<char>, Seq<char>)>, n: Seq<char>)
    ensures
        header_index(h, n) matches Some(i) ==> 0 <= i < h.len() && h[i].0 == n,
    decreases h.len(),
{
    if h.len() > 0 && h[0].0 != n {
        lemma_header_index_bounds(h.drop_first(), n);
    }
}

proof fn lemma_header_index_none(h: Seq<(Seq<char>, Seq<char>)>, n: Seq<char>, j: int)
    requires
        header_index(h, n) is None,
        0 <= j < h.len(),
    ensures
        h[j].0 != n,
    decreases h.len(),
{
    if j > 0 {
        assert(h[0].0 != n);
        assert(h.drop_first()[j - 1] == h[j]);
        lemma_header_index_none(h.drop_first(), n, j - 1);
    }
}

proof fn lemma_index_after_update(h: Seq<(Seq<char>, Seq<char>)>, i: int, n: Seq<char>, v: Seq<char>, m: Seq<char>)
    requires
        header_index(h, n) == Some(i),
    ensures
        m == n ==> header_index(h.update(i, (n, v)), m) == Some(i),
        m != n ==> header_index(h.update(i, (n, v)), m) == header_index(h, m),
    decreases h.len(),
{
    lemma_header_index_bounds(h, n);
    let g = h.update(i, (n, v));
    if i > 0 {
        assert(h[0].0 != n);
        assert(g.drop_first() =~= h.drop_first().update(i - 1, (n, v)));
        assert(g[0] == h[0]);
        lemma_index_after_update(h.drop_first(), i - 1, n, v, m);
    } else {
        assert(g[0] == (n, v));
        assert(g.drop_first() =~= h.drop_first());
    }
}

proof fn lemma_index_after_push(h: Seq<(Seq<char>, Seq<char>)>, n: Seq<char>, v: Seq<char>, m: Seq<char>)
    requires
        header_index(h, n) is None,
    ensures
        m == n ==> header_index(h.push((n, v)), m) == Some(h.len() as int),
        m != n ==> header_index(h.push((n, v)), m) == header_index(h, m),
    decreases h.len(),
{
    let g = h.push((n, v));
    if h.len() == 0 {
        assert(g[0] == (n, v));
        assert(g.drop_first() =~= Seq::<(Seq<char>, Seq<char>)>::empty());
        assert(header_index(g.drop_first(), m) is None);
        assert(header_index(h, m) is None);
    } else {
        assert(h[0].0 != n);
        assert(g[0] == h[0]);
        assert(g.drop_first() =~= h.drop_first().push((n, v)));
        lemma_index_after_push(h.drop_first(), n, v, m);
    }
}

/// Sets the field `name` to `value` (see `spec_insert_header`).
pub fn insert_header(h: &mut Vec<HeaderPair>, name: String, value: String)
    ensures
        headers_view(final(h)@) == spec_insert_header(headers_view(old(h)@), name@, value@),
{
    let ghost hv = headers_view(h@);
    let mut i: usize = 0;
    while i < h.len()
        invariant
            hv == headers_view(h@),
            hv == headers_view(old(h)@),
            i <= h@.len(),
            forall|j: int| 0 <= j < i ==> #[trigger] hv[j].0 != name@,
        decreases h.len() - i,
    {
        assert(hv[i as int] == h@[i as int]@);
        if str_eq(h[i].name.as_str(), name.as_str()) {
            proof {
                lemma_header_index_prefix(hv, name@, i as int);
            }
            h.set(i, HeaderPair { name, value });
            assert(headers_view(h@) =~= hv.update(i as int, (name@, value@)));
            return;
        }
        assert(hv[i as int].0 == h@[i as int].name@);
        i += 1;
    }
    proof {
        lemma_header_index_prefix(hv, name@, i as int);
    }
    h.push(HeaderPair { name, value });
    assert(headers_view(h@) =~= hv.push((name@, value@)));
}

/// A copy of a string.
pub fn copy_string(s: &String) -> (r: String)
    ensures
        r@ == s@,
{
    s.clone()
}

} // verus!
