//! Reading the header fields and status of a response.

use vstd::prelude::*;
use vstd::string::*;
use crate::backend::cookie_store::{is_visible_ascii, visible_ascii};
use crate::text::{before_char, chars_of, contains_sub, find_char, find_in, find_sub, parse_u64, spec_parse_u64, str_find, string_from_chars, trim_range, trim_ws};
use crate::wire::{HeaderPair, ascii_lower, header_lookup, headers_view, lookup_header};

verus! {

/// Whether the status is a success (2xx).
pub fn is_success_status(status: u16) -> (r: bool)
    ensures
        r == (200 <= status < 300),
{
    200 <= status && status < 300
}

/// Whether the status is a redirection (3xx).
pub fn is_redirect_status(status: u16) -> (r: bool)
    ensures
        r == (300 <= status < 400),
{
    300 <= status && status < 400
}

/// The text of the first field named `name`, when it reads as text
/// (`HeaderMap::get` then `HeaderValue::to_str`).
pub open spec fn header_text(h: Seq<(Seq<char>, Seq<char>)>, name: Seq<char>) -> Option<Seq<char>> {
    match header_lookup(h, name) {
        Some(v) => if visible_ascii(v) { Some(v) } else { None },
        None => None,
    }
}

/// The text of the first field named `name` (see `header_text`).
fn get_text(headers: &Vec<HeaderPair>, name: &str) -> (r: Option<String>)
    ensures
        match r {
            Some(v) => header_text(headers_view(headers@), name@) == Some(v@),
            None => header_text(headers_view(headers@), name@) is None,
        },
{
    match lookup_header(headers, name) {
        Some(v) => if is_visible_ascii(v.as_str()) { Some(v) } else { None },
        None => None,
    }
}

/// The `content-type` field's text.
pub fn get_content_type(headers: &Vec<HeaderPair>) -> (r: Option<String>)
    ensures
        match r {
            Some(v) => header_text(headers_view(headers@), "content-type"@) == Some(v@),
            None => header_text(headers_view(headers@), "content-type"@) is None,
        },
{
    get_text(headers, "content-type")
}

/// The `content-length` field as a number: its text parsed as an
/// unsigned decimal.
pub fn get_content_length(headers: &Vec<HeaderPair>) -> (r: Option<u64>)
    ensures
        r == match header_text(headers_view(headers@), "content-length"@) {
            Some(t) => spec_parse_u64(t),
            None => None,
        },
{
    match get_text(headers, "content-length") {
        Some(t) => parse_u64(t.as_str()),
        None => None,
    }
}

/// The `content-encoding` field's text.
pub fn get_content_encoding(headers: &Vec<HeaderPair>) -> (r: Option<String>)
    ensures
        match r {
            Some(v) => header_text(headers_view(headers@), "content-encoding"@) == Some(v@),
            None => header_text(headers_view(headers@), "content-encoding"@) is None,
        },
{
    get_text(headers, "content-encoding")
}

/// The text in lower case (ASCII letters; the header texts read here are
/// ASCII, for which this is `str::to_lowercase`).
pub open spec fn lower(s: Seq<char>) -> Seq<char> {
    s.map_values(|c: char| ascii_lower(c))
}

/// Lower-cases ASCII letters.
fn to_lower(s: &str) -> (r: String)
    ensures
        r@ == lower(s@),
{
    let v = chars_of(s);
    let mut r = String::new();
    let mut i: usize = 0;
    while i < v.len()
        invariant
            v@ == s@,
            i <= v@.len(),
            r@ == lower(s@.take(i as int)),
        decreases v.len() - i,
    {
        let c = v[i];
        let l = if 'A' <= c && c <= 'Z' { ((c as u32) + 32) as u8 as char } else { c };
        proof {
            if 'A' <= c && c <= 'Z' {
                assert((((c as u32) + 32) as u8 as char) == ((c as u32) + 32) as char);
            }
        }
        r.push(l);
        assert(lower(s@.take(i + 1)) =~= lower(s@.take(i as int)).push(ascii_lower(c)));
        i += 1;
    }
    assert(s@.take(v@.len() as int) =~= s@);
    r
}

/// Whether the body is compressed: the `content-encoding` text, in lower
/// case, mentions `gzip`, `deflate` or `br`.
pub open spec fn spec_is_compressed(h: Seq<(Seq<char>, Seq<char>)>) -> bool {
    match header_text(h, "content-encoding"@) {
        Some(e) => contains_sub(lower(e), "gzip"@) || contains_sub(lower(e), "deflate"@) || contains_sub(lower(e), "br"@),
        None => false,
    }
}

/// Whether the response is compressed (see `spec_is_compressed`).
pub fn is_compressed(headers: &Vec<HeaderPair>) -> (r: bool)
    ensures
        r == spec_is_compressed(headers_view(headers@)),
{
    match get_content_encoding(headers) {
        Some(e) => {
            let l = to_lower(e.as_str());
            str_find(l.as_str(), "gzip").is_some() || str_find(l.as_str(), "deflate").is_some() || str_find(
                l.as_str(),
                "br",
            ).is_some()
        },
        None => false,
    }
}

/// The filename a `content-disposition` text names: what follows the
/// first `filename=`; when that starts with `"` and is longer than one
/// character, the text up to the next `"`, otherwise the text up to the
/// next `;`, trimmed.
pub open spec fn spec_disposition_filename(d: Seq<char>) -> Option<Seq<char>> {
    match find_sub(d, "filename="@) {
        Some(k) => {
            let part = d.skip(k + 9);
            if part.len() > 1 && part[0] == '"' {
                Some(before_char(part.skip(1), '"'))
            } else {
                Some(trim_ws(before_char(part, ';')))
            }
        },
        None => None,
    }
}

/// The filename named by the `content-disposition` field, if any.
pub fn get_filename_from_content_disposition(headers: &Vec<HeaderPair>) -> (r: Option<String>)
    ensures
        match r {
            Some(f) => (match header_text(headers_view(headers@), "content-disposition"@) {
                Some(d) => spec_disposition_filename(d) == Some(f@),
                None => false,
            }),
            None => (match header_text(headers_view(headers@), "content-disposition"@) {
                Some(d) => spec_disposition_filename(d) is None,
                None => true,
            }),
        },
{
    let d = match get_text(headers, "content-disposition") {
        Some(d) => d,
        None => return None,
    };
    proof {
        reveal_strlit("filename=");
    }
    let k = match str_find(d.as_str(), "filename=") {
        Some(k) => k,
        None => return None,
    };
    let v = chars_of(d.as_str());
    let start = k + 9;
    let ghost part = d@.skip(start as int);
    assert(part =~= v@.subrange(start as int, v@.len() as int));
    if v.len() - start > 1 && v[start] == '"' {
        let ghost inner = part.skip(1);
        assert(inner =~= v@.subrange(start + 1, v@.len() as int));
        match find_in(&v, start + 1, v.len(), '"') {
            Some(q) => {
                assert(inner.take(q as int) =~= v@.subrange(start + 1, start + 1 + q));
                Some(string_from_chars(&v, start + 1, start + 1 + q))
            },
            None => Some(string_from_chars(&v, start + 1, v.len())),
        }
    } else {
        match find_in(&v, start, v.len(), ';') {
            Some(q) => {
                assert(part.take(q as int) =~= v@.subrange(start as int, start + q));
                Some(trim_range(&v, start, start + q))
            },
            None => Some(trim_range(&v, start, v.len())),
        }
    }
}

} // verus!
