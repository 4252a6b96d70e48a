//! Response handling for Cronet responses: the status and header fields a
//! `UrlResponseInfo` reports, checked and gathered into plain values.

pub mod utils;

use vstd::prelude::*;
use vstd::string::*;
use crate::error::Error;
use crate::text::{signed_decimal, spec_signed_decimal};
use crate::wire::{HeaderPair, header_name_from_str, header_value_ok, header_value_valid, headers_view, spec_header_name, status_code_from_u16};

verus! {

/// A header entry as Cronet lists it: a name and all its values, in order.
pub struct HeaderEntry {
    /// Header name as received
    pub name: String,
    /// Header values as received
    pub values: Vec<String>,
}

impl View for HeaderEntry {
    type V = (Seq<char>, Seq<Seq<char>>);

    open spec fn view(&self) -> (Seq<char>, Seq<Seq<char>>) {
        (self.name@, self.values@.map_values(|s: String| s@))
    }
}

/// The abstract value of a list of header entries.
pub open spec fn entries_view(e: Seq<HeaderEntry>) -> Seq<(Seq<char>, Seq<Seq<char>>)> {
    e.map_values(|x: HeaderEntry| x@)
}

/// The message for an entry whose name `HeaderName::from_str` refuses.
pub open spec fn bad_name_message(k: Seq<char>) -> Seq<char> {
    "Invalid header name '"@ + k + "': "@ + "invalid HTTP header name"@
}

/// The message for a value of the entry named `k` that
/// `HeaderValue::from_str` refuses.
pub open spec fn bad_value_message(k: Seq<char>) -> Seq<char> {
    "Invalid header value for '"@ + k + "': "@ + "failed to parse header value"@
}

/// The fields the values `vals` of the entry named `k` give under the
/// normalized name `n`, in order, when every value is valid; else the
/// message for the first one that is not.
pub open spec fn spec_strict_values(k: Seq<char>, n: Seq<char>, vals: Seq<Seq<char>>) -> Result<Seq<(Seq<char>, Seq<char>)>, Seq<char>>
    decreases vals.len(),
{
    if vals.len() == 0 {
        Ok(Seq::empty())
    } else {
        match spec_strict_values(k, n, vals.drop_last()) {
            Ok(r) => if header_value_ok(vals.last()) {
                Ok(r.push((n, vals.last())))
            } else {
                Err(bad_value_message(k))
            },
            Err(m) => Err(m),
        }
    }
}

/// The fields of one entry when its name and values are valid: an entry
/// without values gives none, and its name is then not checked.
pub open spec fn spec_strict_entry(e: (Seq<char>, Seq<Seq<char>>)) -> Result<Seq<(Seq<char>, Seq<char>)>, Seq<char>> {
    if e.1.len() == 0 {
        Ok(Seq::empty())
    } else {
        match spec_header_name(e.0) {
            Some(n) => spec_strict_values(e.0, n, e.1),
            None => Err(bad_name_message(e.0)),
        }
    }
}

/// The fields of all entries, appended in order, or the message of the
/// first entry that has an invalid name or value.
pub open spec fn spec_strict_headers(entries: Seq<(Seq<char>, Seq<Seq<char>>)>) -> Result<Seq<(Seq<char>, Seq<char>)>, Seq<char>>
    decreases entries.len(),
{
    if entries.len() == 0 {
        Ok(Seq::empty())
    } else {
        match spec_strict_headers(entries.drop_last()) {
            Ok(h) => match spec_strict_entry(entries.last()) {
                Ok(f) => Ok(h + f),
                Err(m) => Err(m),
            },
            Err(m) => Err(m),
        }
    }
}

/// The fields of one entry (see `spec_strict_entry`).
fn strict_entry(entry: &HeaderEntry) -> (res: Result<Vec<HeaderPair>, String>)
    ensures
        match spec_strict_entry(entry@) {
            Ok(f) => res matches Ok(v) && headers_view(v@) == f,
            Err(m) => res matches Err(t) && t@ == m,
        },
{
    let mut out: Vec<HeaderPair> = Vec::new();
    if entry.values.len() == 0 {
        assert(headers_view(out@) =~= Seq::<(Seq<char>, Seq<char>)>::empty());
        return Ok(out);
    }
    let n = match header_name_from_str(entry.name.as_str()) {
        Ok(n) => n,
        Err(e) => {
            let mut m = String::from_str("Invalid header name '");
            m.append(entry.name.as_str());
            m.append("': ");
            m.append(e.as_str());
            return Err(m);
        },
    };
    let ghost k = entry@.0;
    let ghost vals = entry@.1;
    let mut i: usize = 0;
    assert(vals.take(0) =~= Seq::<Seq<char>>::empty());
    assert(headers_view(out@) =~= Seq::<(Seq<char>, Seq<char>)>::empty());
    while i < entry.values.len()
        invariant
            k == entry@.0,
            vals == entry@.1,
            vals.len() == entry.values@.len(),
            spec_header_name(k) == Some(n@),
            i <= entry.values@.len(),
            spec_strict_values(k, n@, vals.take(i as int)) == Ok::<Seq<(Seq<char>, Seq<char>)>, Seq<char>>(
                headers_view(out@),
            ),
        decreases entry.values.len() - i,
    {
        assert(vals.take(i + 1).drop_last() =~= vals.take(i as int));
        assert(vals.take(i + 1).last() == entry.values@[i as int]@);
        match header_value_valid(entry.values[i].as_str()) {
            Ok(()) => {
                let ghost before = out@;
                out.push(HeaderPair { name: n.clone(), value: entry.values[i].clone() });
                assert(headers_view(out@) =~= headers_view(before).push((n@, entry.values@[i as int]@)));
            },
            Err(e) => {
                let mut m = String::from_str("Invalid header value for '");
                m.append(entry.name.as_str());
                m.append("': ");
                m.append(e.as_str());
                proof {
                    lemma_strict_values_err(k, n@, vals, i as int + 1);
                }
                return Err(m);
            },
        }
        i += 1;
    }
    assert(vals.take(vals.len() as int) =~= vals);
    Ok(out)
}

/// Once a prefix of the values fails, every longer prefix fails alike.
proof fn lemma_strict_values_err(k: Seq<char>, n: Seq<char>, vals: Seq<Seq<char>>, i: int)
    requires
        0 < i <= vals.len(),
        spec_strict_values(k, n, vals.take(i)) is Err,
    ensures
        spec_strict_values(k, n, vals) == spec_strict_values(k, n, vals.take(i)),
    decreases vals.len() - i,
{
    if i < vals.len() {
        assert(vals.take(i + 1).drop_last() =~= vals.take(i));
        lemma_strict_values_err(k, n, vals, i + 1);
    } else {
        assert(vals.take(i) =~= vals);
    }
}

/// Once a prefix of the entries fails, every longer prefix fails alike.
proof fn lemma_strict_headers_err(entries: Seq<(Seq<char>, Seq<Seq<char>>)>, i: int)
    requires
        0 < i <= entries.len(),
        spec_strict_headers(entries.take(i)) is Err,
    ensures
        spec_strict_headers(entries) == spec_strict_headers(entries.take(i)),
    decreases entries.len() - i,
{
    if i < entries.len() {
        assert(entries.take(i + 1).drop_last() =~= entries.take(i));
        lemma_strict_headers_err(entries, i + 1);
    } else {
        assert(entries.take(i) =~= entries);
    }
}

/// The header fields of Cronet's entries when every name and value is
/// valid (see `spec_strict_headers`); otherwise the internal error with
/// the message of the first invalid one.
pub fn strict_headers(entries: &Vec<HeaderEntry>) -> (res: Result<Vec<HeaderPair>, Error>)
    ensures
        match spec_strict_headers(entries_view(entries@)) {
            Ok(h) => res matches Ok(v) && headers_view(v@) == h,
            Err(m) => res matches Err(Error::Internal(t)) && t@ == m,
        },
{
    let ghost ev = entries_view(entries@);
    let mut out: Vec<HeaderPair> = Vec::new();
    let mut i: usize = 0;
    assert(ev.take(0) =~= Seq::<(Seq<char>, Seq<Seq<char>>)>::empty());
    assert(headers_view(out@) =~= Seq::<(Seq<char>, Seq<char>)>::empty());
    while i < entries.len()
        invariant
            ev == entries_view(entries@),
            ev.len() == entries@.len(),
            i <= entries@.len(),
            spec_strict_headers(ev.take(i as int)) == Ok::<Seq<(Seq<char>, Seq<char>)>, Seq<char>>(
                headers_view(out@),
            ),
        decreases entries.len() - i,
    {
        assert(ev.take(i + 1).drop_last() =~= ev.take(i as int));
        assert(ev.take(i + 1).last() == entries@[i as int]@);
        match strict_entry(&entries[i]) {
            Ok(f) => {
                let ghost before = out@;
                let ghost fv = f@;
                let mut f = f;
                out.append(&mut f);
                assert(headers_view(out@) =~= headers_view(before) + headers_view(fv));
            },
            Err(m) => {
                proof {
                    lemma_strict_headers_err(ev, i as int + 1);
                }
                return Err(Error::Internal(m));
            },
        }
        i += 1;
    }
    assert(ev.take(ev.len() as int) =~= ev);
    Ok(out)
}

/// Response information from Cronet's `UrlResponseInfo`.
pub struct ResponseInfo {
    /// HTTP status code
    pub status: u16,
    /// Header fields, in the order Cronet lists them
    pub headers: Vec<HeaderPair>,
    /// Whether the response came from the cache
    pub was_cached: bool,
    /// The negotiated protocol
    pub negotiated_protocol: String,
    /// Bytes received
    pub received_byte_count: i64,
}

impl ResponseInfo {
    /// The response information of the values read from a
    /// `UrlResponseInfo`. The status code is cut to 16 bits and must lie
    /// in 100 to 999 (`StatusCode::from_u16`); the header entries must all
    /// be valid (see `strict_headers`). Each failure is an internal error.
    pub fn from_parts(
        status_code: i32,
        entries: Vec<HeaderEntry>,
        was_cached: bool,
        negotiated_protocol: String,
        received_byte_count: i64,
    ) -> (res: Result<ResponseInfo, Error>)
        ensures
            !(100 <= status_code as u16 <= 999) ==> (res matches Err(Error::Internal(m)) && m@
                == "Invalid HTTP status code "@ + spec_signed_decimal(status_code as int) + ": "@
                + "invalid status code"@),
            100 <= status_code as u16 <= 999 ==> match spec_strict_headers(entries_view(entries@)) {
                Ok(h) => res matches Ok(r) && r.status == status_code as u16 && headers_view(r.headers@) == h
                    && r.was_cached == was_cached && r.negotiated_protocol@ == negotiated_protocol@
                    && r.received_byte_count == received_byte_count,
                Err(m) => res matches Err(Error::Internal(t)) && t@ == m,
            },
    {
        let status = match status_code_from_u16(status_code as u16) {
            Ok(s) => s,
            Err(e) => {
                let mut m = String::from_str("Invalid HTTP status code ");
                let d = signed_decimal(status_code as i64);
                m.append(d.as_str());
                m.append(": ");
                m.append(e.as_str());
                return Err(Error::Internal(m));
            },
        };
        let headers = match strict_headers(&entries) {
            Ok(h) => h,
            Err(e) => return Err(e),
        };
        Ok(ResponseInfo { status, headers, was_cached, negotiated_protocol, received_byte_count })
    }
}

} // verus!
