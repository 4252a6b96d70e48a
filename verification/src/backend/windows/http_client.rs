//! WinHTTP request logic: the request a `BackendRequest` becomes, the
//! reading of raw response headers, and what the status callback does on
//! each notification. The Windows calls themselves are made by the
//! transport, which reports each notification here and carries out the
//! returned actions.

use vstd::prelude::*;
use vstd::string::*;
use crate::backend::cookie_store::{from_lines, set_cookie_values, visible_ascii, is_visible_ascii};
use crate::backend::windows::cookies::WindowsCookieStorage;
use crate::body::{Body, BodyView, form_encode, json_to_vec, spec_body_bytes, spec_form_body};
use crate::error::Error;
use crate::text::{chars_of, contains_sub, decimal, find_char, find_in, spec_decimal, split_on, str_find, trim_range, trim_ws};
use crate::wire::{HeaderPair, header_name_normalized, header_value_ok, header_value_valid, headers_view, insert_header, spec_header_name, spec_insert_header, str_eq, url_parses};
use crate::backend::android::response::utils::lower;

verus! {

/// Request state for the asynchronous WinHTTP operations.
#[derive(Clone, Copy, PartialEq, Eq, Structural, Debug)]
pub enum RequestState {
    /// 0: connecting
    Connecting,
    /// 1: the request is sent
    Sending,
    /// 2: the response headers arrived
    HeadersReceived,
    /// 3: the body is being read
    ReadingData,
    /// 4: done
    Complete,
    /// 5: failed
    Error,
}

/// The number a state is stored as.
pub open spec fn spec_state_number(s: RequestState) -> u8 {
    match s {
        RequestState::Connecting => 0,
        RequestState::Sending => 1,
        RequestState::HeadersReceived => 2,
        RequestState::ReadingData => 3,
        RequestState::Complete => 4,
        RequestState::Error => 5,
    }
}

/// The state a stored number stands for; numbers above 4 read as `Error`.
pub open spec fn spec_state_of(v: u8) -> RequestState {
    if v == 0 {
        RequestState::Connecting
    } else if v == 1 {
        RequestState::Sending
    } else if v == 2 {
        RequestState::HeadersReceived
    } else if v == 3 {
        RequestState::ReadingData
    } else if v == 4 {
        RequestState::Complete
    } else {
        RequestState::Error
    }
}

impl RequestState {
    /// The state a stored number stands for.
    pub fn from_u8(value: u8) -> (s: Self)
        ensures
            s == spec_state_of(value),
    {
        match value {
            0 => RequestState::Connecting,
            1 => RequestState::Sending,
            2 => RequestState::HeadersReceived,
            3 => RequestState::ReadingData,
            4 => RequestState::Complete,
            _ => RequestState::Error,
        }
    }

    /// The number the state is stored as.
    pub fn to_u8(self) -> (v: u8)
        ensures
            v == spec_state_number(self),
    {
        match self {
            RequestState::Connecting => 0,
            RequestState::Sending => 1,
            RequestState::HeadersReceived => 2,
            RequestState::ReadingData => 3,
            RequestState::Complete => 4,
            RequestState::Error => 5,
        }
    }
}

/// A state survives being stored as a number and read back, and a stored
/// number up to 5 survives being read as a state and stored again.
pub proof fn law_state_roundtrip(s: RequestState, v: u8)
    ensures
        spec_state_of(spec_state_number(s)) == s,
        v <= 5 ==> spec_state_number(spec_state_of(v)) == v,
{
}

/// `l` without one trailing carriage return.
pub open spec fn strip_cr(l: Seq<char>) -> Seq<char> {
    if l.len() > 0 && l.last() == '\r' { l.drop_last() } else { l }
}

/// The lines of a text (`str::lines`): split at `\n`, each line ending in
/// `\r\n` loses its `\r`, and a final empty line is not counted.
pub open spec fn spec_lines(s: Seq<char>) -> Seq<Seq<char>> {
    let pieces = split_on(s, '\n');
    let init = pieces.drop_last().map_values(|l: Seq<char>| strip_cr(l));
    if pieces.last().len() == 0 { init } else { init.push(pieces.last()) }
}

/// The views of a list of strings.
pub open spec fn strings_view(v: Seq<String>) -> Seq<Seq<char>> {
    v.map_values(|s: String| s@)
}

/// The lines of a text (see `spec_lines`).
pub fn lines_of(text: &str) -> (lines: Vec<String>)
    ensures
        strings_view(lines@) == spec_lines(text@),
{
    let v = chars_of(text);
    let ghost h = v@;
    let mut lines: Vec<String> = Vec::new();
    let ghost mut done: Seq<Seq<char>> = Seq::empty();
    let mut piece_start: usize = 0;
    let mut i: usize = 0;
    assert(h.take(0) =~= Seq::<char>::empty());
    assert(split_on(h.take(0), '\n') =~= done.push(h.subrange(0, 0)));
    while i < v.len()
        invariant
            h == v@,
            h == text@,
            piece_start <= i <= v@.len(),
            split_on(h.take(i as int), '\n') == done.push(h.subrange(piece_start as int, i as int)),
            strings_view(lines@) == done.map_values(|l: Seq<char>| strip_cr(l)),
        decreases v.len() - i,
    {
        let ghost prev = split_on(h.take(i as int), '\n');
        assert(h.take(i + 1).drop_last() =~= h.take(i as int));
        assert(h.take(i + 1).last() == h[i as int]);
        if v[i] == '\n' {
            let ghost piece = h.subrange(piece_start as int, i as int);
            let end = if i > piece_start && v[i - 1] == '\r' { i - 1 } else { i };
            let line = crate::text::string_from_chars(&v, piece_start, end);
            proof {
                if i > piece_start && v@[i - 1] == '\r' {
                    assert(piece.last() == v@[i - 1]);
                    assert(h.subrange(piece_start as int, end as int) =~= piece.drop_last());
                } else {
                    assert(h.subrange(piece_start as int, end as int) =~= piece);
                }
                assert(line@ == strip_cr(piece));
            }
            let ghost before = lines@;
            lines.push(line);
            proof {
                assert(split_on(h.take(i + 1), '\n') == prev.push(Seq::empty()));
                assert(strings_view(lines@) =~= strings_view(before).push(line@));
                assert(done.push(piece).map_values(|l: Seq<char>| strip_cr(l)) =~= done.map_values(
                    |l: Seq<char>| strip_cr(l),
                ).push(strip_cr(piece)));
                done = done.push(piece);
                assert(h.subrange(i + 1, i + 1) =~= Seq::<char>::empty());
                assert(split_on(h.take(i + 1), '\n') =~= done.push(h.subrange(i + 1, i + 1)));
            }
            piece_start = i + 1;
        } else {
            assert(split_on(h.take(i + 1), '\n') == prev.update(prev.len() - 1, prev.last().push(h[i as int])));
            assert(h.subrange(piece_start as int, i + 1) =~= h.subrange(piece_start as int, i as int).push(h[i as int]));
            assert(split_on(h.take(i + 1), '\n') =~= done.push(h.subrange(piece_start as int, i + 1)));
        }
        i += 1;
    }
    proof {
        assert(h.take(h.len() as int) =~= h);
        let pieces = split_on(h, '\n');
        assert(pieces.drop_last() =~= done);
        assert(pieces.last() == h.subrange(piece_start as int, h.len() as int));
    }
    if piece_start < v.len() {
        let ghost before = lines@;
        let last = crate::text::string_from_chars(&v, piece_start, v.len());
        lines.push(last);
        assert(strings_view(lines@) =~= strings_view(before).push(last@));
    }
    lines
}

/// The field a raw header line holds: the text before its first `:` and
/// the text after it, both trimmed; none for a line without `:`.
pub open spec fn spec_header_line(l: Seq<char>) -> Option<(Seq<char>, Seq<char>)> {
    match find_char(l, ':') {
        Some(k) => Some((trim_ws(l.take(k)), trim_ws(l.skip(k + 1)))),
        None => None,
    }
}

/// The field a raw header line holds (see `spec_header_line`).
fn header_line(line: &str) -> (r: Option<(String, String)>)
    ensures
        match r {
            Some((n, v)) => spec_header_line(line@) == Some((n@, v@)),
            None => spec_header_line(line@) is None,
        },
{
    let v = chars_of(line);
    assert(v@.subrange(0, v@.len() as int) =~= v@);
    match find_in(&v, 0, v.len(), ':') {
        Some(k) => {
            let name = trim_range(&v, 0, k);
            let value = trim_range(&v, k + 1, v.len());
            assert(v@.subrange(0, k as int) =~= v@.take(k as int));
            assert(v@.subrange(k + 1, v@.len() as int) =~= v@.skip(k + 1));
            Some((name, value))
        },
        None => None,
    }
}

/// The response header fields of raw header lines: each line holding a
/// field with a valid name and value sets that field (a later line of the
/// same name replaces the earlier value).
pub open spec fn spec_parse_header_lines(h: Seq<(Seq<char>, Seq<char>)>, lines: Seq<Seq<char>>) -> Seq<(Seq<char>, Seq<char>)>
    decreases lines.len(),
{
    if lines.len() == 0 {
        h
    } else {
        let before = spec_parse_header_lines(h, lines.drop_last());
        match spec_header_line(lines.last()) {
            Some((n, v)) => if spec_header_name(n) is Some && header_value_ok(v) {
                spec_insert_header(before, spec_header_name(n)->0, v)
            } else {
                before
            },
            None => before,
        }
    }
}

/// Adds the fields of a raw header block to `headers` (see
/// `spec_parse_header_lines`).
pub fn parse_headers_into_map(header_string: &str, headers: &mut Vec<HeaderPair>)
    ensures
        headers_view(final(headers)@) == spec_parse_header_lines(headers_view(old(headers)@), spec_lines(header_string@)),
{
    let lines = lines_of(header_string);
    let ghost lv = strings_view(lines@);
    let ghost h0 = headers_view(headers@);
    let mut i: usize = 0;
    assert(lv.take(0) =~= Seq::<Seq<char>>::empty());
    while i < lines.len()
        invariant
            lv == strings_view(lines@),
            lv == spec_lines(header_string@),
            h0 == headers_view(old(headers)@),
            i <= lines@.len(),
            headers_view(headers@) == spec_parse_header_lines(h0, lv.take(i as int)),
        decreases lines.len() - i,
    {
        assert(lv.take(i + 1).drop_last() =~= lv.take(i as int));
        assert(lv.take(i + 1).last() == lines@[i as int]@);
        match header_line(lines[i].as_str()) {
            Some((name, value)) => {
                match header_name_normalized(name.as_str()) {
                    Some(n) => {
                        if header_value_valid(value.as_str()).is_ok() {
                            insert_header(headers, n, value);
                        }
                    },
                    None => {},
                }
            },
            None => {},
        }
        i += 1;
    }
    assert(lv.take(lines@.len() as int) =~= lv);
}

/// The `set-cookie` fields of raw header lines whose value is a valid
/// header value (the name compared without regard to ASCII case), in
/// order.
pub open spec fn spec_set_cookie_lines(lines: Seq<Seq<char>>) -> Seq<(Seq<char>, Seq<char>)>
    decreases lines.len(),
{
    if lines.len() == 0 {
        Seq::empty()
    } else {
        let before = spec_set_cookie_lines(lines.drop_last());
        match spec_header_line(lines.last()) {
            Some((n, v)) => if lower(n) == "set-cookie"@ && header_value_ok(v) {
                before.push(("set-cookie"@, v))
            } else {
                before
            },
            None => before,
        }
    }
}

/// Whether two texts are equal without regard to ASCII case.
fn eq_ignore_ascii_case(a: &str, b: &str) -> (r: bool)
    ensures
        r == (lower(a@) == lower(b@)),
{
    let x = chars_of(a);
    let y = chars_of(b);
    if x.len() != y.len() {
        assert(lower(a@).len() != lower(b@).len());
        return false;
    }
    let mut i: usize = 0;
    while i < x.len()
        invariant
            x@ == a@,
            y@ == b@,
            x@.len() == y@.len(),
            i <= x@.len(),
            forall|j: int| 0 <= j < i ==> crate::wire::ascii_lower(#[trigger] x@[j]) == crate::wire::ascii_lower(y@[j]),
        decreases x.len() - i,
    {
        let cx = x[i];
        let cy = y[i];
        let lx = if 'A' <= cx && cx <= 'Z' { ((cx as u32) + 32) as u8 as char } else { cx };
        let ly = if 'A' <= cy && cy <= 'Z' { ((cy as u32) + 32) as u8 as char } else { cy };
        proof {
            if 'A' <= cx && cx <= 'Z' {
                assert((((cx as u32) + 32) as u8 as char) == ((cx as u32) + 32) as char);
            }
            if 'A' <= cy && cy <= 'Z' {
                assert((((cy as u32) + 32) as u8 as char) == ((cy as u32) + 32) as char);
            }
        }
        if lx != ly {
            assert(lower(a@)[i as int] != lower(b@)[i as int]);
            return false;
        }
        i += 1;
    }
    assert(lower(a@) =~= lower(b@));
    true
}

/// The `set-cookie` fields of a raw header block (see
/// `spec_set_cookie_lines`).
pub fn set_cookie_fields_of(header_string: &str) -> (fields: Vec<HeaderPair>)
    ensures
        headers_view(fields@) == spec_set_cookie_lines(spec_lines(header_string@)),
{
    let lines = lines_of(header_string);
    let ghost lv = strings_view(lines@);
    let mut fields: Vec<HeaderPair> = Vec::new();
    let mut i: usize = 0;
    assert(lv.take(0) =~= Seq::<Seq<char>>::empty());
    while i < lines.len()
        invariant
            lv == strings_view(lines@),
            lv == spec_lines(header_string@),
            i <= lines@.len(),
            headers_view(fields@) == spec_set_cookie_lines(lv.take(i as int)),
        decreases lines.len() - i,
    {
        assert(lv.take(i + 1).drop_last() =~= lv.take(i as int));
        assert(lv.take(i + 1).last() == lines@[i as int]@);
        match header_line(lines[i].as_str()) {
            Some((name, value)) => {
                if eq_ignore_ascii_case(name.as_str(), "set-cookie") && header_value_valid(value.as_str()).is_ok() {
                    proof {
                        reveal_strlit("set-cookie");
                        assert(lower("set-cookie"@) =~= "set-cookie"@);
                    }
                    let ghost before = fields@;
                    fields.push(HeaderPair { name: String::from_str("set-cookie"), value });
                    assert(headers_view(fields@) =~= headers_view(before).push(("set-cookie"@, value@)));
                } else {
                    proof {
                        reveal_strlit("set-cookie");
                        assert(lower("set-cookie"@) =~= "set-cookie"@);
                    }
                }
            },
            None => {},
        }
        i += 1;
    }
    assert(lv.take(lines@.len() as int) =~= lv);
    fields
}

/// Stores the cookies of the `set-cookie` lines of a raw header block
/// received from the URL text; each line accepted as a cookie that never expires,
/// and not followed by a line of the same name, is stored and sent to
/// every URL it matches.
pub fn store_cookies_from_headers(header_string: &str, url: &str, cookie_storage: &mut WindowsCookieStorage)
    ensures
        set_cookie_values(spec_set_cookie_lines(spec_lines(header_string@))).len() == 0 ==> final(cookie_storage)@
            == old(cookie_storage)@,
        from_lines(
            old(cookie_storage)@,
            final(cookie_storage)@,
            set_cookie_values(spec_set_cookie_lines(spec_lines(header_string@))),
        ),
        final(cookie_storage).kept(set_cookie_values(spec_set_cookie_lines(spec_lines(header_string@))), url@),
{
    let fields = set_cookie_fields_of(header_string);
    let _ = cookie_storage.process_response_headers(url, &fields);
}

/// The port a request goes to: the URL's own, else 443 for `https` and
/// 80 otherwise.
pub open spec fn spec_port(scheme: Seq<char>, port: Option<u16>) -> u16 {
    match port {
        Some(p) => p,
        None => if scheme == "https"@ { 443 } else { 80 },
    }
}

/// A URL's explicit port is used as is; without one, an `http` URL goes
/// to port 80 and an `https` URL to port 443.
pub proof fn law_default_ports(scheme: Seq<char>, port: Option<u16>)
    ensures
        port matches Some(p) ==> spec_port(scheme, port) == p,
        port is None && scheme == "http"@ ==> spec_port(scheme, port) == 80,
        port is None && scheme == "https"@ ==> spec_port(scheme, port) == 443,
{
    reveal_strlit("http");
    reveal_strlit("https");
    assert("http"@.len() == 4 && "https"@.len() == 5);
    assert("http"@ != "https"@);
}

/// The object a request names: the path, then `?` and the query when
/// there is one.
pub open spec fn spec_full_path(path: Seq<char>, query: Option<Seq<char>>) -> Seq<char> {
    match query {
        Some(q) => path + seq!['?'] + q,
        None => path,
    }
}

/// Where a request goes: its host (an `InvalidUrl` error when the URL has
/// none), its port and the object it names.
pub fn request_target(scheme: &str, host: Option<String>, port: Option<u16>, path: &str, query: Option<&str>) -> (res: Result<(String, u16, String), Error>)
    ensures
        res is Err <==> host is None,
        res matches Err(e) ==> e is InvalidUrl,
        res matches Ok((h, p, f)) ==> h@ == host->0@ && p == spec_port(scheme@, port) && f@ == spec_full_path(
            path@,
            match query {
                Some(q) => Some(q@),
                None => None,
            },
        ),
        res matches Ok((_, p, _)) ==> (port matches Some(q) ==> p == q),
        res matches Ok((_, p, _)) ==> (port is None && scheme@ == "http"@ ==> p == 80),
        res matches Ok((_, p, _)) ==> (port is None && scheme@ == "https"@ ==> p == 443),
{
    proof {
        law_default_ports(scheme@, port);
    }
    let host = match host {
        Some(h) => h,
        None => return Err(Error::InvalidUrl),
    };
    let p = match port {
        Some(p) => p,
        None => if str_eq(scheme, "https") { 443 } else { 80 },
    };
    let mut full = String::from_str(path);
    match query {
        Some(q) => {
            full.push('?');
            full.append(q);
        },
        None => {},
    }
    Ok((host, p, full))
}

/// Whether the request is sent over TLS: for `https` URLs.
pub fn is_secure(scheme: &str) -> (r: bool)
    ensures
        r == (scheme@ == "https"@),
{
    str_eq(scheme, "https")
}

/// The body bytes and content type WinHTTP sends for a body that needs no
/// JSON serialization: nothing for no body or an empty one; the content
/// of a byte body with no content type; the encoded form with the form
/// content type.
pub open spec fn spec_winhttp_body(body: Option<BodyView>) -> (Seq<u8>, Option<Seq<char>>) {
    match body {
        Some(BodyView::Form(f)) => (spec_body_bytes(BodyView::Form(f)), Some("application/x-www-form-urlencoded"@)),
        Some(b) => (spec_body_bytes(b), None),
        None => (Seq::empty(), None),
    }
}

/// The body bytes and content type WinHTTP sends (see
/// `spec_winhttp_body`); a JSON body is serialized and sent as
/// `application/json`; multipart bodies are refused.
pub fn winhttp_body(body: &Option<Body>) -> (res: Result<(Vec<u8>, Option<String>), Error>)
    ensures
        (match body {
            Some(Body::Multipart { .. }) => res matches Err(Error::Internal(m)) && m@
                == "Multipart not yet supported with WinHTTP"@,
            Some(Body::Json { value }) => res matches Ok((d, t)) && d@ == crate::body::json_bytes(*value)
                && (t matches Some(c) && c@ == "application/json"@),
            _ => res matches Ok((d, t)) && d@ == spec_winhttp_body(
                match body {
                    Some(b) => Some(b@),
                    None => None,
                },
            ).0 && crate::cookies::opt_view(t) == spec_winhttp_body(
                match body {
                    Some(b) => Some(b@),
                    None => None,
                },
            ).1,
        }),
{
    match body {
        None => Ok((Vec::new(), None)),
        Some(Body::Empty) => Ok((Vec::new(), None)),
        Some(Body::Bytes { content, .. }) => Ok((content.clone(), None)),
        Some(Body::Form { fields }) => {
            let text = form_encode(fields);
            Ok((text.as_str().as_bytes_vec(), Some(String::from_str("application/x-www-form-urlencoded"))))
        },
        Some(Body::Json { value }) => match json_to_vec(value) {
            Ok(v) => Ok((v, Some(String::from_str("application/json")))),
            Err(e) => {
                let mut m = String::from_str("Failed to serialize JSON: ");
                m.append(e.as_str());
                assert(m@ == "Failed to serialize JSON: "@ + e@);
                Err(Error::Internal(m))
            },
        },
        Some(Body::Multipart { .. }) => Err(Error::Internal(String::from_str("Multipart not yet supported with WinHTTP"))),
    }
}

/// One header line of a WinHTTP request: `name: value` and CRLF; a value
/// that does not read as text is sent empty.
pub open spec fn spec_header_text_line(f: (Seq<char>, Seq<char>)) -> Seq<char> {
    f.0 + ": "@ + (if visible_ascii(f.1) { f.1 } else { Seq::empty() }) + "\r\n"@
}

/// The header lines of a list of fields, one after the other.
pub open spec fn spec_header_text(h: Seq<(Seq<char>, Seq<char>)>) -> Seq<char>
    decreases h.len(),
{
    if h.len() == 0 {
        Seq::empty()
    } else {
        spec_header_text(h.drop_last()) + spec_header_text_line(h.last())
    }
}

/// Appends the header lines of the fields.
fn append_header_text(block: &mut String, h: &Vec<HeaderPair>)
    ensures
        final(block)@ == old(block)@ + spec_header_text(headers_view(h@)),
{
    let ghost hv = headers_view(h@);
    let ghost start = block@;
    let mut i: usize = 0;
    assert(hv.take(0) =~= Seq::<(Seq<char>, Seq<char>)>::empty());
    assert(start + spec_header_text(hv.take(0)) =~= start);
    while i < h.len()
        invariant
            hv == headers_view(h@),
            start == old(block)@,
            i <= h@.len(),
            block@ == start + spec_header_text(hv.take(i as int)),
        decreases h.len() - i,
    {
        let ghost before = block@;
        block.append(h[i].name.as_str());
        block.append(": ");
        if is_visible_ascii(h[i].value.as_str()) {
            block.append(h[i].value.as_str());
        }
        block.append("\r\n");
        proof {
            assert(hv.take(i + 1).drop_last() =~= hv.take(i as int));
            assert(hv.take(i + 1).last() == h@[i as int]@);
            assert(block@ =~= before + spec_header_text_line(h@[i as int]@));
        }
        i += 1;
    }
    assert(hv.take(h@.len() as int) =~= hv);
}

/// The header block of a WinHTTP request: the default fields, the
/// request's fields, a `Content-Type` line for the body's content type
/// unless the block so far already holds `Content-Type:` (the field names
/// here are lower case, so it never does), then the cookie fields.
pub open spec fn spec_header_block(
    defaults: Option<Seq<(Seq<char>, Seq<char>)>>,
    headers: Seq<(Seq<char>, Seq<char>)>,
    content_type: Option<Seq<char>>,
    cookies: Seq<(Seq<char>, Seq<char>)>,
) -> Seq<char> {
    let first = (match defaults {
        Some(d) => spec_header_text(d),
        None => Seq::empty(),
    }) + spec_header_text(headers);
    let typed = match content_type {
        Some(t) => if contains_sub(first, "Content-Type:"@) { first } else { first + "Content-Type: "@ + t + "\r\n"@ },
        None => first,
    };
    typed + spec_header_text(cookies)
}

/// The header block of a WinHTTP request (see `spec_header_block`).
pub fn header_block(defaults: &Option<Vec<HeaderPair>>, headers: &Vec<HeaderPair>, content_type: &Option<String>, cookies: &Vec<HeaderPair>) -> (block: String)
    ensures
        block@ == spec_header_block(
            match defaults {
                Some(d) => Some(headers_view(d@)),
                None => None,
            },
            headers_view(headers@),
            crate::cookies::opt_view(*content_type),
            headers_view(cookies@),
        ),
{
    let mut block = String::new();
    match defaults {
        Some(d) => append_header_text(&mut block, d),
        None => {},
    }
    append_header_text(&mut block, headers);
    match content_type {
        Some(t) => {
            if str_find(block.as_str(), "Content-Type:").is_none() {
                block.append("Content-Type: ");
                block.append(t.as_str());
                block.append("\r\n");
            }
        },
        None => {},
    }
    append_header_text(&mut block, cookies);
    block
}

/// The response status for the code WinHTTP reports: the code cut to 16
/// bits when it is a valid status (100 to 999), else 500.
pub open spec fn spec_status(code: u32) -> u16 {
    let c = code as u16;
    if 100 <= c && c < 1000 { c } else { 500 }
}

/// The response status for the code WinHTTP reports (see `spec_status`).
pub fn status_from_code(code: u32) -> (s: u16)
    ensures
        s == spec_status(code),
{
    let c = code as u16;
    if 100 <= c && c < 1000 { c } else { 500 }
}

/// A notification of WinHTTP's status callback.
pub enum Notification {
    /// Resolving the server name
    ResolvingName,
    /// Server name resolved
    NameResolved,
    /// Connecting to the server
    ConnectingToServer,
    /// Connected to the server
    ConnectedToServer,
    /// Sending the request
    SendingRequest,
    /// Request sent
    RequestSent,
    /// Receiving the response
    ReceivingResponse,
    /// Response received
    ResponseReceived,
    /// `WinHttpSendRequest` completed
    SendRequestComplete,
    /// The response headers can be queried
    HeadersAvailable,
    /// This many bytes can be read
    DataAvailable(u32),
    /// A read completed with this many bytes
    ReadComplete(u32),
    /// This many request bytes were written
    WriteComplete(u32),
    /// The request failed; the result and error code when the status
    /// information holds them
    RequestError(Option<(usize, u32)>),
    /// Any other notification (connection closing or closed, handle
    /// created or closing, redirect, intermediate response)
    Other,
}

/// What the transport does in answer to a notification, in this order.
pub struct CallbackActions {
    /// Report upload progress (bytes done, total), if a progress callback
    /// is set
    pub progress: Option<(u64, u64)>,
    /// Query the raw headers and store their cookies
    pub store_cookies: bool,
    /// Copy this many bytes of the read buffer to the response
    pub append_read: Option<u32>,
    /// Start a read with a buffer of this size
    pub start_read: Option<u32>,
    /// Ask how much more data is available
    pub query_more: bool,
    /// Complete the pending operation with this result
    pub signal: Option<Result<(), Error>>,
}

/// The state the callback keeps for one request.
pub struct CallbackState {
    /// The request's state
    pub state: RequestState,
    /// Request bytes written so far
    pub bytes_sent: u64,
    /// Size of the request body
    pub total_body_size: u64,
    /// Whether a read is outstanding
    pub reading: bool,
    /// Size of the current read buffer
    pub read_size: u32,
    /// A copy of the error the request failed with
    pub stored_error: Option<Error>,
    /// Whether upload progress is reported
    pub has_progress: bool,
    /// Whether cookies are stored
    pub has_cookie_storage: bool,
}

/// The size of the buffer each read uses.
pub const READ_BUFFER_SIZE: u32 = 8192;

/// `a + b` wrapped to 64 bits, as an atomic counter adds.
pub open spec fn wrapped_sum(a: u64, b: u32) -> u64 {
    if a + b > u64::MAX { (a + b - 18446744073709551616) as u64 } else { (a + b) as u64 }
}

/// No action.
pub open spec fn no_actions(a: CallbackActions) -> bool {
    a.progress is None && !a.store_cookies && a.append_read is None && a.start_read is None && !a.query_more
        && a.signal is None
}

/// The message of a failed request.
pub open spec fn spec_async_error_message(result: usize, error: u32) -> Seq<char> {
    "WinHTTP async error: dwResult="@ + spec_decimal(result as nat) + ", dwError="@ + spec_decimal(error as nat)
}

fn nothing() -> (a: CallbackActions)
    ensures
        no_actions(a),
{
    CallbackActions { progress: None, store_cookies: false, append_read: None, start_read: None, query_more: false, signal: None }
}

impl CallbackState {
    /// The state of a request whose body has `total_body_size` bytes.
    pub fn new(total_body_size: u64, has_progress: bool, has_cookie_storage: bool) -> (s: Self)
        ensures
            s.state == RequestState::Connecting,
            s.bytes_sent == 0,
            s.total_body_size == total_body_size,
            !s.reading,
            s.read_size == 0,
            s.stored_error is None,
            s.has_progress == has_progress,
            s.has_cookie_storage == has_cookie_storage,
    {
        CallbackState {
            state: RequestState::Connecting,
            bytes_sent: 0,
            total_body_size,
            reading: false,
            read_size: 0,
            stored_error: None,
            has_progress,
            has_cookie_storage,
        }
    }

    /// What the callback does on a notification; `has_handle` says whether
    /// the request handle is still known.
    pub fn on_notification(&mut self, n: Notification, has_handle: bool) -> (a: CallbackActions)
        ensures
            final(self).total_body_size == old(self).total_body_size,
            final(self).has_progress == old(self).has_progress,
            final(self).has_cookie_storage == old(self).has_cookie_storage,
            (n is ResolvingName || n is NameResolved || n is ConnectingToServer || n is ConnectedToServer
                || n is RequestSent || n is ReceivingResponse || n is Other) ==> no_actions(a) && *final(self)
                == *old(self),
            n is SendingRequest ==> *final(self) == *old(self) && a.progress == (if old(self).has_progress {
                Some((0u64, old(self).total_body_size))
            } else {
                None
            }) && !a.store_cookies && a.append_read is None && a.start_read is None && !a.query_more && a.signal is None,
            n is ResponseReceived ==> *final(self) == *old(self) && a.progress == (if old(self).has_progress {
                Some((old(self).total_body_size, old(self).total_body_size))
            } else {
                None
            }) && !a.store_cookies && a.append_read is None && a.start_read is None && !a.query_more && a.signal is None,
            n is SendRequestComplete ==> final(self).state == RequestState::Sending && a.signal == Some(
                Ok::<(), Error>(()),
            ) && a.progress is None && !a.store_cookies && a.append_read is None && a.start_read is None && !a.query_more,
            n is HeadersAvailable ==> final(self).state == RequestState::HeadersReceived && a.store_cookies
                == old(self).has_cookie_storage && a.signal == Some(Ok::<(), Error>(())) && a.progress is None
                && a.append_read is None && a.start_read is None && !a.query_more,
            n matches Notification::DataAvailable(k) ==> final(self).state == RequestState::ReadingData && a.progress is None
                && !a.store_cookies && a.append_read is None && !a.query_more && (if k > 0 {
                a.signal is None && (if has_handle {
                    final(self).reading && final(self).read_size == READ_BUFFER_SIZE && a.start_read == Some(READ_BUFFER_SIZE)
                } else {
                    a.start_read is None
                })
            } else {
                a.start_read is None && a.signal == Some(Ok::<(), Error>(()))
            }),
            n matches Notification::ReadComplete(k) ==> !final(self).reading && final(self).state == old(self).state
                && a.progress is None && !a.store_cookies && a.start_read is None && (if k > 0 {
                a.append_read == (if old(self).read_size >= k { Some(k) } else { None }) && (if has_handle {
                    a.query_more && a.signal is None
                } else {
                    !a.query_more && a.signal == Some(Ok::<(), Error>(()))
                })
            } else {
                a.append_read is None && !a.query_more && a.signal == Some(Ok::<(), Error>(()))
            }),
            n matches Notification::WriteComplete(k) ==> final(self).bytes_sent == wrapped_sum(old(self).bytes_sent, k)
                && final(self).state == old(self).state && a.progress == (if old(self).has_progress {
                Some((final(self).bytes_sent, old(self).total_body_size))
            } else {
                None
            }) && !a.store_cookies && a.append_read is None && a.start_read is None && !a.query_more && a.signal is None,
            n matches Notification::RequestError(info) ==> final(self).state == RequestState::Error && a.progress is None
                && !a.store_cookies && a.append_read is None && a.start_read is None && !a.query_more && match info {
                Some((r, e)) => if e == 12002 {
                    a.signal matches Some(Err(Error::Timeout)) && final(self).stored_error matches Some(Error::Timeout)
                } else {
                    (a.signal matches Some(Err(Error::Internal(m))) && m@ == spec_async_error_message(r, e))
                        && (final(self).stored_error matches Some(Error::Internal(m)) && m@ == spec_async_error_message(r, e))
                },
                None => (a.signal matches Some(Err(Error::Internal(m))) && m@ == "Unknown WinHTTP async error"@)
                    && (final(self).stored_error matches Some(Error::Internal(m)) && m@ == "Unknown WinHTTP async error"@),
            },
    {
        match n {
            Notification::SendingRequest => {
                let mut a = nothing();
                if self.has_progress {
                    a.progress = Some((0, self.total_body_size));
                }
                a
            },
            Notification::ResponseReceived => {
                let mut a = nothing();
                if self.has_progress {
                    a.progress = Some((self.total_body_size, self.total_body_size));
                }
                a
            },
            Notification::SendRequestComplete => {
                self.state = RequestState::Sending;
                let mut a = nothing();
                a.signal = Some(Ok(()));
                a
            },
            Notification::HeadersAvailable => {
                self.state = RequestState::HeadersReceived;
                let mut a = nothing();
                a.store_cookies = self.has_cookie_storage;
                a.signal = Some(Ok(()));
                a
            },
            Notification::DataAvailable(k) => {
                self.state = RequestState::ReadingData;
                let mut a = nothing();
                if k > 0 {
                    if has_handle {
                        self.reading = true;
                        self.read_size = READ_BUFFER_SIZE;
                        a.start_read = Some(READ_BUFFER_SIZE);
                    }
                } else {
                    a.signal = Some(Ok(()));
                }
                a
            },
            Notification::ReadComplete(k) => {
                self.reading = false;
                let mut a = nothing();
                if k > 0 {
                    if self.read_size >= k {
                        a.append_read = Some(k);
                    }
                    if has_handle {
                        a.query_more = true;
                    } else {
                        a.signal = Some(Ok(()));
                    }
                } else {
                    a.signal = Some(Ok(()));
                }
                a
            },
            Notification::WriteComplete(k) => {
                self.bytes_sent = self.bytes_sent.wrapping_add(k as u64);
                let mut a = nothing();
                if self.has_progress {
                    a.progress = Some((self.bytes_sent, self.total_body_size));
                }
                a
            },
            Notification::RequestError(info) => {
                self.state = RequestState::Error;
                let mut a = nothing();
                match info {
                    Some((r, e)) => {
                        if e == 12002 {
                            self.stored_error = Some(Error::Timeout);
                            a.signal = Some(Err(Error::Timeout));
                        } else {
                            let m1 = async_error_message(r, e);
                            let m2 = async_error_message(r, e);
                            self.stored_error = Some(Error::Internal(m1));
                            a.signal = Some(Err(Error::Internal(m2)));
                        }
                    },
                    None => {
                        self.stored_error = Some(Error::Internal(String::from_str("Unknown WinHTTP async error")));
                        a.signal = Some(Err(Error::Internal(String::from_str("Unknown WinHTTP async error"))));
                    },
                }
                a
            },
            _ => nothing(),
        }
    }

    /// A read could not be started: the read is over and the pending
    /// operation fails with "Failed to read data".
    pub fn on_read_failed(&mut self) -> (a: CallbackActions)
        ensures
            !final(self).reading,
            final(self).state == old(self).state,
            a.signal matches Some(Err(Error::Internal(m))) && m@ == "Failed to read data"@,
            a.progress is None && !a.store_cookies && a.append_read is None && a.start_read is None && !a.query_more,
    {
        self.reading = false;
        let mut a = nothing();
        a.signal = Some(Err(Error::Internal(String::from_str("Failed to read data"))));
        a
    }

    /// Asking for more data failed: the pending operation completes.
    pub fn on_query_failed(&self) -> (a: CallbackActions)
        ensures
            a.signal == Some(Ok::<(), Error>(())),
            a.progress is None && !a.store_cookies && a.append_read is None && a.start_read is None && !a.query_more,
    {
        let mut a = nothing();
        a.signal = Some(Ok(()));
        a
    }
}

/// The message of a failed request (see `spec_async_error_message`).
fn async_error_message(result: usize, error: u32) -> (m: String)
    ensures
        m@ == spec_async_error_message(result, error),
{
    let mut m = String::from_str("WinHTTP async error: dwResult=");
    let r = decimal(result as u128);
    m.append(r.as_str());
    m.append(", dwError=");
    let e = decimal(error as u128);
    m.append(e.as_str());
    m
}

} // verus!
