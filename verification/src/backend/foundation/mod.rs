//! Logic of the Foundation (NSURLSession) backend that does not depend on
//! the Objective-C runtime: the header fields and body a request is given,
//! the multipart encoding it uses, the status and header fields of a
//! response, and the errors the session reports.

pub mod delegate;
pub mod error;

use vstd::prelude::*;
use vstd::string::*;
use crate::body::{Body, BodyView, MultipartPart, PartView, form_encode, json_to_vec, parts_view, spec_body_bytes};
use crate::client::download::all_text;
use crate::cookies::opt_view;
use crate::backend::{BackendConfig, jar_opt_view};
use crate::backend::cookie_store::JarView;
use crate::cookies::CookieJar;
use crate::error::Error;
use crate::text::{decimal, spec_decimal};
use crate::wire::{HeaderPair, header_name_from_bytes, header_value_ok, header_value_valid, headers_view, insert_header, spec_header_name, spec_insert_header, status_code_from_u16, str_eq};

verus! {

/// The multipart boundary for a moment given in nanoseconds since the
/// epoch: `----formdata-frakt-<nanoseconds>`.
pub fn boundary_for(nanos: u128) -> (b: String)
    ensures
        b@ == "----formdata-frakt-"@ + spec_decimal(nanos as nat),
{
    let mut b = String::from_str("----formdata-frakt-");
    let n = decimal(nanos);
    b.append(n.as_str());
    b
}

/// The UTF-8 bytes of a text.
pub open spec fn bytes_of(s: Seq<char>) -> Seq<u8> {
    vstd::utf8::encode_utf8(s)
}

/// The bytes of one part: the boundary line, the `Content-Disposition`
/// line with the field name and filename, the `Content-Type` line when
/// the part has one, an empty line and the content.
pub open spec fn spec_part_bytes(boundary: Seq<char>, p: PartView) -> Seq<u8> {
    bytes_of("\r\n--"@ + boundary + "\r\n"@) + bytes_of(
        "Content-Disposition: form-data; name=\""@ + p.name + seq!['"'] + match p.filename {
            Some(f) => "; filename=\""@ + f + seq!['"'],
            None => Seq::empty(),
        },
    ) + bytes_of("\r\n"@) + match p.content_type {
        Some(t) => bytes_of("Content-Type: "@ + t + "\r\n"@),
        None => Seq::empty(),
    } + bytes_of("\r\n"@) + p.content
}

/// The bytes of all the parts, in order.
pub open spec fn spec_parts_bytes(boundary: Seq<char>, parts: Seq<PartView>) -> Seq<u8>
    decreases parts.len(),
{
    if parts.len() == 0 {
        Seq::empty()
    } else {
        spec_parts_bytes(boundary, parts.drop_last()) + spec_part_bytes(boundary, parts.last())
    }
}

/// A `multipart/form-data` body: the parts, then the closing boundary
/// line.
pub open spec fn spec_multipart(boundary: Seq<char>, parts: Seq<PartView>) -> Seq<u8> {
    spec_parts_bytes(boundary, parts) + bytes_of("\r\n--"@ + boundary + "--\r\n"@)
}

/// Appends the UTF-8 bytes of a text.
fn push_text(data: &mut Vec<u8>, s: &str)
    ensures
        final(data)@ == old(data)@ + bytes_of(s@),
{
    let mut b = s.as_bytes_vec();
    data.append(&mut b);
}

/// Encodes a `multipart/form-data` body (see `spec_multipart`).
pub fn encode_multipart_data(boundary: &str, parts: &Vec<MultipartPart>) -> (data: Vec<u8>)
    ensures
        data@ == spec_multipart(boundary@, parts_view(parts@)),
{
    let ghost pv = parts_view(parts@);
    let mut data: Vec<u8> = Vec::new();
    let mut i: usize = 0;
    assert(pv.take(0) =~= Seq::<PartView>::empty());
    assert(data@ =~= spec_parts_bytes(boundary@, pv.take(0)));
    while i < parts.len()
        invariant
            pv == parts_view(parts@),
            i <= parts@.len(),
            data@ == spec_parts_bytes(boundary@, pv.take(i as int)),
        decreases parts.len() - i,
    {
        let part = &parts[i];
        let ghost before = data@;
        let mut opening = String::from_str("\r\n--");
        opening.append(boundary);
        opening.append("\r\n");
        push_text(&mut data, opening.as_str());
        let mut disposition = String::from_str("Content-Disposition: form-data; name=\"");
        disposition.append(part.name.as_str());
        disposition.push('"');
        match &part.filename {
            Some(f) => {
                disposition.append("; filename=\"");
                disposition.append(f.as_str());
                disposition.push('"');
            },
            None => {},
        }
        let ghost disposition_text = "Content-Disposition: form-data; name=\""@ + part.name@ + seq!['"'] + match part@.filename {
            Some(f) => "; filename=\""@ + f + seq!['"'],
            None => Seq::empty(),
        };
        assert(disposition@ =~= disposition_text);
        push_text(&mut data, disposition.as_str());
        push_text(&mut data, "\r\n");
        let ghost mid = data@;
        match &part.content_type {
            Some(t) => {
                let mut line = String::from_str("Content-Type: ");
                line.append(t.as_str());
                line.append("\r\n");
                push_text(&mut data, line.as_str());
            },
            None => {},
        }
        let ghost typed = data@;
        assert(typed =~= mid + match part@.content_type {
            Some(t) => bytes_of("Content-Type: "@ + t + "\r\n"@),
            None => Seq::empty(),
        });
        push_text(&mut data, "\r\n");
        let mut content = part.content.clone();
        data.append(&mut content);
        proof {
            assert(pv[i as int] == part@);
            assert(data@ =~= before + spec_part_bytes(boundary@, part@));
            assert(pv.take(i + 1).drop_last() =~= pv.take(i as int));
            assert(pv.take(i + 1).last() == part@);
        }
        i += 1;
    }
    assert(pv.take(parts@.len() as int) =~= pv);
    let mut closing = String::from_str("\r\n--");
    closing.append(boundary);
    closing.append("--\r\n");
    push_text(&mut data, closing.as_str());
    data
}

/// The content type and bytes a body is sent with, when they do not
/// depend on JSON serialization: none for an empty body; a byte body's
/// own content type; the form content type for forms; the multipart
/// content type with the boundary for multipart bodies.
pub open spec fn spec_foundation_body(body: BodyView, boundary: Seq<char>) -> Option<(Seq<char>, Seq<u8>)> {
    match body {
        BodyView::Empty => None,
        BodyView::Bytes(c, t) => Some((t, c)),
        BodyView::Form(f) => Some(("application/x-www-form-urlencoded"@, spec_body_bytes(BodyView::Form(f)))),
        BodyView::Multipart(p) => Some(("multipart/form-data; boundary="@ + boundary, spec_multipart(boundary, p))),
        BodyView::Json(_) => None,
    }
}

/// The content type and bytes a body is sent with (see
/// `spec_foundation_body`); a JSON body is serialized and sent as
/// `application/json`.
pub fn foundation_body(body: &Body, boundary: &str) -> (res: Result<Option<(String, Vec<u8>)>, Error>)
    ensures
        !(body@ is Json) ==> (res matches Ok(r) && match r {
            Some((t, d)) => spec_foundation_body(body@, boundary@) == Some((t@, d@)),
            None => spec_foundation_body(body@, boundary@) is None,
        }),
        body@ matches BodyView::Json(v) ==> (res matches Ok(Some((t, d))) && t@ == "application/json"@ && d@ == crate::body::json_bytes(v)),
{
    match body {
        Body::Empty => Ok(None),
        Body::Bytes { content, content_type } => Ok(Some((content_type.clone(), content.clone()))),
        Body::Form { fields } => {
            let text = form_encode(fields);
            Ok(Some((String::from_str("application/x-www-form-urlencoded"), text.as_str().as_bytes_vec())))
        },
        Body::Json { value } => match json_to_vec(value) {
            Ok(v) => Ok(Some((String::from_str("application/json"), v))),
            Err(e) => Err(Error::Json(e)),
        },
        Body::Multipart { parts } => {
            let mut t = String::from_str("multipart/form-data; boundary=");
            t.append(boundary);
            Ok(Some((t, encode_multipart_data(boundary, parts))))
        },
    }
}

/// The header fields set on a request, in the order they are set (a later
/// one replaces an earlier one of the same name): the default fields, the
/// request's fields, then `Content-Type` when the body has one.
pub open spec fn spec_header_assignments(
    defaults: Option<Seq<(Seq<char>, Seq<char>)>>,
    headers: Seq<(Seq<char>, Seq<char>)>,
    content_type: Option<Seq<char>>,
) -> Seq<(Seq<char>, Seq<char>)> {
    (match defaults {
        Some(d) => d,
        None => Seq::empty(),
    }) + headers + (match content_type {
        Some(t) => seq![("Content-Type"@, t)],
        None => Seq::empty(),
    })
}

/// The header fields set on a request (see `spec_header_assignments`);
/// every value must read as text.
pub fn header_assignments(defaults: &Option<Vec<HeaderPair>>, headers: &Vec<HeaderPair>, content_type: &Option<String>) -> (a: Vec<HeaderPair>)
    requires
        defaults matches Some(d) ==> all_text(headers_view(d@)),
        all_text(headers_view(headers@)),
    ensures
        headers_view(a@) == spec_header_assignments(
            match defaults {
                Some(d) => Some(headers_view(d@)),
                None => None,
            },
            headers_view(headers@),
            opt_view(*content_type),
        ),
{
    let mut a: Vec<HeaderPair> = Vec::new();
    let ghost mut expected: Seq<(Seq<char>, Seq<char>)> = Seq::empty();
    match defaults {
        Some(d) => {
            let mut i: usize = 0;
            while i < d.len()
                invariant
                    i <= d@.len(),
                    headers_view(a@) =~= headers_view(d@).take(i as int),
                decreases d.len() - i,
            {
                a.push(HeaderPair { name: d[i].name.clone(), value: d[i].value.clone() });
                assert(headers_view(d@).take(i + 1) =~= headers_view(d@).take(i as int).push(d@[i as int]@));
                i += 1;
            }
            assert(headers_view(d@).take(d@.len() as int) =~= headers_view(d@));
            proof {
                expected = headers_view(d@);
            }
        },
        None => {
            assert(headers_view(a@) =~= Seq::empty());
        },
    }
    let mut j: usize = 0;
    while j < headers.len()
        invariant
            j <= headers@.len(),
            headers_view(a@) =~= expected + headers_view(headers@).take(j as int),
        decreases headers.len() - j,
    {
        let ghost prev = a@;
        a.push(HeaderPair { name: headers[j].name.clone(), value: headers[j].value.clone() });
        assert(headers_view(a@) =~= headers_view(prev).push(headers@[j as int]@));
        assert(headers_view(headers@).take(j + 1) =~= headers_view(headers@).take(j as int).push(headers@[j as int]@));
        j += 1;
    }
    assert(headers_view(headers@).take(headers@.len() as int) =~= headers_view(headers@));
    let ghost before = a@;
    match content_type {
        Some(t) => {
            a.push(HeaderPair { name: String::from_str("Content-Type"), value: t.clone() });
            assert(headers_view(a@) =~= headers_view(before).push(("Content-Type"@, t@)));
        },
        None => {},
    }
    a
}

/// The status of a response: an HTTP response's status code cut to 16
/// bits when `StatusCode::from_u16` accepts it (100 to 999), else 200; 200
/// for a response that is not HTTP.
pub open spec fn spec_foundation_status(code: Option<i64>) -> u16 {
    match code {
        Some(c) => if 100 <= c as u16 <= 999 {
            c as u16
        } else {
            200
        },
        None => 200,
    }
}

/// Checks the scheme of a request's URL as NSURL reads it: `None` (no
/// scheme) and every scheme but `http` and `https` are `InvalidUrl`.
pub fn foundation_url_scheme(scheme: Option<&str>) -> (res: Result<(), Error>)
    ensures
        res is Ok <==> (scheme matches Some(s) && (s@ == "http"@ || s@ == "https"@)),
        res matches Err(e) ==> e is InvalidUrl,
{
    match scheme {
        Some(s) => {
            if str_eq(s, "http") || str_eq(s, "https") {
                Ok(())
            } else {
                Err(Error::InvalidUrl)
            }
        },
        None => Err(Error::InvalidUrl),
    }
}

/// The status of a response (see `spec_foundation_status`).
pub fn foundation_status(code: Option<i64>) -> (s: u16)
    ensures
        s == spec_foundation_status(code),
{
    match code {
        Some(c) => match status_code_from_u16(c as u16) {
            Ok(s) => s,
            Err(_) => 200,
        },
        None => 200,
    }
}

/// The header fields of the pairs an HTTP response lists, in the order
/// given: each pair with a valid name and value sets that field, a later
/// pair of the same name replacing the earlier value.
pub open spec fn spec_foundation_headers(pairs: Seq<(Seq<char>, Seq<char>)>) -> Seq<(Seq<char>, Seq<char>)>
    decreases pairs.len(),
{
    if pairs.len() == 0 {
        Seq::empty()
    } else {
        let h = spec_foundation_headers(pairs.drop_last());
        match spec_header_name(pairs.last().0) {
            Some(n) => if header_value_ok(pairs.last().1) {
                spec_insert_header(h, n, pairs.last().1)
            } else {
                h
            },
            None => h,
        }
    }
}

/// The header fields of the pairs a response lists (see
/// `spec_foundation_headers`).
pub fn foundation_headers(pairs: &Vec<HeaderPair>) -> (h: Vec<HeaderPair>)
    ensures
        headers_view(h@) == spec_foundation_headers(headers_view(pairs@)),
{
    let ghost pv = headers_view(pairs@);
    let mut h: Vec<HeaderPair> = Vec::new();
    let mut i: usize = 0;
    assert(pv.take(0) =~= Seq::<(Seq<char>, Seq<char>)>::empty());
    assert(headers_view(h@) =~= Seq::<(Seq<char>, Seq<char>)>::empty());
    while i < pairs.len()
        invariant
            pv == headers_view(pairs@),
            pv.len() == pairs@.len(),
            i <= pairs@.len(),
            headers_view(h@) == spec_foundation_headers(pv.take(i as int)),
        decreases pairs.len() - i,
    {
        assert(pv.take(i + 1).drop_last() =~= pv.take(i as int));
        assert(pv.take(i + 1).last() == pairs@[i as int]@);
        let name = header_name_from_bytes(pairs[i].name.as_str());
        let valid = header_value_valid(pairs[i].value.as_str()).is_ok();
        match name {
            Some(n) => {
                if valid {
                    insert_header(&mut h, n, pairs[i].value.clone());
                }
            },
            None => {},
        }
        i += 1;
    }
    assert(pv.take(pv.len() as int) =~= pv);
    h
}

/// The Foundation backend's settings. `S` is the URL session and `D` its
/// delegate; both are carried through unread.
pub struct FoundationBackend<S, D> {
    session: S,
    delegate: D,
    cookie_jar: Option<CookieJar>,
    default_headers: Option<Vec<HeaderPair>>,
}

impl<S, D> FoundationBackend<S, D> {
    /// The session.
    pub closed spec fn session_view(&self) -> S {
        self.session
    }

    /// The delegate.
    pub closed spec fn delegate_view(&self) -> D {
        self.delegate
    }

    /// The custom cookie jar, if any.
    pub closed spec fn jar_view(&self) -> Option<JarView> {
        jar_opt_view(self.cookie_jar)
    }

    /// The default header fields, if any.
    pub closed spec fn default_headers_view(&self) -> Option<Seq<(Seq<char>, Seq<char>)>> {
        match self.default_headers {
            Some(h) => Some(headers_view(h@)),
            None => None,
        }
    }

    /// A backend over a session with the default configuration.
    pub fn new(session: S, delegate: D) -> (res: Result<Self, Error>)
        ensures
            res matches Ok(b) && b.session_view() == session && b.delegate_view() == delegate && b.jar_view() is None
                && b.default_headers_view() is None,
    {
        Ok(Self::with_session(session, delegate))
    }

    /// A backend over a given session and delegate.
    pub fn with_session(session: S, delegate: D) -> (b: Self)
        ensures
            b.session_view() == session && b.delegate_view() == delegate && b.jar_view() is None
                && b.default_headers_view() is None,
    {
        FoundationBackend { session, delegate, cookie_jar: None, default_headers: None }
    }

    /// A backend over a session made with the configuration's timeout; the
    /// configured jar and default header fields are kept for each request.
    pub fn with_config(config: BackendConfig, session: S, delegate: D) -> (res: Result<Self, Error>)
        ensures
            res matches Ok(b) && b.session_view() == session && b.delegate_view() == delegate && b.jar_view()
                == config@.cookie_jar && b.default_headers_view() == config@.default_headers,
    {
        let BackendConfig { cookie_jar, default_headers, .. } = config;
        Ok(FoundationBackend { session, delegate, cookie_jar, default_headers })
    }

    /// The session (for WebSocket support).
    pub fn session(&self) -> (s: &S)
        ensures
            *s == self.session_view(),
    {
        &self.session
    }

    /// The default header fields requests are given, if any.
    pub fn default_headers(&self) -> (h: &Option<Vec<HeaderPair>>)
        ensures
            match *h {
                Some(v) => self.default_headers_view() == Some(headers_view(v@)),
                None => self.default_headers_view() is None,
            },
    {
        &self.default_headers
    }

    /// The custom cookie jar, if configured.
    pub fn cookie_jar(&self) -> (jar: Option<&CookieJar>)
        ensures
            jar_opt_view(
                match jar {
                    Some(j) => Some(*j),
                    None => None,
                },
            ) == self.jar_view(),
    {
        match &self.cookie_jar {
            Some(j) => Some(j),
            None => None,
        }
    }
}

} // verus!
