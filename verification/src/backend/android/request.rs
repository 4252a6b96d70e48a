//! Cronet requests: the method and header fields a request is started
//! with, and how the events Cronet reports are collected into a response.

use vstd::prelude::*;
use vstd::string::*;
use crate::backend::android::jni_bindings::HttpMethod;
use crate::body::{Body, BodyView};
use crate::backend::reqwest::{PlannedBodyView, form_content_type, spec_planned_body};
use crate::backend::windows::http_client::spec_winhttp_body;
use crate::backend::foundation::spec_foundation_body;
use crate::error::Error;
use crate::request::{Method, spec_method_name};
use crate::wire::{HeaderPair, header_lookup, headers_view, lookup_header};

verus! {

/// The Cronet method of a request method; OPTIONS is refused.
pub fn cronet_method(m: Method) -> (r: Result<HttpMethod, Error>)
    ensures
        m == Method::Get ==> r == Ok::<HttpMethod, Error>(HttpMethod::Get),
        m == Method::Post ==> r == Ok::<HttpMethod, Error>(HttpMethod::Post),
        m == Method::Put ==> r == Ok::<HttpMethod, Error>(HttpMethod::Put),
        m == Method::Delete ==> r == Ok::<HttpMethod, Error>(HttpMethod::Delete),
        m == Method::Head ==> r == Ok::<HttpMethod, Error>(HttpMethod::Head),
        m == Method::Patch ==> r == Ok::<HttpMethod, Error>(HttpMethod::Patch),
        m == Method::Options ==> (r matches Err(Error::Internal(t)) && t@ == "Unsupported HTTP method: OPTIONS"@),
{
    match m {
        Method::Get => Ok(HttpMethod::Get),
        Method::Post => Ok(HttpMethod::Post),
        Method::Put => Ok(HttpMethod::Put),
        Method::Delete => Ok(HttpMethod::Delete),
        Method::Head => Ok(HttpMethod::Head),
        Method::Patch => Ok(HttpMethod::Patch),
        Method::Options => Err(Error::Internal(String::from_str("Unsupported HTTP method: OPTIONS"))),
    }
}

/// The content type a body is sent with: a byte body's own, the form and
/// JSON types, `multipart/form-data`; none for an empty body or none.
pub open spec fn spec_cronet_content_type(body: Option<BodyView>) -> Option<Seq<char>> {
    match body {
        Some(BodyView::Bytes(_, t)) => Some(t),
        Some(BodyView::Form(_)) => Some("application/x-www-form-urlencoded"@),
        Some(BodyView::Json(_)) => Some("application/json"@),
        Some(BodyView::Multipart(_)) => Some("multipart/form-data"@),
        _ => None,
    }
}

/// The content type each kind of body is sent with: a byte body's own;
/// for a form, the form content type every backend sends
/// (`form_content_type`); `application/json` for JSON; `multipart/form-data`
/// for multipart; none for an empty body or none.
pub proof fn law_cronet_content_types(body: Option<BodyView>)
    ensures
        body matches Some(BodyView::Bytes(_, t)) ==> spec_cronet_content_type(body) == Some(t),
        body matches Some(BodyView::Form(_)) ==> spec_cronet_content_type(body) == Some(form_content_type()),
        body matches Some(BodyView::Json(_)) ==> spec_cronet_content_type(body) == Some("application/json"@),
        body matches Some(BodyView::Multipart(_)) ==> spec_cronet_content_type(body) == Some("multipart/form-data"@),
        body is None || body == Some(BodyView::Empty) ==> spec_cronet_content_type(body) is None,
{
}

/// A form body is sent with the same content type on every backend:
/// Cronet, WinHTTP, NSURLSession and reqwest all give
/// `application/x-www-form-urlencoded` (`form_content_type`).
pub proof fn law_form_content_type_shared(fields: Seq<(Seq<char>, Seq<char>)>, boundary: Seq<char>, progress: bool)
    ensures
        form_content_type() == "application/x-www-form-urlencoded"@,
        spec_cronet_content_type(Some(BodyView::Form(fields))) == Some(form_content_type()),
        spec_winhttp_body(Some(BodyView::Form(fields))).1 == Some(form_content_type()),
        spec_foundation_body(BodyView::Form(fields), boundary) matches Some((t, _)) && t == form_content_type(),
        spec_planned_body(Some(BodyView::Form(fields)), progress) matches PlannedBodyView::Bytes(_, t, _)
            && t == Some(form_content_type()),
{
}

/// The content type a body is sent with (see
/// `spec_cronet_content_type`).
pub fn cronet_content_type(body: &Option<Body>) -> (t: Option<String>)
    ensures
        body matches Some(Body::Form { .. }) ==> (t matches Some(s) && s@ == form_content_type()),
        body matches Some(Body::Json { .. }) ==> (t matches Some(s) && s@ == "application/json"@),
        crate::cookies::opt_view(t) == spec_cronet_content_type(
            match body {
                Some(b) => Some(b@),
                None => None,
            },
        ),
{
    match body {
        Some(Body::Bytes { content_type, .. }) => Some(content_type.clone()),
        Some(Body::Form { .. }) => Some(String::from_str("application/x-www-form-urlencoded")),
        Some(Body::Json { .. }) => Some(String::from_str("application/json")),
        Some(Body::Multipart { .. }) => Some(String::from_str("multipart/form-data")),
        _ => None,
    }
}

/// The header fields a Cronet request is given, in order: the body's
/// content type as `Content-Type` unless the request has a
/// `content-type` field, then the request's fields.
pub open spec fn spec_cronet_headers(headers: Seq<(Seq<char>, Seq<char>)>, content_type: Option<Seq<char>>) -> Seq<(Seq<char>, Seq<char>)> {
    (match content_type {
        Some(t) => if header_lookup(headers, "content-type"@) is None { seq![("Content-Type"@, t)] } else { Seq::empty() },
        None => Seq::empty(),
    }) + headers
}

/// The header fields a Cronet request is given (see
/// `spec_cronet_headers`).
pub fn cronet_headers(headers: &Vec<HeaderPair>, body: &Option<Body>) -> (h: Vec<HeaderPair>)
    ensures
        headers_view(h@) == spec_cronet_headers(
            headers_view(headers@),
            spec_cronet_content_type(
                match body {
                    Some(b) => Some(b@),
                    None => None,
                },
            ),
        ),
{
    let mut h: Vec<HeaderPair> = Vec::new();
    match cronet_content_type(body) {
        Some(t) => {
            if lookup_header(headers, "content-type").is_none() {
                h.push(HeaderPair { name: String::from_str("Content-Type"), value: t });
            }
        },
        None => {},
    }
    let ghost first = headers_view(h@);
    assert(headers_view(h@) =~= first + headers_view(headers@).take(0));
    let mut i: usize = 0;
    while i < headers.len()
        invariant
            i <= headers@.len(),
            headers_view(h@) =~= first + headers_view(headers@).take(i as int),
        decreases headers.len() - i,
    {
        let ghost prev = h@;
        h.push(HeaderPair { name: headers[i].name.clone(), value: headers[i].value.clone() });
        assert(headers_view(h@) =~= headers_view(prev).push(headers@[i as int]@));
        assert(headers_view(headers@).take(i + 1) =~= headers_view(headers@).take(i as int).push(headers@[i as int]@));
        i += 1;
    }
    assert(headers_view(headers@).take(headers@.len() as int) =~= headers_view(headers@));
    h
}

/// What Cronet or the waiting loop reports.
pub enum CronetEvent {
    /// The time allowed ran out
    TimedOut,
    /// The response started, with its status and header fields
    ResponseStarted(u16, Vec<HeaderPair>),
    /// A redirect, with its header fields
    Redirect(Vec<HeaderPair>),
    /// The request succeeded
    Succeeded,
    /// The request failed
    Failed(Error),
    /// Any other callback
    Unexpected,
    /// The channel of callbacks closed
    ResponseChannelClosed,
    /// A piece of the body
    BodyChunk(Vec<u8>),
    /// Reading the body failed
    BodyFailed(Error),
    /// The body channel closed
    BodyChannelClosed,
}

/// What the waiting loop does next.
pub enum CronetStep {
    /// Wait for the next event
    Continue,
    /// Cancel the request, then fail with the error
    Cancel(Error),
    /// Fail with the error
    Fail(Error),
}

/// The response collected from Cronet's events.
pub struct ResponseCollector {
    /// Status, once the response started
    pub status: Option<u16>,
    /// Header fields, once the response started
    pub headers: Option<Vec<HeaderPair>>,
    /// The body so far
    pub body: Vec<u8>,
    /// Header fields of each redirect, in order
    pub redirect_headers: Vec<Vec<HeaderPair>>,
    /// Whether the request succeeded
    pub succeeded: bool,
    /// Whether the body channel closed
    pub body_closed: bool,
}

/// A collected response: status, header fields, body and the header
/// fields of each redirect.
pub struct CollectedResponse {
    /// Status
    pub status: u16,
    /// Header fields
    pub headers: Vec<HeaderPair>,
    /// Body
    pub body: Vec<u8>,
    /// Header fields of each redirect, in order
    pub redirect_headers: Vec<Vec<HeaderPair>>,
}

impl ResponseCollector {
    /// Nothing received yet.
    pub fn new() -> (c: Self)
        ensures
            c.status is None && c.headers is None && c.body@.len() == 0 && c.redirect_headers@.len() == 0
                && !c.succeeded && !c.body_closed,
    {
        ResponseCollector {
            status: None,
            headers: None,
            body: Vec::new(),
            redirect_headers: Vec::new(),
            succeeded: false,
            body_closed: false,
        }
    }

    /// Whether the loop ends: the request succeeded and the body is
    /// complete.
    pub fn is_done(&self) -> (done: bool)
        ensures
            done == (self.succeeded && self.body_closed),
    {
        self.succeeded && self.body_closed
    }

    /// What the loop does with an event. A timeout cancels the request and
    /// fails with `Timeout`; a failure of the request or of the body
    /// fails with its error; an unexpected callback or a closed callback
    /// channel fails; anything else is recorded.
    pub fn on_event(&mut self, event: CronetEvent) -> (step: CronetStep)
        ensures
            event is TimedOut ==> step matches CronetStep::Cancel(Error::Timeout),
            event matches CronetEvent::ResponseStarted(s, h) ==> step is Continue && final(self).status == Some(s)
                && final(self).headers == Some(h) && final(self).body == old(self).body,
            event matches CronetEvent::Redirect(h) ==> step is Continue && final(self).redirect_headers@ == old(
                self,
            ).redirect_headers@.push(h),
            event is Succeeded ==> step is Continue && final(self).succeeded,
            event matches CronetEvent::Failed(e) ==> step == CronetStep::Fail(e),
            event is Unexpected ==> (step matches CronetStep::Fail(Error::Internal(m)) && m@ == "Unexpected callback event"@),
            event is ResponseChannelClosed ==> (step matches CronetStep::Fail(Error::Internal(m)) && m@
                == "Response channel closed unexpectedly"@),
            event matches CronetEvent::BodyChunk(d) ==> step is Continue && final(self).body@ == old(self).body@ + d@,
            event matches CronetEvent::BodyFailed(e) ==> step == CronetStep::Fail(e),
            event is BodyChannelClosed ==> step is Continue && final(self).body_closed,
            !(event is ResponseStarted) ==> final(self).status == old(self).status,
            !(event is BodyChunk) ==> final(self).body@ == old(self).body@,
            !(event is Succeeded) ==> final(self).succeeded == old(self).succeeded,
            !(event is BodyChannelClosed) ==> final(self).body_closed == old(self).body_closed,
    {
        match event {
            CronetEvent::TimedOut => CronetStep::Cancel(Error::Timeout),
            CronetEvent::ResponseStarted(s, h) => {
                self.status = Some(s);
                self.headers = Some(h);
                CronetStep::Continue
            },
            CronetEvent::Redirect(h) => {
                self.redirect_headers.push(h);
                CronetStep::Continue
            },
            CronetEvent::Succeeded => {
                self.succeeded = true;
                CronetStep::Continue
            },
            CronetEvent::Failed(e) => CronetStep::Fail(e),
            CronetEvent::Unexpected => CronetStep::Fail(Error::Internal(String::from_str("Unexpected callback event"))),
            CronetEvent::ResponseChannelClosed => CronetStep::Fail(
                Error::Internal(String::from_str("Response channel closed unexpectedly")),
            ),
            CronetEvent::BodyChunk(d) => {
                let mut d = d;
                self.body.append(&mut d);
                CronetStep::Continue
            },
            CronetEvent::BodyFailed(e) => CronetStep::Fail(e),
            CronetEvent::BodyChannelClosed => {
                self.body_closed = true;
                CronetStep::Continue
            },
        }
    }

    /// The response once the loop is over: an error "No status received"
    /// or "No headers received" when the response never started.
    pub fn finish(self) -> (res: Result<CollectedResponse, Error>)
        ensures
            self.status is None ==> (res matches Err(Error::Internal(m)) && m@ == "No status received"@),
            self.status is Some && self.headers is None ==> (res matches Err(Error::Internal(m)) && m@
                == "No headers received"@),
            match (self.status, self.headers) {
                (Some(s), Some(h)) => res matches Ok(r) && r.status == s && r.headers == h && r.body@ == self.body@
                    && r.redirect_headers@ == self.redirect_headers@,
                _ => res is Err,
            },
    {
        let status = match self.status {
            Some(s) => s,
            None => return Err(Error::Internal(String::from_str("No status received"))),
        };
        let headers = match self.headers {
            Some(h) => h,
            None => return Err(Error::Internal(String::from_str("No headers received"))),
        };
        Ok(CollectedResponse { status, headers, body: self.body, redirect_headers: self.redirect_headers })
    }
}

} // verus!
