//! Requests and their builder: method, URL, header fields, body and how an
//! error status is treated.

use vstd::prelude::*;
use vstd::string::*;
use crate::auth::{Auth, spec_header_value};
use crate::backend::Backend;
use crate::backend::reqwest::ReqwestClient;
use crate::backend::cookie_store::JarView;
use crate::backend::types::{BackendRequest, BackendRequestView};
use crate::body::{Body, BodyView, fields_view, text_content_type};
use crate::error::Error;
use crate::wire::{HeaderPair, header_name_normalized, header_value_ok, header_value_valid, headers_view, insert_header, parse_url, spec_header_name, spec_insert_header, url_parses};

verus! {

/// HTTP request methods.
#[derive(Clone, Copy, PartialEq, Eq, Structural, Debug)]
pub enum Method {
    /// GET
    Get,
    /// POST
    Post,
    /// PUT
    Put,
    /// DELETE
    Delete,
    /// HEAD
    Head,
    /// PATCH
    Patch,
    /// OPTIONS
    Options,
}

/// The name of a method as sent on the wire.
pub open spec fn spec_method_name(m: Method) -> Seq<char> {
    match m {
        Method::Get => "GET"@,
        Method::Post => "POST"@,
        Method::Put => "PUT"@,
        Method::Delete => "DELETE"@,
        Method::Head => "HEAD"@,
        Method::Patch => "PATCH"@,
        Method::Options => "OPTIONS"@,
    }
}

impl Method {
    /// The name of the method.
    pub fn as_str(&self) -> (s: &'static str)
        ensures
            s@ == spec_method_name(*self),
    {
        match self {
            Method::Get => "GET",
            Method::Post => "POST",
            Method::Put => "PUT",
            Method::Delete => "DELETE",
            Method::Head => "HEAD",
            Method::Patch => "PATCH",
            Method::Options => "OPTIONS",
        }
    }
}

/// The abstract value of a request builder.
pub struct RequestView {
    /// Method
    pub method: Method,
    /// URL
    pub url: Seq<char>,
    /// Header fields
    pub headers: Seq<(Seq<char>, Seq<char>)>,
    /// Body
    pub body: Option<BodyView>,
    /// Whether upload progress is reported
    pub track_progress: bool,
    /// Whether a status of 400 or more is an error
    pub error_for_status: bool,
    /// The cookie jar of the backend
    pub jar: Option<JarView>,
    /// The client the request is sent with
    pub client: ReqwestClient,
}

/// Builder for HTTP requests.
pub struct RequestBuilder {
    method: Method,
    url: String,
    headers: Vec<HeaderPair>,
    body: Option<Body>,
    backend: Backend,
    track_progress: bool,
    error_for_status: bool,
}

impl View for RequestBuilder {
    type V = RequestView;

    closed spec fn view(&self) -> RequestView {
        RequestView {
            method: self.method,
            url: self.url@,
            headers: headers_view(self.headers@),
            body: match self.body {
                Some(b) => Some(b@),
                None => None,
            },
            track_progress: self.track_progress,
            error_for_status: self.error_for_status,
            jar: self.backend.jar_view(),
            client: self.backend.client_handle(),
        }
    }
}

/// The outcome of a response status: an `HttpError` when the request
/// treats error statuses as errors and the status is 400 or more.
pub open spec fn spec_status_outcome(error_for_status: bool, status: u16) -> Result<(), Error> {
    if error_for_status && status >= 400 {
        Err(Error::HttpError(status))
    } else {
        Ok(())
    }
}

/// A request that accepts error statuses never fails on its status; one
/// that does not fails exactly on statuses of 400 and above, with the
/// status itself.
pub proof fn law_status_outcome(status: u16)
    ensures
        spec_status_outcome(false, status) is Ok,
        spec_status_outcome(true, status) is Err <==> status >= 400,
        spec_status_outcome(true, status) is Err ==> spec_status_outcome(true, status) == Err::<(), Error>(Error::HttpError(status)),
{
}

/// Checks a response status (see `spec_status_outcome`).
pub fn check_status(error_for_status: bool, status: u16) -> (res: Result<(), Error>)
    ensures
        res == spec_status_outcome(error_for_status, status),
{
    if error_for_status && status >= 400 {
        Err(Error::HttpError(status))
    } else {
        Ok(())
    }
}

impl RequestBuilder {
    /// A request with no header fields and no body, for which an error
    /// status is an error. Fails with `InvalidUrl` when the URL does not
    /// parse.
    pub fn new(method: Method, url: &str, backend: Backend) -> (res: Result<Self, Error>)
        ensures
            res is Ok <==> url_parses(url@),
            res matches Err(e) ==> e is InvalidUrl,
            res matches Ok(r) ==> r@ == (RequestView {
                method,
                url: url@,
                headers: Seq::empty(),
                body: None,
                track_progress: false,
                error_for_status: true,
                jar: backend.jar_view(),
                client: backend.client_handle(),
            }),
    {
        match parse_url(url) {
            Some(_) => Ok(Self::with_valid_url(method, url, backend)),
            None => Err(Error::InvalidUrl),
        }
    }

    /// A request to a URL known to parse (see `new`).
    pub(crate) fn with_valid_url(method: Method, url: &str, backend: Backend) -> (r: Self)
        requires
            url_parses(url@),
        ensures
            r@ == (RequestView {
                method,
                url: url@,
                headers: Seq::empty(),
                body: None,
                track_progress: false,
                error_for_status: true,
                jar: backend.jar_view(),
                client: backend.client_handle(),
            }),
    {
        let r = RequestBuilder {
            method,
            url: String::from_str(url),
            headers: Vec::new(),
            body: None,
            backend,
            track_progress: false,
            error_for_status: true,
        };
        assert(headers_view(r.headers@) =~= Seq::empty());
        r
    }

    /// Add a header field: the name is normalized to lower case and
    /// replaces an earlier field of that name. Fails with `InvalidHeader`
    /// when the name or the value is not valid.
    pub fn header(self, name: &str, value: &str) -> (res: Result<Self, Error>)
        ensures
            res is Ok <==> (spec_header_name(name@) is Some && header_value_ok(value@)),
            res matches Err(e) ==> e is InvalidHeader,
            res matches Ok(r) ==> r@ == (RequestView {
                headers: spec_insert_header(self@.headers, spec_header_name(name@)->0, value@),
                ..self@
            }),
    {
        let header_name = match header_name_normalized(name) {
            Some(n) => n,
            None => return Err(Error::InvalidHeader),
        };
        if !header_value_valid(value).is_ok() {
            return Err(Error::InvalidHeader);
        }
        let mut r = self;
        insert_header(&mut r.headers, header_name, String::from_str(value));
        Ok(r)
    }

    /// Set the body.
    pub fn body(self, body: Body) -> (r: Self)
        ensures
            r@ == (RequestView { body: Some(body@), ..self@ }),
    {
        let mut r = self;
        r.body = Some(body);
        r
    }

    /// Set a JSON body.
    pub fn json(self, value: serde_json::Value) -> (r: Self)
        ensures
            r@ == (RequestView { body: Some(BodyView::Json(value)), ..self@ }),
    {
        self.body(Body::json(value))
    }

    /// Set a form body.
    pub fn form(self, fields: Vec<(String, String)>) -> (r: Self)
        ensures
            r@ == (RequestView { body: Some(BodyView::Form(fields_view(fields@))), ..self@ }),
    {
        self.body(Body::form(fields))
    }

    /// Set a text body.
    pub fn text(self, content: &str) -> (r: Self)
        ensures
            r@ == (RequestView {
                body: Some(BodyView::Bytes(vstd::utf8::encode_utf8(content@), text_content_type())),
                ..self@
            }),
    {
        self.body(Body::text(content))
    }

    /// Set the `authorization` field to the value of the authentication
    /// method; the value must be a valid header value.
    pub fn auth(self, auth: &Auth) -> (r: Self)
        requires
            header_value_ok(spec_header_value(auth@)),
        ensures
            r@ == (RequestView {
                headers: spec_insert_header(self@.headers, "authorization"@, spec_header_value(auth@)),
                ..self@
            }),
    {
        let value = auth.to_header_value();
        let mut r = self;
        insert_header(&mut r.headers, String::from_str("authorization"), value);
        r
    }

    /// Set the `authorization` field to the value of the authentication
    /// method; fails with `InvalidHeader` when that value is not a valid
    /// header value.
    pub fn try_auth(self, auth: &Auth) -> (res: Result<Self, Error>)
        ensures
            res is Ok <==> header_value_ok(spec_header_value(auth@)),
            res matches Err(e) ==> e is InvalidHeader,
            res matches Ok(r) ==> r@ == (RequestView {
                headers: spec_insert_header(self@.headers, "authorization"@, spec_header_value(auth@)),
                ..self@
            }),
    {
        let value = auth.to_header_value();
        if !header_value_valid(value.as_str()).is_ok() {
            return Err(Error::InvalidHeader);
        }
        let mut r = self;
        insert_header(&mut r.headers, String::from_str("authorization"), value);
        Ok(r)
    }

    /// The URL the request goes to.
    pub fn url(&self) -> (u: &str)
        ensures
            u@ == self@.url,
    {
        self.url.as_str()
    }

    /// The header fields set so far.
    pub fn headers(&self) -> (h: &Vec<HeaderPair>)
        ensures
            headers_view(h@) == self@.headers,
    {
        &self.headers
    }

    /// Report upload progress for this request.
    pub fn track_progress(self) -> (r: Self)
        ensures
            r@ == (RequestView { track_progress: true, ..self@ }),
    {
        let mut r = self;
        r.track_progress = true;
        r
    }

    /// Set whether a status of 400 or more is an error (it is by default).
    pub fn error_for_status(self, enabled: bool) -> (r: Self)
        ensures
            r@ == (RequestView { error_for_status: enabled, ..self@ }),
    {
        let mut r = self;
        r.error_for_status = enabled;
        r
    }

    /// Accept error statuses as ordinary responses.
    pub fn allow_error_status(self) -> (r: Self)
        ensures
            r@ == (RequestView { error_for_status: false, ..self@ }),
    {
        self.error_for_status(false)
    }

    /// The request to send, the backend to send it with, and whether an
    /// error status is an error.
    pub fn build(self) -> (r: Request)
        ensures
            r.request@ == (BackendRequestView {
                method: self@.method,
                url: self@.url,
                headers: self@.headers,
                body: self@.body,
                track_progress: self@.track_progress,
            }),
            r.error_for_status == self@.error_for_status,
            r.backend.jar_view() == self@.jar,
            r.backend.client_handle() == self@.client,
    {
        Request {
            request: BackendRequest {
                method: self.method,
                url: self.url,
                headers: self.headers,
                body: self.body,
                track_progress: self.track_progress,
            },
            backend: self.backend,
            error_for_status: self.error_for_status,
        }
    }
}

/// A request ready to be sent.
pub struct Request {
    /// What is sent
    pub request: BackendRequest,
    /// The backend that sends it
    pub backend: Backend,
    /// Whether a status of 400 or more is an error
    pub error_for_status: bool,
}

impl Request {
    /// The outcome of the response status (see `spec_status_outcome`).
    pub fn check_status(&self, status: u16) -> (res: Result<(), Error>)
        ensures
            res == spec_status_outcome(self.error_for_status, status),
    {
        check_status(self.error_for_status, status)
    }
}

} // verus!
