//! Builder for background downloads, which continue when the program
//! ends.

use vstd::prelude::*;
use vstd::string::*;
use crate::auth::{Auth, spec_header_value};
use crate::backend::Backend;
use crate::error::Error;
use crate::request::{Method, RequestBuilder, RequestView};
use crate::wire::{HeaderPair, header_value_ok, headers_view, spec_header_name, spec_insert_header, url_parses};

verus! {

/// The abstract value of a background download builder.
pub struct BackgroundView {
    /// The GET request
    pub request: RequestView,
    /// Identifier of the background session
    pub session_identifier: Option<Seq<char>>,
    /// Where the body goes
    pub file_path: Option<Seq<char>>,
    /// Whether a status of 400 or more fails the download
    pub error_for_status: bool,
    /// Whether progress is reported
    pub track_progress: bool,
}

/// Builder for background downloads.
pub struct BackgroundDownloadBuilder {
    request: RequestBuilder,
    session_identifier: Option<String>,
    file_path: Option<String>,
    error_for_status: bool,
    track_progress: bool,
}

impl View for BackgroundDownloadBuilder {
    type V = BackgroundView;

    closed spec fn view(&self) -> BackgroundView {
        BackgroundView {
            request: self.request@,
            session_identifier: crate::cookies::opt_view(self.session_identifier),
            file_path: crate::cookies::opt_view(self.file_path),
            error_for_status: self.error_for_status,
            track_progress: self.track_progress,
        }
    }
}

/// What a background download hands to the backend.
pub struct BackgroundPlan {
    /// The request
    pub request: RequestBuilder,
    /// Identifier of the background session
    pub session_identifier: Option<String>,
    /// The file the body is written to
    pub file_path: String,
    /// Whether a status of 400 or more fails the download
    pub error_for_status: bool,
    /// Whether progress is reported
    pub track_progress: bool,
}

impl BackgroundDownloadBuilder {
    /// A background download of `url` into `file_path`; the URL must
    /// parse.
    pub(crate) fn new(backend: Backend, url: &str, file_path: &str) -> (b: Self)
        requires
            url_parses(url@),
        ensures
            b@.request.method == Method::Get && b@.request.url == url@ && b@.request.headers.len() == 0
                && b@.request.body is None && b@.request.jar == backend.jar_view() && b@.request.client == backend.client_handle() && b@.session_identifier is None
                && b@.file_path == Some(file_path@) && b@.error_for_status && !b@.track_progress,
    {
        let request = RequestBuilder::with_valid_url(Method::Get, url, backend);
        BackgroundDownloadBuilder {
            request,
            session_identifier: None,
            file_path: Some(String::from_str(file_path)),
            error_for_status: true,
            track_progress: false,
        }
    }

    /// Set the identifier of the background session.
    pub fn session_identifier(self, identifier: &str) -> (b: Self)
        ensures
            b@ == (BackgroundView { session_identifier: Some(identifier@), ..self@ }),
    {
        let mut b = self;
        b.session_identifier = Some(String::from_str(identifier));
        b
    }

    /// Set the file the body is written to.
    pub fn to_file(self, path: &str) -> (b: Self)
        ensures
            b@ == (BackgroundView { file_path: Some(path@), ..self@ }),
    {
        let mut b = self;
        b.file_path = Some(String::from_str(path));
        b
    }

    /// Report progress as the body arrives.
    pub fn track_progress(self) -> (b: Self)
        ensures
            b@ == (BackgroundView { track_progress: true, ..self@ }),
    {
        let mut b = self;
        b.track_progress = true;
        b
    }

    /// Set whether a status of 400 or more fails the download.
    pub fn error_for_status(self, enabled: bool) -> (b: Self)
        ensures
            b@ == (BackgroundView { error_for_status: enabled, ..self@ }),
    {
        let mut b = self;
        b.error_for_status = enabled;
        b
    }

    /// Accept error statuses.
    pub fn allow_error_status(self) -> (b: Self)
        ensures
            b@ == (BackgroundView { error_for_status: false, ..self@ }),
    {
        self.error_for_status(false)
    }

    /// Add a header field (see `RequestBuilder::header`).
    pub fn header(self, name: &str, value: &str) -> (res: Result<Self, Error>)
        ensures
            res is Ok <==> (spec_header_name(name@) is Some && header_value_ok(value@)),
            res matches Err(e) ==> e is InvalidHeader,
            res matches Ok(b) ==> b@ == (BackgroundView {
                request: RequestView {
                    headers: spec_insert_header(self@.request.headers, spec_header_name(name@)->0, value@),
                    ..self@.request
                },
                ..self@
            }),
    {
        let BackgroundDownloadBuilder { request, session_identifier, file_path, error_for_status, track_progress } = self;
        match request.header(name, value) {
            Ok(r) => Ok(BackgroundDownloadBuilder { request: r, session_identifier, file_path, error_for_status, track_progress }),
            Err(e) => Err(e),
        }
    }

    /// Set the `authorization` field; fails with `InvalidHeader` when the
    /// value is not a valid header value.
    pub fn auth(self, auth: &Auth) -> (res: Result<Self, Error>)
        ensures
            res is Ok <==> header_value_ok(spec_header_value(auth@)),
            res matches Err(e) ==> e is InvalidHeader,
            res matches Ok(b) ==> b@ == (BackgroundView {
                request: RequestView {
                    headers: spec_insert_header(self@.request.headers, "authorization"@, spec_header_value(auth@)),
                    ..self@.request
                },
                ..self@
            }),
    {
        let BackgroundDownloadBuilder { request, session_identifier, file_path, error_for_status, track_progress } = self;
        match request.try_auth(auth) {
            Ok(r) => Ok(BackgroundDownloadBuilder { request: r, session_identifier, file_path, error_for_status, track_progress }),
            Err(e) => Err(e),
        }
    }

    /// What the backend receives; fails with "Background download file
    /// path not specified" without a file.
    pub fn plan(self) -> (res: Result<BackgroundPlan, Error>)
        ensures
            self@.file_path is None ==> (res matches Err(Error::Internal(m)) && m@
                == "Background download file path not specified"@),
            self@.file_path is Some ==> (res matches Ok(p) && p.request@ == self@.request && p.file_path@
                == self@.file_path->0 && crate::cookies::opt_view(p.session_identifier) == self@.session_identifier
                && p.error_for_status == self@.error_for_status && p.track_progress == self@.track_progress),
    {
        let BackgroundDownloadBuilder { request, session_identifier, file_path, error_for_status, track_progress } = self;
        match file_path {
            Some(file_path) => Ok(BackgroundPlan { request, session_identifier, file_path, error_for_status, track_progress }),
            None => Err(Error::Internal(String::from_str("Background download file path not specified"))),
        }
    }
}

} // verus!
