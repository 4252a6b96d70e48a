//! Download builder: a GET request whose body is written to a file, with
//! progress counted as the chunks arrive.

use vstd::prelude::*;
use vstd::string::*;
use crate::auth::{Auth, spec_header_value};
use crate::backend::Backend;
use crate::backend::cookie_store::{is_visible_ascii, visible_ascii};
use crate::error::Error;
use crate::request::{Method, RequestBuilder, RequestView};
use crate::wire::{HeaderPair, header_value_ok, headers_view, spec_header_name, spec_insert_header, url_parses};

verus! {

/// The result of a completed download.
pub struct DownloadResponse {
    /// The file the body was written to
    pub file_path: String,
    /// Number of bytes written
    pub bytes_downloaded: u64,
    /// Response status
    pub status: u16,
    /// Response header fields
    pub headers: Vec<HeaderPair>,
}

/// Whether every field value reads as text.
pub open spec fn all_text(h: Seq<(Seq<char>, Seq<char>)>) -> bool {
    forall|i: int| 0 <= i < h.len() ==> visible_ascii(#[trigger] h[i].1)
}

/// Checks that every field value reads as text.
pub fn headers_are_text(h: &Vec<HeaderPair>) -> (r: bool)
    ensures
        r == all_text(headers_view(h@)),
{
    let mut i: usize = 0;
    while i < h.len()
        invariant
            i <= h@.len(),
            forall|j: int| 0 <= j < i ==> visible_ascii(#[trigger] headers_view(h@)[j].1),
        decreases h.len() - i,
    {
        assert(headers_view(h@)[i as int] == h@[i as int]@);
        if !is_visible_ascii(h[i].value.as_str()) {
            assert(!visible_ascii(headers_view(h@)[i as int].1));
            return false;
        }
        i += 1;
    }
    true
}

/// The abstract value of a download builder.
pub struct DownloadView {
    /// The GET request (sent with error statuses allowed)
    pub request: RequestView,
    /// Where the body goes
    pub file_path: Option<Seq<char>>,
    /// Whether a status of 400 or more fails the download
    pub error_for_status: bool,
    /// Whether progress is reported
    pub track_progress: bool,
}

/// Builder for downloads to a file.
pub struct DownloadBuilder {
    request: RequestBuilder,
    file_path: Option<String>,
    error_for_status: bool,
    track_progress: bool,
}

impl View for DownloadBuilder {
    type V = DownloadView;

    closed spec fn view(&self) -> DownloadView {
        DownloadView {
            request: self.request@,
            file_path: crate::cookies::opt_view(self.file_path),
            error_for_status: self.error_for_status,
            track_progress: self.track_progress,
        }
    }
}

/// What a download sends and where its body goes.
pub struct DownloadPlan {
    /// The request
    pub request: RequestBuilder,
    /// The file the body is written to
    pub file_path: String,
    /// Whether a status of 400 or more fails the download
    pub error_for_status: bool,
    /// Whether progress is reported
    pub track_progress: bool,
}

impl DownloadBuilder {
    /// A download of `url` into `file_path`; fails with `InvalidUrl` when
    /// the URL does not parse.
    pub fn new(backend: Backend, url: &str, file_path: &str) -> (res: Result<Self, Error>)
        ensures
            res is Ok <==> url_parses(url@),
            res matches Err(e) ==> e is InvalidUrl,
            res matches Ok(d) ==> d@.request.method == Method::Get && d@.request.url == url@
                && d@.request.headers.len() == 0 && d@.request.body is None && !d@.request.error_for_status
                && d@.request.jar == backend.jar_view() && d@.request.client == backend.client_handle() && d@.file_path == Some(file_path@) && d@.error_for_status
                && !d@.track_progress,
    {
        match RequestBuilder::new(Method::Get, url, backend) {
            Ok(r) => Ok(DownloadBuilder {
                request: r.allow_error_status(),
                file_path: Some(String::from_str(file_path)),
                error_for_status: true,
                track_progress: false,
            }),
            Err(e) => Err(e),
        }
    }

    /// Report progress as the body arrives.
    pub fn track_progress(self) -> (d: Self)
        ensures
            d@ == (DownloadView { track_progress: true, ..self@ }),
    {
        let mut d = self;
        d.track_progress = true;
        d
    }

    /// Set whether a status of 400 or more fails the download (it does by
    /// default).
    pub fn error_for_status(self, enabled: bool) -> (d: Self)
        ensures
            d@ == (DownloadView { error_for_status: enabled, ..self@ }),
    {
        let mut d = self;
        d.error_for_status = enabled;
        d
    }

    /// Accept error statuses.
    pub fn allow_error_status(self) -> (d: Self)
        ensures
            d@ == (DownloadView { error_for_status: false, ..self@ }),
    {
        self.error_for_status(false)
    }

    /// Add a header field (see `RequestBuilder::header`).
    pub fn header(self, name: &str, value: &str) -> (res: Result<Self, Error>)
        ensures
            res is Ok <==> (spec_header_name(name@) is Some && header_value_ok(value@)),
            res matches Err(e) ==> e is InvalidHeader,
            res matches Ok(d) ==> d@ == (DownloadView {
                request: RequestView {
                    headers: spec_insert_header(self@.request.headers, spec_header_name(name@)->0, value@),
                    ..self@.request
                },
                ..self@
            }),
    {
        let DownloadBuilder { request, file_path, error_for_status, track_progress } = self;
        match request.header(name, value) {
            Ok(r) => Ok(DownloadBuilder { request: r, file_path, error_for_status, track_progress }),
            Err(e) => Err(e),
        }
    }

    /// Set the `authorization` field; fails with `InvalidHeader` when the
    /// value is not a valid header value.
    pub fn auth(self, auth: &Auth) -> (res: Result<Self, Error>)
        ensures
            res is Ok <==> header_value_ok(spec_header_value(auth@)),
            res matches Err(e) ==> e is InvalidHeader,
            res matches Ok(d) ==> d@ == (DownloadView {
                request: RequestView {
                    headers: spec_insert_header(self@.request.headers, "authorization"@, spec_header_value(auth@)),
                    ..self@.request
                },
                ..self@
            }),
    {
        let DownloadBuilder { request, file_path, error_for_status, track_progress } = self;
        match request.try_auth(auth) {
            Ok(r) => Ok(DownloadBuilder { request: r, file_path, error_for_status, track_progress }),
            Err(e) => Err(e),
        }
    }

    /// What the download sends: fails with "Download file path not
    /// specified" without a file, and with `InvalidHeader` when a field
    /// value does not read as text.
    pub fn plan(self) -> (res: Result<DownloadPlan, Error>)
        ensures
            self@.file_path is None ==> (res matches Err(Error::Internal(m)) && m@ == "Download file path not specified"@),
            self@.file_path is Some && !all_text(self@.request.headers) ==> res matches Err(Error::InvalidHeader),
            self@.file_path is Some && all_text(self@.request.headers) ==> (res matches Ok(p) && p.request@ == self@.request
                && p.file_path@ == self@.file_path->0 && p.error_for_status == self@.error_for_status && p.track_progress
                == self@.track_progress),
    {
        let DownloadBuilder { request, file_path, error_for_status, track_progress } = self;
        let file_path = match file_path {
            Some(p) => p,
            None => return Err(Error::Internal(String::from_str("Download file path not specified"))),
        };
        if !headers_are_text(request.headers()) {
            return Err(Error::InvalidHeader);
        }
        Ok(DownloadPlan { request, file_path, error_for_status, track_progress })
    }
}

/// Progress of a transfer: the bytes so far and the total, when known.
pub struct TransferProgress {
    /// Bytes transferred so far
    pub transferred: u64,
    /// Total bytes, when known
    pub total: Option<u64>,
}

impl TransferProgress {
    /// Nothing transferred yet.
    pub fn new(total: Option<u64>) -> (p: Self)
        ensures
            p.transferred == 0,
            p.total == total,
    {
        TransferProgress { transferred: 0, total }
    }

    /// Counts a chunk of `len` bytes; returns the progress to report.
    pub fn on_chunk(&mut self, len: u64) -> (report: (u64, Option<u64>))
        requires
            old(self).transferred + len <= u64::MAX,
        ensures
            final(self).transferred == old(self).transferred + len,
            final(self).total == old(self).total,
            report == (final(self).transferred, final(self).total),
    {
        self.transferred = self.transferred + len;
        (self.transferred, self.total)
    }
}

} // verus!
