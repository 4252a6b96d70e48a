//! Types shared between the backends.

use vstd::prelude::*;
use crate::body::{Body, BodyView};
use crate::request::Method;
use crate::wire::{HeaderPair, headers_view};

verus! {

/// A request as the backends receive it.
pub struct BackendRequest {
    /// HTTP method
    pub method: Method,
    /// URL (one that `url::Url::parse` accepts)
    pub url: String,
    /// Header fields, each name once, in lower case
    pub headers: Vec<HeaderPair>,
    /// Optional body
    pub body: Option<Body>,
    /// Whether upload progress is reported
    pub track_progress: bool,
}

/// The abstract value of a backend request.
pub struct BackendRequestView {
    /// HTTP method
    pub method: Method,
    /// URL
    pub url: Seq<char>,
    /// Header fields
    pub headers: Seq<(Seq<char>, Seq<char>)>,
    /// Body
    pub body: Option<BodyView>,
    /// Whether upload progress is reported
    pub track_progress: bool,
}

impl View for BackendRequest {
    type V = BackendRequestView;

    open spec fn view(&self) -> BackendRequestView {
        BackendRequestView {
            method: self.method,
            url: self.url@,
            headers: headers_view(self.headers@),
            body: match self.body {
                Some(b) => Some(b@),
                None => None,
            },
            track_progress: self.track_progress,
        }
    }
}

/// Progress information for downloads and uploads.
pub struct ProgressInfo {
    /// Number of bytes transferred so far
    pub bytes_transferred: u64,
    /// Total bytes to transfer (if known)
    pub total_bytes: Option<u64>,
}

} // verus!
