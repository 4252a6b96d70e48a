//! Upload builder: a POST request carrying raw data or a file's content.

use vstd::prelude::*;
use vstd::string::*;
use crate::auth::{Auth, spec_header_value};
use crate::backend::Backend;
use crate::body::{Body, BodyView};
use crate::client::download::all_text;
use crate::error::Error;
use crate::request::{Method, RequestBuilder, RequestView};
use crate::wire::{HeaderPair, header_lookup, header_value_ok, header_value_valid, headers_view, lookup_header, spec_header_name, spec_insert_header, str_eq, url_parses};

verus! {

/// The extension of a file path (`Path::extension`), when it is text.
/// What counts as the file name depends on the platform's path
/// separators, so nothing is stated of it.
#[verifier::external_body]
fn path_extension(path: &str) -> Option<String> {
    std::path::Path::new(path).extension().and_then(|e| e.to_str()).map(|e| e.to_string())
}

/// The content type guessed from a file extension (compared as is).
pub open spec fn spec_content_type_for(ext: Option<Seq<char>>) -> Seq<char> {
    match ext {
        Some(e) => if e == "txt"@ {
            "text/plain"@
        } else if e == "html"@ {
            "text/html"@
        } else if e == "css"@ {
            "text/css"@
        } else if e == "js"@ {
            "application/javascript"@
        } else if e == "pdf"@ {
            "application/pdf"@
        } else if e == "png"@ {
            "image/png"@
        } else if e == "jpg"@ || e == "jpeg"@ {
            "image/jpeg"@
        } else if e == "gif"@ {
            "image/gif"@
        } else if e == "zip"@ {
            "application/zip"@
        } else {
            "application/octet-stream"@
        },
        None => "application/octet-stream"@,
    }
}

/// The MIME type of each known extension: `txt`, `html`, `css`, `js`,
/// `pdf`, `png`, `jpg`/`jpeg`, `gif` and `zip` map to their own types;
/// any other extension, and none, to `application/octet-stream`.
pub proof fn law_content_type_table(e: Seq<char>)
    ensures
        e == "txt"@ ==> spec_content_type_for(Some(e)) == "text/plain"@,
        e == "html"@ ==> spec_content_type_for(Some(e)) == "text/html"@,
        e == "css"@ ==> spec_content_type_for(Some(e)) == "text/css"@,
        e == "js"@ ==> spec_content_type_for(Some(e)) == "application/javascript"@,
        e == "pdf"@ ==> spec_content_type_for(Some(e)) == "application/pdf"@,
        e == "png"@ ==> spec_content_type_for(Some(e)) == "image/png"@,
        e == "jpg"@ ==> spec_content_type_for(Some(e)) == "image/jpeg"@,
        e == "jpeg"@ ==> spec_content_type_for(Some(e)) == "image/jpeg"@,
        e == "gif"@ ==> spec_content_type_for(Some(e)) == "image/gif"@,
        e == "zip"@ ==> spec_content_type_for(Some(e)) == "application/zip"@,
        spec_content_type_for(None) == "application/octet-stream"@,
        !(e == "txt"@ || e == "html"@ || e == "css"@ || e == "js"@ || e == "pdf"@ || e == "png"@ || e == "jpg"@
            || e == "jpeg"@ || e == "gif"@ || e == "zip"@) ==> spec_content_type_for(Some(e)) == "application/octet-stream"@,
{
    reveal_strlit("txt");
    reveal_strlit("html");
    reveal_strlit("css");
    reveal_strlit("js");
    reveal_strlit("pdf");
    reveal_strlit("png");
    reveal_strlit("jpg");
    reveal_strlit("jpeg");
    reveal_strlit("gif");
    reveal_strlit("zip");
    assert("txt"@.len() == 3);
    assert("html"@.len() == 4);
    assert("css"@.len() == 3);
    assert("js"@.len() == 2);
    assert("pdf"@.len() == 3);
    assert("png"@.len() == 3);
    assert("jpg"@.len() == 3);
    assert("jpeg"@.len() == 4);
    assert("gif"@.len() == 3);
    assert("zip"@.len() == 3);
    assert("html"@ != "txt"@);
    assert("css"@[0] != "txt"@[0]);
    assert("css"@ != "txt"@);
    assert("css"@ != "html"@);
    assert("js"@ != "txt"@);
    assert("js"@ != "html"@);
    assert("js"@ != "css"@);
    assert("pdf"@[0] != "txt"@[0]);
    assert("pdf"@ != "txt"@);
    assert("pdf"@ != "html"@);
    assert("pdf"@[0] != "css"@[0]);
    assert("pdf"@ != "css"@);
    assert("pdf"@ != "js"@);
    assert("png"@[0] != "txt"@[0]);
    assert("png"@ != "txt"@);
    assert("png"@ != "html"@);
    assert("png"@[0] != "css"@[0]);
    assert("png"@ != "css"@);
    assert("png"@ != "js"@);
    assert("png"@[1] != "pdf"@[1]);
    assert("png"@ != "pdf"@);
    assert("jpg"@[0] != "txt"@[0]);
    assert("jpg"@ != "txt"@);
    assert("jpg"@ != "html"@);
    assert("jpg"@[0] != "css"@[0]);
    assert("jpg"@ != "css"@);
    assert("jpg"@ != "js"@);
    assert("jpg"@[0] != "pdf"@[0]);
    assert("jpg"@ != "pdf"@);
    assert("jpg"@[0] != "png"@[0]);
    assert("jpg"@ != "png"@);
    assert("jpeg"@ != "txt"@);
    assert("jpeg"@[0] != "html"@[0]);
    assert("jpeg"@ != "html"@);
    assert("jpeg"@ != "css"@);
    assert("jpeg"@ != "js"@);
    assert("jpeg"@ != "pdf"@);
    assert("jpeg"@ != "png"@);
    assert("jpeg"@ != "jpg"@);
    assert("gif"@[0] != "txt"@[0]);
    assert("gif"@ != "txt"@);
    assert("gif"@ != "html"@);
    assert("gif"@[0] != "css"@[0]);
    assert("gif"@ != "css"@);
    assert("gif"@ != "js"@);
    assert("gif"@[0] != "pdf"@[0]);
    assert("gif"@ != "pdf"@);
    assert("gif"@[0] != "png"@[0]);
    assert("gif"@ != "png"@);
    assert("gif"@[0] != "jpg"@[0]);
    assert("gif"@ != "jpg"@);
    assert("gif"@ != "jpeg"@);
    assert("zip"@[0] != "txt"@[0]);
    assert("zip"@ != "txt"@);
    assert("zip"@ != "html"@);
    assert("zip"@[0] != "css"@[0]);
    assert("zip"@ != "css"@);
    assert("zip"@ != "js"@);
    assert("zip"@[0] != "pdf"@[0]);
    assert("zip"@ != "pdf"@);
    assert("zip"@[0] != "png"@[0]);
    assert("zip"@ != "png"@);
    assert("zip"@[0] != "jpg"@[0]);
    assert("zip"@ != "jpg"@);
    assert("zip"@ != "jpeg"@);
    assert("zip"@[0] != "gif"@[0]);
    assert("zip"@ != "gif"@);
}

/// The content type guessed from a file extension.
pub fn content_type_for(ext: Option<&str>) -> (t: &'static str)
    ensures
        ext matches Some(e) && e@ == "txt"@ ==> t@ == "text/plain"@,
        ext matches Some(e) && e@ == "html"@ ==> t@ == "text/html"@,
        ext matches Some(e) && e@ == "css"@ ==> t@ == "text/css"@,
        ext matches Some(e) && e@ == "js"@ ==> t@ == "application/javascript"@,
        ext matches Some(e) && e@ == "pdf"@ ==> t@ == "application/pdf"@,
        ext matches Some(e) && e@ == "png"@ ==> t@ == "image/png"@,
        ext matches Some(e) && e@ == "jpg"@ ==> t@ == "image/jpeg"@,
        ext matches Some(e) && e@ == "jpeg"@ ==> t@ == "image/jpeg"@,
        ext matches Some(e) && e@ == "gif"@ ==> t@ == "image/gif"@,
        ext matches Some(e) && e@ == "zip"@ ==> t@ == "application/zip"@,
        ext is None ==> t@ == "application/octet-stream"@,
        t@ == spec_content_type_for(
            match ext {
                Some(e) => Some(e@),
                None => None,
            },
        ),
{
    proof {
        match ext {
            Some(e) => law_content_type_table(e@),
            None => law_content_type_table(Seq::empty()),
        }
    }
    match ext {
        Some(e) => if str_eq(e, "txt") {
            "text/plain"
        } else if str_eq(e, "html") {
            "text/html"
        } else if str_eq(e, "css") {
            "text/css"
        } else if str_eq(e, "js") {
            "application/javascript"
        } else if str_eq(e, "pdf") {
            "application/pdf"
        } else if str_eq(e, "png") {
            "image/png"
        } else if str_eq(e, "jpg") || str_eq(e, "jpeg") {
            "image/jpeg"
        } else if str_eq(e, "gif") {
            "image/gif"
        } else if str_eq(e, "zip") {
            "application/zip"
        } else {
            "application/octet-stream"
        },
        None => "application/octet-stream",
    }
}

/// The abstract value of an upload builder.
pub struct UploadView {
    /// The POST request
    pub request: RequestView,
    /// The file to send and its content type
    pub file: Option<(Seq<char>, Seq<char>)>,
    /// The data to send
    pub data: Option<Seq<u8>>,
}

/// Builder for uploads.
pub struct UploadBuilder {
    request: RequestBuilder,
    file: Option<(String, String)>,
    data: Option<Vec<u8>>,
}

impl View for UploadBuilder {
    type V = UploadView;

    closed spec fn view(&self) -> UploadView {
        UploadView {
            request: self.request@,
            file: match self.file {
                Some((p, t)) => Some((p@, t@)),
                None => None,
            },
            data: match self.data {
                Some(d) => Some(d@),
                None => None,
            },
        }
    }
}

/// What an upload sends.
pub enum UploadPlan {
    /// The request, body included
    Ready(RequestBuilder),
    /// The request still needs the file's content as its body, with this
    /// content type
    ReadFile {
        /// The request
        request: RequestBuilder,
        /// The file to read
        path: String,
        /// The body's content type
        content_type: String,
    },
}

/// The content type of raw data uploads.
pub open spec fn octet_stream() -> Seq<char> {
    "application/octet-stream"@
}

impl UploadBuilder {
    /// An upload to `url`; fails with `InvalidUrl` when the URL does not
    /// parse.
    pub fn new(backend: Backend, url: &str) -> (res: Result<Self, Error>)
        ensures
            res is Ok <==> url_parses(url@),
            res matches Err(e) ==> e is InvalidUrl,
            res matches Ok(u) ==> u@.request.method == Method::Post && u@.request.url == url@
                && u@.request.headers.len() == 0 && u@.request.body is None && u@.request.error_for_status
                && !u@.request.track_progress && u@.request.jar == backend.jar_view() && u@.request.client == backend.client_handle() && u@.file is None
                && u@.data is None,
    {
        match RequestBuilder::new(Method::Post, url, backend) {
            Ok(r) => Ok(UploadBuilder { request: r, file: None, data: None }),
            Err(e) => Err(e),
        }
    }

    /// Upload a file; its content type is guessed from its extension.
    pub fn from_file(self, path: &str) -> (u: Self)
        ensures
            u@.request == self@.request,
            u@.data == self@.data,
            u@.file matches Some((p, _)) && p == path@,
    {
        let ext = path_extension(path);
        let content_type = match &ext {
            Some(e) => content_type_for(Some(e.as_str())),
            None => content_type_for(None),
        };
        let mut u = self;
        u.file = Some((String::from_str(path), String::from_str(content_type)));
        u
    }

    /// Upload raw data.
    pub fn from_data(self, data: Vec<u8>) -> (u: Self)
        ensures
            u@ == (UploadView { data: Some(data@), ..self@ }),
    {
        let mut u = self;
        u.data = Some(data);
        u
    }

    /// Add a header field (see `RequestBuilder::header`).
    pub fn header(self, name: &str, value: &str) -> (res: Result<Self, Error>)
        ensures
            res is Ok <==> (spec_header_name(name@) is Some && header_value_ok(value@)),
            res matches Err(e) ==> e is InvalidHeader,
            res matches Ok(u) ==> u@ == (UploadView {
                request: RequestView {
                    headers: spec_insert_header(self@.request.headers, spec_header_name(name@)->0, value@),
                    ..self@.request
                },
                ..self@
            }),
    {
        let UploadBuilder { request, file, data } = self;
        match request.header(name, value) {
            Ok(r) => Ok(UploadBuilder { request: r, file, data }),
            Err(e) => Err(e),
        }
    }

    /// Set the `authorization` field; fails with `InvalidHeader` when the
    /// value is not a valid header value.
    pub fn auth(self, auth: &Auth) -> (res: Result<Self, Error>)
        ensures
            res is Ok <==> header_value_ok(spec_header_value(auth@)),
            res matches Err(e) ==> e is InvalidHeader,
            res matches Ok(u) ==> u@ == (UploadView {
                request: RequestView {
                    headers: spec_insert_header(self@.request.headers, "authorization"@, spec_header_value(auth@)),
                    ..self@.request
                },
                ..self@
            }),
    {
        let UploadBuilder { request, file, data } = self;
        match request.try_auth(auth) {
            Ok(r) => Ok(UploadBuilder { request: r, file, data }),
            Err(e) => Err(e),
        }
    }

    /// Report upload progress.
    pub fn track_progress(self) -> (u: Self)
        ensures
            u@ == (UploadView { request: RequestView { track_progress: true, ..self@.request }, ..self@ }),
    {
        let UploadBuilder { request, file, data } = self;
        UploadBuilder { request: request.track_progress(), file, data }
    }

    /// Set whether a status of 400 or more is an error.
    pub fn error_for_status(self, enabled: bool) -> (u: Self)
        ensures
            u@ == (UploadView { request: RequestView { error_for_status: enabled, ..self@.request }, ..self@ }),
    {
        let UploadBuilder { request, file, data } = self;
        UploadBuilder { request: request.error_for_status(enabled), file, data }
    }

    /// Accept error statuses.
    pub fn allow_error_status(self) -> (u: Self)
        ensures
            u@ == (UploadView { request: RequestView { error_for_status: false, ..self@.request }, ..self@ }),
    {
        self.error_for_status(false)
    }

    /// What the upload sends: raw data as an `application/octet-stream`
    /// body; otherwise the file, with its content type set as the
    /// `content-type` field unless one is set already (an invalid content
    /// type is an `InvalidHeader` error); with neither, an error "No file
    /// or data specified for upload". Every field value must read as text.
    pub fn plan(self) -> (res: Result<UploadPlan, Error>)
        requires
            all_text(self@.request.headers),
        ensures
            self@.data matches Some(d) ==> (res matches Ok(UploadPlan::Ready(r)) && r@ == (RequestView {
                body: Some(BodyView::Bytes(d, octet_stream())),
                ..self@.request
            })),
            self@.data is None && self@.file is None ==> (res matches Err(Error::Internal(m)) && m@
                == "No file or data specified for upload"@),
            self@.data is None ==> match self@.file {
                Some((p, t)) => if header_lookup(self@.request.headers, "content-type"@) is Some {
                    res matches Ok(UploadPlan::ReadFile { request, path, content_type }) && request@ == self@.request
                        && path@ == p && content_type@ == t
                } else if header_value_ok(t) {
                    res matches Ok(UploadPlan::ReadFile { request, path, content_type }) && request@ == (RequestView {
                        headers: spec_insert_header(self@.request.headers, "content-type"@, t),
                        ..self@.request
                    }) && path@ == p && content_type@ == t
                } else {
                    res matches Err(Error::InvalidHeader)
                },
                None => true,
            },
    {
        let UploadBuilder { request, file, data } = self;
        match data {
            Some(d) => return Ok(UploadPlan::Ready(request.body(Body::bytes(d, "application/octet-stream")))),
            None => {},
        }
        match file {
            Some((path, content_type)) => {
                let request = if lookup_header(request.headers(), "content-type").is_none() {
                    match request.header("content-type", content_type.as_str()) {
                        Ok(r) => {
                            proof {
                                reveal_strlit("content-type");
                                assert(crate::wire::spec_header_name("content-type"@) == Some("content-type"@)) by {
                                    assert("content-type"@.map_values(|c: char| crate::wire::ascii_lower(c)) =~= "content-type"@);
                                }
                            }
                            r
                        },
                        Err(e) => {
                            proof {
                                reveal_strlit("content-type");
                                assert("content-type"@.map_values(|c: char| crate::wire::ascii_lower(c)) =~= "content-type"@);
                            }
                            return Err(e);
                        },
                    }
                } else {
                    request
                };
                Ok(UploadPlan::ReadFile { request, path, content_type })
            },
            None => Err(Error::Internal(String::from_str("No file or data specified for upload"))),
        }
    }
}

} // verus!
