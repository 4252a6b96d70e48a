//! Request body types and the bytes each body is sent as.

use vstd::prelude::*;
use vstd::string::*;
use crate::error::Error;

verus! {

#[verifier::external_type_specification]
#[verifier::external_body]
pub struct ExJsonValue(serde_json::Value);

/// A byte that percent-encoding leaves as it is: ASCII letters and
/// digits, `-`, `.`, `_` and `~`.
pub open spec fn unreserved(b: u8) -> bool {
    (48 <= b <= 57) || (65 <= b <= 90) || (97 <= b <= 122) || b == 45 || b == 46 || b == 95 || b == 126
}

/// The upper-case hexadecimal digit for 0..=15.
pub open spec fn hex_digit(d: int) -> char {
    if d < 10 { (48 + d) as char } else { (55 + d) as char }
}

/// The encoding of one byte: itself when unreserved, `%XY` otherwise.
pub open spec fn encode_byte(b: u8) -> Seq<char> {
    if unreserved(b) {
        seq![b as char]
    } else {
        seq!['%', hex_digit((b / 16) as int), hex_digit((b % 16) as int)]
    }
}

/// Percent-encoding of a byte string, byte by byte.
pub open spec fn spec_percent_encode(s: Seq<u8>) -> Seq<char>
    decreases s.len(),
{
    if s.len() == 0 {
        Seq::empty()
    } else {
        spec_percent_encode(s.drop_last()) + encode_byte(s.last())
    }
}

/// `urlencoding::encode`: percent-encodes every byte of the text's UTF-8
/// form except ASCII letters, digits, `-`, `.`, `_` and `~`, with
/// upper-case hexadecimal digits.
#[verifier::external_body]
pub fn url_encode(s: &str) -> (r: String)
    ensures
        r@ == spec_percent_encode(vstd::utf8::encode_utf8(s@)),
{
    urlencoding::encode(s).into_owned()
}

/// The bytes `serde_json::to_vec` writes for a JSON value. They depend on
/// the value alone.
pub uninterp spec fn json_bytes(value: serde_json::Value) -> Seq<u8>;

/// `serde_json::to_vec` of a JSON value. Serializing a `Value` into a
/// `Vec` does not fail: its map keys are strings and the writer cannot
/// fail.
#[verifier::external_body]
pub(crate) fn json_to_vec(value: &serde_json::Value) -> (res: Result<Vec<u8>, String>)
    ensures
        res is Ok,
        res matches Ok(v) ==> v@ == json_bytes(*value),
{
    serde_json::to_vec(value).map_err(|e| e.to_string())
}

/// A copy of a JSON value (`Clone`).
#[verifier::external_body]
fn copy_json(value: &serde_json::Value) -> (c: serde_json::Value)
    ensures
        c == *value,
{
    value.clone()
}

/// One part of a multipart form.
pub struct MultipartPart {
    /// Field name
    pub name: String,
    /// Content of the part
    pub content: Vec<u8>,
    /// Content type of the part
    pub content_type: Option<String>,
    /// Filename (for file uploads)
    pub filename: Option<String>,
}

/// The abstract value of a multipart part.
pub struct PartView {
    /// Field name
    pub name: Seq<char>,
    /// Content
    pub content: Seq<u8>,
    /// Content type
    pub content_type: Option<Seq<char>>,
    /// Filename
    pub filename: Option<Seq<char>>,
}

impl View for MultipartPart {
    type V = PartView;

    open spec fn view(&self) -> PartView {
        PartView {
            name: self.name@,
            content: self.content@,
            content_type: crate::cookies::opt_view(self.content_type),
            filename: crate::cookies::opt_view(self.filename),
        }
    }
}

/// The views of a list of parts.
pub open spec fn parts_view(p: Seq<MultipartPart>) -> Seq<PartView> {
    p.map_values(|x: MultipartPart| x@)
}

/// The content type of a text body.
pub open spec fn text_content_type() -> Seq<char> {
    "text/plain; charset=utf-8"@
}

impl MultipartPart {
    /// A text field.
    pub fn text(name: &str, content: &str) -> (part: Self)
        ensures
            part@ == (PartView {
                name: name@,
                content: vstd::utf8::encode_utf8(content@),
                content_type: Some(text_content_type()),
                filename: None,
            }),
    {
        MultipartPart {
            name: String::from_str(name),
            content: content.as_bytes_vec(),
            content_type: Some(String::from_str("text/plain; charset=utf-8")),
            filename: None,
        }
    }

    /// A file field.
    pub fn file(name: &str, content: Vec<u8>, filename: &str, content_type: Option<String>) -> (part: Self)
        ensures
            part@ == (PartView {
                name: name@,
                content: content@,
                content_type: crate::cookies::opt_view(content_type),
                filename: Some(filename@),
            }),
    {
        MultipartPart {
            name: String::from_str(name),
            content,
            content_type,
            filename: Some(String::from_str(filename)),
        }
    }

    /// A copy of this part.
    pub fn duplicate(&self) -> (p: Self)
        ensures
            p@ == self@,
    {
        MultipartPart {
            name: self.name.clone(),
            content: self.content.clone(),
            content_type: match &self.content_type {
                Some(t) => Some(t.clone()),
                None => None,
            },
            filename: match &self.filename {
                Some(f) => Some(f.clone()),
                None => None,
            },
        }
    }
}

/// Request body.
pub enum Body {
    /// Empty body
    Empty,
    /// Raw bytes with a content type
    Bytes {
        /// The content
        content: Vec<u8>,
        /// Its content type
        content_type: String,
    },
    /// URL-encoded form data
    Form {
        /// The (name, value) fields in order
        fields: Vec<(String, String)>,
    },
    /// Multipart form data
    Multipart {
        /// The parts in order
        parts: Vec<MultipartPart>,
    },
    /// JSON data
    Json {
        /// The JSON value
        value: serde_json::Value,
    },
}

/// The abstract value of a body.
pub enum BodyView {
    /// Empty body
    Empty,
    /// Bytes and their content type
    Bytes(Seq<u8>, Seq<char>),
    /// Form fields
    Form(Seq<(Seq<char>, Seq<char>)>),
    /// Multipart parts
    Multipart(Seq<PartView>),
    /// JSON value
    Json(serde_json::Value),
}

/// The views of a list of form fields.
pub open spec fn fields_view(f: Seq<(String, String)>) -> Seq<(Seq<char>, Seq<char>)> {
    f.map_values(|x: (String, String)| (x.0@, x.1@))
}

impl View for Body {
    type V = BodyView;

    open spec fn view(&self) -> BodyView {
        match self {
            Body::Empty => BodyView::Empty,
            Body::Bytes { content, content_type } => BodyView::Bytes(content@, content_type@),
            Body::Form { fields } => BodyView::Form(fields_view(fields@)),
            Body::Multipart { parts } => BodyView::Multipart(parts_view(parts@)),
            Body::Json { value } => BodyView::Json(*value),
        }
    }
}

/// One form field encoded: `name=value`, both percent-encoded.
pub open spec fn spec_form_pair(f: (Seq<char>, Seq<char>)) -> Seq<char> {
    spec_percent_encode(vstd::utf8::encode_utf8(f.0)) + seq!['='] + spec_percent_encode(
        vstd::utf8::encode_utf8(f.1),
    )
}

/// The `application/x-www-form-urlencoded` text of the fields: the
/// encoded pairs joined by `&`.
pub open spec fn spec_form_body(fields: Seq<(Seq<char>, Seq<char>)>) -> Seq<char>
    decreases fields.len(),
{
    if fields.len() == 0 {
        Seq::empty()
    } else if fields.len() == 1 {
        spec_form_pair(fields[0])
    } else {
        spec_form_body(fields.drop_last()) + seq!['&'] + spec_form_pair(fields.last())
    }
}

/// Encodes form fields (see `spec_form_body`).
pub fn form_encode(fields: &Vec<(String, String)>) -> (text: String)
    ensures
        text@ == spec_form_body(fields_view(fields@)),
{
    let ghost fv = fields_view(fields@);
    let mut text = String::new();
    let mut i: usize = 0;
    assert(fv.take(0) =~= Seq::<(Seq<char>, Seq<char>)>::empty());
    while i < fields.len()
        invariant
            fv == fields_view(fields@),
            i <= fields@.len(),
            text@ == spec_form_body(fv.take(i as int)),
        decreases fields.len() - i,
    {
        let ghost before = text@;
        if i != 0 {
            text.push('&');
        }
        let k = url_encode(fields[i].0.as_str());
        let v = url_encode(fields[i].1.as_str());
        text.append(k.as_str());
        text.push('=');
        text.append(v.as_str());
        proof {
            let t = fv.take(i + 1);
            assert(t.drop_last() =~= fv.take(i as int));
            assert(t.last() == fv[i as int]);
            assert(fv[i as int] == (fields@[i as int].0@, fields@[i as int].1@));
            if i == 0 {
                assert(text@ =~= spec_form_pair(t[0]));
            } else {
                assert(text@ =~= before + seq!['&'] + spec_form_pair(t.last()));
            }
        }
        i += 1;
    }
    assert(fv.take(fields@.len() as int) =~= fv);
    text
}

impl Body {
    /// An empty body.
    pub fn empty() -> (b: Self)
        ensures
            b@ == BodyView::Empty,
    {
        Body::Empty
    }

    /// A body of raw bytes with a content type.
    pub fn bytes(content: Vec<u8>, content_type: &str) -> (b: Self)
        ensures
            b@ == BodyView::Bytes(content@, content_type@),
    {
        Body::Bytes { content, content_type: String::from_str(content_type) }
    }

    /// A text body (`text/plain; charset=utf-8`).
    pub fn text(content: &str) -> (b: Self)
        ensures
            b@ == BodyView::Bytes(vstd::utf8::encode_utf8(content@), text_content_type()),
    {
        Body::Bytes { content: content.as_bytes_vec(), content_type: String::from_str("text/plain; charset=utf-8") }
    }

    /// A form body.
    pub fn form(fields: Vec<(String, String)>) -> (b: Self)
        ensures
            b@ == BodyView::Form(fields_view(fields@)),
    {
        Body::Form { fields }
    }

    /// A JSON body.
    pub fn json(value: serde_json::Value) -> (b: Self)
        ensures
            b@ == BodyView::Json(value),
    {
        Body::Json { value }
    }

    /// A multipart body.
    pub fn multipart(parts: Vec<MultipartPart>) -> (b: Self)
        ensures
            b@ == BodyView::Multipart(parts_view(parts@)),
    {
        Body::Multipart { parts }
    }

    /// A copy of this body.
    pub fn duplicate(&self) -> (b: Self)
        ensures
            b@ == self@,
    {
        match self {
            Body::Empty => Body::Empty,
            Body::Bytes { content, content_type } => Body::Bytes { content: content.clone(), content_type: content_type.clone() },
            Body::Form { fields } => {
                let mut copy: Vec<(String, String)> = Vec::new();
                let mut i: usize = 0;
                while i < fields.len()
                    invariant
                        i <= fields@.len(),
                        fields_view(copy@) =~= fields_view(fields@).take(i as int),
                    decreases fields.len() - i,
                {
                    copy.push((fields[i].0.clone(), fields[i].1.clone()));
                    assert(fields_view(fields@).take(i + 1) =~= fields_view(fields@).take(i as int).push(
                        (fields@[i as int].0@, fields@[i as int].1@),
                    ));
                    i += 1;
                }
                assert(fields_view(fields@).take(fields@.len() as int) =~= fields_view(fields@));
                Body::Form { fields: copy }
            },
            Body::Multipart { parts } => {
                let mut copy: Vec<MultipartPart> = Vec::new();
                let mut i: usize = 0;
                while i < parts.len()
                    invariant
                        i <= parts@.len(),
                        parts_view(copy@) =~= parts_view(parts@).take(i as int),
                    decreases parts.len() - i,
                {
                    copy.push(parts[i].duplicate());
                    assert(parts_view(parts@).take(i + 1) =~= parts_view(parts@).take(i as int).push(parts@[i as int]@));
                    i += 1;
                }
                assert(parts_view(parts@).take(parts@.len() as int) =~= parts_view(parts@));
                Body::Multipart { parts: copy }
            },
            Body::Json { value } => Body::Json { value: copy_json(value) },
        }
    }
}

/// The bytes a body is sent as, when they do not depend on JSON
/// serialization: none for an empty or multipart body (multipart bodies
/// are framed by the transport), the content of a byte body, the UTF-8
/// form encoding of a form body.
pub open spec fn spec_body_bytes(b: BodyView) -> Seq<u8> {
    match b {
        BodyView::Bytes(c, _) => c,
        BodyView::Form(f) => vstd::utf8::encode_utf8(spec_form_body(f)),
        BodyView::Json(v) => json_bytes(v),
        _ => Seq::empty(),
    }
}

/// The bytes of a body (see `spec_body_bytes`); a JSON body is
/// serialized, which does not fail.
pub fn body_to_bytes(body: &Body) -> (res: Result<Vec<u8>, Error>)
    ensures
        res matches Ok(v) && v@ == spec_body_bytes(body@),
{
    match body {
        Body::Empty => Ok(Vec::new()),
        Body::Bytes { content, .. } => Ok(content.clone()),
        Body::Form { fields } => {
            let text = form_encode(fields);
            Ok(text.as_str().as_bytes_vec())
        },
        Body::Json { value } => match json_to_vec(value) {
            Ok(v) => Ok(v),
            Err(e) => Err(Error::Json(e)),
        },
        Body::Multipart { .. } => Ok(Vec::new()),
    }
}

} // verus!
