//! The values that flow in and out of a request: states, errors, events, notifications and the
//! bodies and responses.

use vstd::prelude::*;
use vstd::utf8::encode_utf8;

verus! {

/// Identifies one logical request attempt; a new one begins at each `open` and `abort`.
#[derive(PartialEq, Eq, Structural, Clone, Copy, Debug)]
pub struct GenerationId(pub u64);

/// The lifecycle state of a request.
#[derive(PartialEq, Eq, Structural, Clone, Copy, Debug)]
pub enum ReadyState {
    Unsent,
    Opened,
    HeadersReceived,
    Loading,
    Done,
}

impl ReadyState {
    /// The number by which callers know the state.
    pub open spec fn spec_code(self) -> u16 {
        match self {
            ReadyState::Unsent => 0,
            ReadyState::Opened => 1,
            ReadyState::HeadersReceived => 2,
            ReadyState::Loading => 3,
            ReadyState::Done => 4,
        }
    }

    pub fn code(self) -> (r: u16)
        ensures
            r == self.spec_code(),
    {
        match self {
            ReadyState::Unsent => 0,
            ReadyState::Opened => 1,
            ReadyState::HeadersReceived => 2,
            ReadyState::Loading => 3,
            ReadyState::Done => 4,
        }
    }
}

/// The errors of the request object.
#[derive(PartialEq, Eq, Structural, Clone, Copy, Debug)]
pub enum XhrError {
    /// The call does not fit the lifecycle state.
    InvalidState,
    /// A method, URL, header or MIME type is malformed.
    Syntax,
    /// The method is not allowed.
    Security,
    /// Synchronous mode does not combine with a timeout or a response type.
    InvalidAccess,
    /// The transport failed.
    Network,
    /// The request was cancelled.
    Abort,
    /// The deadline passed.
    Timeout,
}

/// Which typed view of the response the caller asks for.
#[derive(PartialEq, Eq, Structural, Clone, Copy, Debug)]
pub enum ResponseType {
    Empty,
    ArrayBuffer,
    Blob,
    Document,
    Json,
    Text,
}

/// The kinds of progress notification.
#[derive(PartialEq, Eq, Structural, Clone, Copy, Debug)]
pub enum ProgressKind {
    LoadStart,
    Progress,
    Load,
    LoadEnd,
    Abort,
    Timeout,
    Error,
}

/// The progress kind that reports an error of kind `e`.
pub open spec fn spec_error_kind(e: XhrError) -> ProgressKind {
    match e {
        XhrError::Abort => ProgressKind::Abort,
        XhrError::Timeout => ProgressKind::Timeout,
        _ => ProgressKind::Error,
    }
}

pub fn error_kind(e: XhrError) -> (r: ProgressKind)
    ensures
        r == spec_error_kind(e),
{
    match e {
        XhrError::Abort => ProgressKind::Abort,
        XhrError::Timeout => ProgressKind::Timeout,
        _ => ProgressKind::Error,
    }
}

/// A notification to the request's observers, or to the observers of its upload side.
#[derive(PartialEq, Eq, Structural, Clone, Copy, Debug)]
pub enum Notification {
    /// The ready state changed (or, while loading, more data arrived).
    ReadyStateChange,
    Progress { upload: bool, kind: ProgressKind, loaded: u64, total: u64, length_computable: bool },
}

/// A header as (name, value) bytes.
pub type Header = (Vec<u8>, Vec<u8>);

/// The views of a list of byte strings.
pub open spec fn bytes_list(v: Seq<Vec<u8>>) -> Seq<Seq<u8>> {
    v.map_values(|b: Vec<u8>| b@)
}

/// A network event for the request, tagged with the generation it belongs to.
pub enum XHRProgress {
    /// The response head arrived: its headers, and its status code and reason.
    HeadersReceived(GenerationId, Option<Vec<Header>>, Option<(u16, Vec<u8>)>),
    /// A chunk of the response body.
    Loading(GenerationId, Vec<u8>),
    /// The response body is complete.
    Done(GenerationId),
    /// The request failed with `Abort`, `Timeout` or `Network`.
    Errored(GenerationId, XhrError),
}

impl XHRProgress {
    pub open spec fn spec_generation_id(&self) -> GenerationId {
        match self {
            XHRProgress::HeadersReceived(id, _, _) => *id,
            XHRProgress::Loading(id, _) => *id,
            XHRProgress::Done(id) => *id,
            XHRProgress::Errored(id, _) => *id,
        }
    }

    /// The generation the event belongs to.
    pub fn generation_id(&self) -> (r: GenerationId)
        ensures
            r == self.spec_generation_id(),
    {
        match self {
            XHRProgress::HeadersReceived(id, _, _) => *id,
            XHRProgress::Loading(id, _) => *id,
            XHRProgress::Done(id) => *id,
            XHRProgress::Errored(id, _) => *id,
        }
    }
}

/// The response head as the transport reports it.
pub struct ResponseMetadata {
    /// The final URL, without its fragment.
    pub final_url: String,
    pub headers: Option<Vec<Header>>,
    pub status: Option<(u16, Vec<u8>)>,
}

/// What the transport reports first: a readable head, a head that the response's filtering
/// hides (opaque), or a network error.
pub enum HeadOutcome {
    Head(ResponseMetadata),
    Opaque,
    NetworkError,
}

/// A binary object: bytes with a MIME type (empty if none).
pub struct Blob {
    pub bytes: Vec<u8>,
    pub type_: Vec<u8>,
}

/// The request body in the forms a caller may hand to `send`. Serialising a document and
/// encoding form data are done by the host; the body holds their output.
pub enum BodyInit {
    /// A serialised document, and whether it is an HTML document.
    Document { markup: String, is_html: bool },
    Blob(Blob),
    /// Form data encoded as `multipart/form-data` with the given boundary.
    FormData { encoded: Vec<u8>, boundary: Vec<u8> },
    String(String),
    /// URL search parameters, serialised.
    UrlSearchParams(String),
    ArrayBuffer(Vec<u8>),
    ArrayBufferView(Vec<u8>),
}

/// A body that can be turned into bytes and a suggested content type.
pub trait Extractable {
    spec fn extracted(&self) -> (Seq<u8>, Option<Seq<u8>>);

    fn extract(&self) -> (r: (Vec<u8>, Option<Vec<u8>>))
        ensures
            (r.0@, match r.1 {
                Some(t) => Some(t@),
                None => None,
            }) == self.extracted(),
    ;
}

/// Copies a byte slice.
pub fn copy_bytes(s: &[u8]) -> (r: Vec<u8>)
    ensures
        r@ == s@,
{
    let mut out: Vec<u8> = Vec::new();
    let mut i: usize = 0;
    while i < s.len()
        invariant
            0 <= i <= s@.len(),
            out@ == s@.subrange(0, i as int),
        decreases s@.len() - i,
    {
        out.push(s[i]);
        proof {
            assert(out@ =~= s@.subrange(0, i as int + 1));
        }
        i = i + 1;
    }
    assert(s@.subrange(0, i as int) =~= s@);
    out
}

/// Appends the bytes of `s` to `out`.
pub fn append_bytes(out: &mut Vec<u8>, s: &[u8])
    ensures
        final(out)@ == old(out)@ + s@,
{
    let mut i: usize = 0;
    while i < s.len()
        invariant
            0 <= i <= s@.len(),
            out@ == old(out)@ + s@.subrange(0, i as int),
        decreases s@.len() - i,
    {
        out.push(s[i]);
        proof {
            assert(out@ =~= old(out)@ + s@.subrange(0, i as int + 1));
        }
        i = i + 1;
    }
    assert(s@.subrange(0, i as int) =~= s@);
}

fn string_bytes(s: &String) -> (r: Vec<u8>)
    ensures
        r@ == encode_utf8(s@),
{
    copy_bytes(s.as_str().as_bytes())
}

impl Blob {
    pub open spec fn spec_extracted(&self) -> (Seq<u8>, Option<Seq<u8>>) {
        (self.bytes@, if self.type_@.len() == 0 { None } else { Some(self.type_@) })
    }

    pub fn duplicate(&self) -> (r: Blob)
        ensures
            r.bytes@ == self.bytes@,
            r.type_@ == self.type_@,
    {
        Blob { bytes: copy_bytes(self.bytes.as_slice()), type_: copy_bytes(self.type_.as_slice()) }
    }
}

impl Extractable for Blob {
    open spec fn extracted(&self) -> (Seq<u8>, Option<Seq<u8>>) {
        self.spec_extracted()
    }

    fn extract(&self) -> (r: (Vec<u8>, Option<Vec<u8>>)) {
        let t = if self.type_.len() == 0 {
            None
        } else {
            Some(copy_bytes(self.type_.as_slice()))
        };
        (copy_bytes(self.bytes.as_slice()), t)
    }
}

impl Extractable for String {
    open spec fn extracted(&self) -> (Seq<u8>, Option<Seq<u8>>) {
        (encode_utf8(self@), Some(spec_text_plain_utf8()))
    }

    fn extract(&self) -> (r: (Vec<u8>, Option<Vec<u8>>)) {
        (string_bytes(self), Some(text_plain_utf8()))
    }
}

impl BodyInit {
    /// Whether the body is text whose encoding is UTF-8 by definition.
    pub open spec fn spec_is_text(&self) -> bool {
        self is Document || self is String
    }

    pub fn is_text(&self) -> (r: bool)
        ensures
            r == self.spec_is_text(),
    {
        match self {
            BodyInit::Document { .. } | BodyInit::String(_) => true,
            _ => false,
        }
    }
}

impl Extractable for BodyInit {
    open spec fn extracted(&self) -> (Seq<u8>, Option<Seq<u8>>) {
        match self {
            BodyInit::Document { markup, is_html } => (
                encode_utf8(markup@),
                Some(
                    if *is_html {
                        spec_text_html_utf8()
                    } else {
                        spec_application_xml_utf8()
                    },
                ),
            ),
            BodyInit::Blob(b) => b.spec_extracted(),
            BodyInit::FormData { encoded, boundary } => (
                encoded@,
                Some(spec_multipart_boundary() + boundary@),
            ),
            BodyInit::String(s) => (encode_utf8(s@), Some(spec_text_plain_utf8())),
            BodyInit::UrlSearchParams(s) => (encode_utf8(s@), Some(spec_form_urlencoded_utf8())),
            BodyInit::ArrayBuffer(b) => (b@, None),
            BodyInit::ArrayBufferView(b) => (b@, None),
        }
    }

    fn extract(&self) -> (r: (Vec<u8>, Option<Vec<u8>>)) {
        match self {
            BodyInit::Document { markup, is_html } => {
                let t = if *is_html {
                    text_html_utf8()
                } else {
                    application_xml_utf8()
                };
                (string_bytes(markup), Some(t))
            },
            BodyInit::Blob(b) => b.extract(),
            BodyInit::FormData { encoded, boundary } => {
                let mut t = multipart_boundary();
                append_bytes(&mut t, boundary.as_slice());
                (copy_bytes(encoded.as_slice()), Some(t))
            },
            BodyInit::String(s) => s.extract(),
            BodyInit::UrlSearchParams(s) => (string_bytes(s), Some(form_urlencoded_utf8())),
            BodyInit::ArrayBuffer(b) => (copy_bytes(b.as_slice()), None),
            BodyInit::ArrayBufferView(b) => (copy_bytes(b.as_slice()), None),
        }
    }
}

/// The bytes of `text/plain;charset=UTF-8`.
pub open spec fn spec_text_plain_utf8() -> Seq<u8> {
    seq![116u8, 101, 120, 116, 47, 112, 108, 97, 105, 110, 59, 99, 104, 97, 114, 115, 101, 116, 61, 85, 84, 70, 45, 56]
}

fn text_plain_utf8() -> (r: Vec<u8>)
    ensures
        r@ == spec_text_plain_utf8(),
{
    vec![116u8, 101, 120, 116, 47, 112, 108, 97, 105, 110, 59, 99, 104, 97, 114, 115, 101, 116, 61, 85, 84, 70, 45, 56]
}

/// The bytes of `application/x-www-form-urlencoded;charset=UTF-8`.
pub open spec fn spec_form_urlencoded_utf8() -> Seq<u8> {
    seq![97u8, 112, 112, 108, 105, 99, 97, 116, 105, 111, 110, 47, 120, 45, 119, 119, 119, 45, 102, 111, 114, 109, 45, 117, 114, 108, 101, 110, 99, 111, 100, 101, 100, 59, 99, 104, 97, 114, 115, 101, 116, 61, 85, 84, 70, 45, 56]
}

fn form_urlencoded_utf8() -> (r: Vec<u8>)
    ensures
        r@ == spec_form_urlencoded_utf8(),
{
    vec![97u8, 112, 112, 108, 105, 99, 97, 116, 105, 111, 110, 47, 120, 45, 119, 119, 119, 45, 102, 111, 114, 109, 45, 117, 114, 108, 101, 110, 99, 111, 100, 101, 100, 59, 99, 104, 97, 114, 115, 101, 116, 61, 85, 84, 70, 45, 56]
}

/// The bytes of `text/html;charset=UTF-8`.
pub open spec fn spec_text_html_utf8() -> Seq<u8> {
    seq![116u8, 101, 120, 116, 47, 104, 116, 109, 108, 59, 99, 104, 97, 114, 115, 101, 116, 61, 85, 84, 70, 45, 56]
}

fn text_html_utf8() -> (r: Vec<u8>)
    ensures
        r@ == spec_text_html_utf8(),
{
    vec![116u8, 101, 120, 116, 47, 104, 116, 109, 108, 59, 99, 104, 97, 114, 115, 101, 116, 61, 85, 84, 70, 45, 56]
}

/// The bytes of `application/xml;charset=UTF-8`.
pub open spec fn spec_application_xml_utf8() -> Seq<u8> {
    seq![97u8, 112, 112, 108, 105, 99, 97, 116, 105, 111, 110, 47, 120, 109, 108, 59, 99, 104, 97, 114, 115, 101, 116, 61, 85, 84, 70, 45, 56]
}

fn application_xml_utf8() -> (r: Vec<u8>)
    ensures
        r@ == spec_application_xml_utf8(),
{
    vec![97u8, 112, 112, 108, 105, 99, 97, 116, 105, 111, 110, 47, 120, 109, 108, 59, 99, 104, 97, 114, 115, 101, 116, 61, 85, 84, 70, 45, 56]
}

/// The bytes of `multipart/form-data;boundary=`.
pub open spec fn spec_multipart_boundary() -> Seq<u8> {
    seq![109u8, 117, 108, 116, 105, 112, 97, 114, 116, 47, 102, 111, 114, 109, 45, 100, 97, 116, 97, 59, 98, 111, 117, 110, 100, 97, 114, 121, 61]
}

fn multipart_boundary() -> (r: Vec<u8>)
    ensures
        r@ == spec_multipart_boundary(),
{
    vec![109u8, 117, 108, 116, 105, 112, 97, 114, 116, 47, 102, 111, 114, 109, 45, 100, 97, 116, 97, 59, 98, 111, 117, 110, 100, 97, 114, 121, 61]
}

} // verus!
