//! Reading the response: header queries, the effective MIME type and charset, and the typed
//! views made from the body on first access and kept until the generation changes.

use vstd::prelude::*;
use vstd::utf8::valid_utf8;
use crate::grammar::{spec_to_lower, to_ascii_lower, bytes_eq, eq_ignore_ascii_case};
use crate::headers::{hview, header_values, values_of, without_cookies, filter_cookies, utf8_trimmed, trim_utf8};
use crate::outside::{
    MimeModel, MimeType, mime_parse, parse_mime, encoding_name, encoding_for_label, decoded_text,
    decode_with, utf8_decoded, decode_utf8, utf8_decoded_without_bom, decode_utf8_without_bom,
    json_accepts, parse_json, url_join, join_url,
};
use crate::send::{content_type_name, content_type_bytes, charset_name};
use crate::types::{Blob, Header, ReadyState, ResponseType, XhrError, bytes_list, copy_bytes, append_bytes};
use crate::xhr::{Document, ResponseCache, ResponseConfig, XMLHttpRequest};

verus! {

/// The value of the response in the form its response type asks for.
pub enum ResponseValue {
    Text(String),
    Null,
    Document(Document),
    Json(serde_json::Value),
    Blob(Blob),
    ArrayBuffer(Vec<u8>),
}

/// The value of the first parameter from index `i` on named charset (ignoring case).
pub open spec fn charset_param_from(params: Seq<(Seq<u8>, Seq<u8>)>, i: int) -> Option<Seq<u8>>
    decreases params.len() - i,
{
    if i < 0 || i >= params.len() {
        None
    } else if spec_to_lower(params[i].0) == charset_name() {
        Some(params[i].1)
    } else {
        charset_param_from(params, i + 1)
    }
}

/// The value of the charset parameter of a MIME type.
pub open spec fn charset_param(m: MimeModel) -> Option<Seq<u8>> {
    charset_param_from(m.3, 0)
}

fn find_charset_param(params: &Vec<(Vec<u8>, Vec<u8>)>) -> (r: Option<Vec<u8>>)
    ensures
        match r {
            Some(v) => charset_param_from(params@.map_values(|p: (Vec<u8>, Vec<u8>)| (p.0@, p.1@)), 0)
                == Some(v@),
            None => charset_param_from(params@.map_values(|p: (Vec<u8>, Vec<u8>)| (p.0@, p.1@)), 0) is None,
        },
{
    let ghost ps = params@.map_values(|p: (Vec<u8>, Vec<u8>)| (p.0@, p.1@));
    let charset: Vec<u8> = vec![99u8, 104, 97, 114, 115, 101, 116];
    let mut i: usize = 0;
    while i < params.len()
        invariant
            0 <= i <= params@.len(),
            ps == params@.map_values(|p: (Vec<u8>, Vec<u8>)| (p.0@, p.1@)),
            charset@ == charset_name(),
            charset_param_from(ps, 0) == charset_param_from(ps, i as int),
        decreases params@.len() - i,
    {
        let lower = to_ascii_lower(params[i].0.as_slice());
        if bytes_eq(lower.as_slice(), charset.as_slice()) {
            return Some(copy_bytes(params[i].1.as_slice()));
        }
        i = i + 1;
    }
    None
}

/// `text`, `html`, `xml`, `application`
pub open spec fn text_name() -> Seq<u8> {
    seq![116u8, 101, 120, 116]
}

pub open spec fn html_name() -> Seq<u8> {
    seq![104u8, 116, 109, 108]
}

pub open spec fn xml_name() -> Seq<u8> {
    seq![120u8, 109, 108]
}

pub open spec fn application_name() -> Seq<u8> {
    seq![97u8, 112, 112, 108, 105, 99, 97, 116, 105, 111, 110]
}

/// What kind of document a response of MIME type `mime` makes: `Some(true)` HTML,
/// `Some(false)` XML, `None` no document. HTML makes none for the default response type.
pub open spec fn document_kind(mime: Option<MimeModel>, response_type: ResponseType) -> Option<bool> {
    match mime {
        Some(m) => if spec_to_lower(m.0) == text_name() && spec_to_lower(m.1) == html_name() {
            if response_type == ResponseType::Empty {
                None
            } else {
                Some(true)
            }
        } else if (spec_to_lower(m.0) == text_name() || spec_to_lower(m.0) == application_name())
            && spec_to_lower(m.1) == xml_name() {
            Some(false)
        } else if m.2 is Some && spec_to_lower(m.2->0) == xml_name() {
            Some(false)
        } else {
            None
        },
        None => Some(false),
    }
}

/// `", "` and CRLF.
pub open spec fn sep() -> Seq<u8> {
    seq![44u8, 32]
}

/// The values for `getResponseHeader`: the valid UTF-8 values, each trimmed, joined by
/// `", "`; and whether there was none.
pub open spec fn fold_values(vs: Seq<Seq<u8>>) -> (Seq<u8>, bool)
    decreases vs.len(),
{
    if vs.len() == 0 {
        (Seq::empty(), true)
    } else {
        let prev = fold_values(vs.drop_last());
        if valid_utf8(vs.last()) {
            let acc = if !prev.1 {
                prev.0 + sep()
            } else {
                prev.0
            };
            (acc + utf8_trimmed(vs.last()), false)
        } else {
            prev
        }
    }
}

/// Values joined by `", "`.
pub open spec fn joined(vs: Seq<Seq<u8>>) -> Seq<u8>
    decreases vs.len(),
{
    if vs.len() == 0 {
        Seq::empty()
    } else if vs.len() == 1 {
        vs[0]
    } else {
        joined(vs.drop_last()) + sep() + vs.last()
    }
}

/// An earlier header has the name of header `i`, ignoring case.
pub open spec fn name_seen(hs: Seq<(Seq<u8>, Seq<u8>)>, i: int) -> bool {
    exists|j: int| 0 <= j < i && spec_to_lower(#[trigger] hs[j].0) == spec_to_lower(hs[i].0)
}

/// The line `name: values\r\n` of the header named as header `i`.
pub open spec fn header_line(hs: Seq<(Seq<u8>, Seq<u8>)>, i: int) -> Seq<u8> {
    hs[i].0 + seq![58u8, 32] + joined(header_values(hs, hs[i].0)) + seq![13u8, 10]
}

/// The lines of the first `n` headers, one per name, in the order names first occur.
pub open spec fn header_lines(hs: Seq<(Seq<u8>, Seq<u8>)>, n: int) -> Seq<u8>
    decreases n,
{
    if n <= 0 {
        Seq::empty()
    } else if name_seen(hs, n - 1) {
        header_lines(hs, n - 1)
    } else {
        header_lines(hs, n - 1) + header_line(hs, n - 1)
    }
}

/// The view of a document.
pub open spec fn doc_view(d: Document) -> (bool, Seq<char>, Option<Seq<char>>, Option<MimeModel>, Option<Seq<char>>) {
    (
        d.is_html,
        d.source@,
        match d.encoding {
            Some(e) => Some(e@),
            None => None,
        },
        match d.content_type {
            Some(m) => Some(m.model()),
            None => None,
        },
        match d.url {
            Some(u) => Some(u@),
            None => None,
        },
    )
}

fn copy_mime(m: &MimeType) -> (r: MimeType)
    ensures
        r.model() == m.model(),
{
    let mut params: Vec<(Vec<u8>, Vec<u8>)> = Vec::new();
    let mut i: usize = 0;
    while i < m.params.len()
        invariant
            0 <= i <= m.params@.len(),
            params@.map_values(|p: (Vec<u8>, Vec<u8>)| (p.0@, p.1@)) == m.params@.map_values(
                |p: (Vec<u8>, Vec<u8>)| (p.0@, p.1@),
            ).subrange(0, i as int),
        decreases m.params@.len() - i,
    {
        let p = (copy_bytes(m.params[i].0.as_slice()), copy_bytes(m.params[i].1.as_slice()));
        let ghost before = params@.map_values(|p: (Vec<u8>, Vec<u8>)| (p.0@, p.1@));
        params.push(p);
        assert(params@.map_values(|p: (Vec<u8>, Vec<u8>)| (p.0@, p.1@)) =~= before.push(
            (m.params@[i as int].0@, m.params@[i as int].1@),
        ));
        assert(params@.map_values(|p: (Vec<u8>, Vec<u8>)| (p.0@, p.1@)) =~= m.params@.map_values(
            |p: (Vec<u8>, Vec<u8>)| (p.0@, p.1@),
        ).subrange(0, i as int + 1));
        i = i + 1;
    }
    assert(m.params@.map_values(|p: (Vec<u8>, Vec<u8>)| (p.0@, p.1@)).subrange(0, i as int) =~= m.params@.map_values(
        |p: (Vec<u8>, Vec<u8>)| (p.0@, p.1@),
    ));
    let suffix = match &m.suffix {
        Some(s) => Some(copy_bytes(s.as_slice())),
        None => None,
    };
    MimeType {
        type_: copy_bytes(m.type_.as_slice()),
        subtype: copy_bytes(m.subtype.as_slice()),
        suffix,
        params,
        essence: copy_bytes(m.essence.as_slice()),
        source: copy_bytes(m.source.as_slice()),
    }
}

fn copy_opt_string(s: &Option<String>) -> (r: Option<String>)
    ensures
        r == *s,
{
    match s {
        Some(t) => Some(t.clone()),
        None => None,
    }
}

fn copy_document(d: &Document) -> (r: Document)
    ensures
        doc_view(r) == doc_view(*d),
{
    let content_type = match &d.content_type {
        Some(m) => Some(copy_mime(m)),
        None => None,
    };
    Document {
        is_html: d.is_html,
        source: d.source.clone(),
        encoding: copy_opt_string(&d.encoding),
        content_type,
        url: copy_opt_string(&d.url),
    }
}

/// Relies on the `Clone` of `serde_json::Value`, which copies the value.
#[verifier::external_body]
fn copy_json(v: &serde_json::Value) -> (r: serde_json::Value)
    ensures
        r == *v,
{
    v.clone()
}

impl XMLHttpRequest {
    /// The MIME type of the response's first `Content-Type` header.
    pub open spec fn header_mime(&self) -> Option<MimeModel> {
        let vs = header_values(hview(self.response.headers), content_type_name());
        if vs.len() > 0 {
            mime_parse(vs[0])
        } else {
            None
        }
    }

    /// The effective MIME type: the override, else the response's content type.
    pub open spec fn spec_final_mime_type(&self) -> Option<MimeModel> {
        match self.config.override_mime {
            Some(m) => Some(m.model()),
            None => self.header_mime(),
        }
    }

    /// The effective charset: the encoding of the override's charset, else that of the
    /// response content type's charset parameter; `None` stands for UTF-8.
    pub open spec fn spec_final_charset(&self) -> Option<Seq<char>> {
        let o = match self.config.override_charset {
            Some(l) => encoding_name(l@),
            None => None,
        };
        if o is Some {
            o
        } else {
            match self.header_mime() {
                Some(m) => match charset_param(m) {
                    Some(v) => encoding_name(v),
                    None => None,
                },
                None => None,
            }
        }
    }

    /// The body decoded with the effective charset.
    pub open spec fn spec_text(&self) -> Seq<char> {
        match self.spec_final_charset() {
            Some(n) => decoded_text(n, self.response.bytes@),
            None => utf8_decoded(self.response.bytes@),
        }
    }

    fn header_mime_type(&self) -> (r: Option<MimeType>)
        ensures
            match r {
                Some(m) => self.header_mime() == Some(m.model()),
                None => self.header_mime() is None,
            },
    {
        let vs = values_of(&self.response.headers, content_type_bytes().as_slice());
        if vs.len() > 0 {
            parse_mime(vs[0].as_slice())
        } else {
            None
        }
    }

    pub fn final_mime_type(&self) -> (r: Option<MimeType>)
        ensures
            match r {
                Some(m) => self.spec_final_mime_type() == Some(m.model()),
                None => self.spec_final_mime_type() is None,
            },
    {
        match &self.config.override_mime {
            Some(m) => Some(copy_mime(m)),
            None => self.header_mime_type(),
        }
    }

    pub fn final_charset(&self) -> (r: Option<String>)
        ensures
            match r {
                Some(n) => self.spec_final_charset() == Some(n@) && exists|l: Seq<u8>|
                    encoding_name(l) == Some(n@),
                None => self.spec_final_charset() is None,
            },
    {
        match &self.config.override_charset {
            Some(l) => {
                match encoding_for_label(l.as_slice()) {
                    Some(n) => {
                        return Some(n);
                    },
                    None => {},
                }
            },
            None => {},
        }
        match self.header_mime_type() {
            Some(m) => match find_charset_param(&m.params) {
                Some(v) => encoding_for_label(v.as_slice()),
                None => None,
            },
            None => None,
        }
    }

    /// The body as text, decoded with the effective charset (UTF-8 if none).
    pub fn text_response(&self) -> (r: String)
        ensures
            r@ == self.spec_text(),
    {
        match self.final_charset() {
            Some(n) => decode_with(n.as_str(), self.response.bytes.as_slice()),
            None => decode_utf8(self.response.bytes.as_slice()),
        }
    }

    /// `responseText`: the text while loading or done, empty before; refused for response
    /// types other than the default and text.
    #[allow(non_snake_case)]
    pub fn GetResponseText(&self) -> (r: Result<String, XhrError>)
        ensures
            match self.config.response_type {
                ResponseType::Empty | ResponseType::Text => r is Ok && r->Ok_0@ == if self.ready_state
                    == ReadyState::Loading || self.ready_state == ReadyState::Done {
                    self.spec_text()
                } else {
                    Seq::<char>::empty()
                },
                _ => r == Err::<String, XhrError>(XhrError::InvalidState),
            },
    {
        match self.config.response_type {
            ResponseType::Empty | ResponseType::Text => {
                if self.ready_state == ReadyState::Loading || self.ready_state == ReadyState::Done {
                    Ok(self.text_response())
                } else {
                    Ok(String::new())
                }
            },
            _ => Err(XhrError::InvalidState),
        }
    }

    /// `self` is `pre` after `blob_response` returned `r`.
    pub open spec fn blob_made(&self, pre: &XMLHttpRequest, r: Blob) -> bool {
        match pre.cache.blob {
            Some(b) => r.bytes@ == b.bytes@ && r.type_@ == b.type_@ && *self == *pre,
            None => {
                &&& r.bytes@ == pre.response.bytes@
                &&& r.type_@ == match pre.spec_final_mime_type() {
                    Some(m) => m.5,
                    None => Seq::<u8>::empty(),
                }
                &&& self.cache.blob is Some
                &&& self.cache.blob->0.bytes@ == r.bytes@
                &&& self.cache.blob->0.type_@ == r.type_@
                &&& *self == (XMLHttpRequest {
                    cache: ResponseCache { blob: self.cache.blob, ..pre.cache },
                    ..*pre
                })
            },
        }
    }

    /// The body as a blob of the effective MIME type, made once per generation.
    pub fn blob_response(&mut self) -> (r: Blob)
        ensures
            final(self).blob_made(old(self), r),
    {
        match &self.cache.blob {
            Some(b) => {
                return b.duplicate();
            },
            None => {},
        }
        let mime = match self.final_mime_type() {
            Some(m) => m.source,
            None => Vec::new(),
        };
        let blob = Blob { bytes: copy_bytes(self.response.bytes.as_slice()), type_: mime };
        let r = blob.duplicate();
        self.cache.blob = Some(blob);
        r
    }

    /// `self` is `pre` after `arraybuffer_response` returned `r`.
    pub open spec fn array_buffer_made(&self, pre: &XMLHttpRequest, r: Vec<u8>) -> bool {
        match pre.cache.array_buffer {
            Some(b) => r@ == b@ && *self == *pre,
            None => {
                &&& r@ == pre.response.bytes@
                &&& self.cache.array_buffer is Some
                &&& self.cache.array_buffer->0@ == r@
                &&& *self == (XMLHttpRequest {
                    cache: ResponseCache { array_buffer: self.cache.array_buffer, ..pre.cache },
                    ..*pre
                })
            },
        }
    }

    /// The body as a binary buffer, made once per generation.
    pub fn arraybuffer_response(&mut self) -> (r: Vec<u8>)
        ensures
            final(self).array_buffer_made(old(self), r),
    {
        match &self.cache.array_buffer {
            Some(b) => {
                return copy_bytes(b.as_slice());
            },
            None => {},
        }
        let bytes = copy_bytes(self.response.bytes.as_slice());
        let r = copy_bytes(bytes.as_slice());
        self.cache.array_buffer = Some(bytes);
        r
    }

    /// `self` is `pre` after `json_response` returned `r`.
    pub open spec fn json_made(&self, pre: &XMLHttpRequest, r: Option<serde_json::Value>) -> bool {
        match pre.cache.json {
            Some(v) => r == Some(v) && *self == *pre,
            None => {
                &&& (pre.response.bytes@.len() == 0 || !json_accepts(
                    utf8_decoded_without_bom(pre.response.bytes@),
                )) ==> r is None && *self == *pre
                &&& (pre.response.bytes@.len() > 0 && json_accepts(
                    utf8_decoded_without_bom(pre.response.bytes@),
                )) ==> r is Some && *self == (XMLHttpRequest {
                    cache: ResponseCache { json: r, ..pre.cache },
                    ..*pre
                })
            },
        }
    }

    /// The body as a JSON value (`None`: null), parsed once per generation from its UTF-8
    /// text without byte order mark: null for an empty body or one that is no JSON.
    pub fn json_response(&mut self) -> (r: Option<serde_json::Value>)
        ensures
            final(self).json_made(old(self), r),
    {
        match &self.cache.json {
            Some(v) => {
                return Some(copy_json(v));
            },
            None => {},
        }
        if self.response.bytes.len() == 0 {
            return None;
        }
        // always UTF-8, whatever the charset: a UTF-8 byte order mark is dropped, no other
        let text = decode_utf8_without_bom(self.response.bytes.as_slice());
        match parse_json(text.as_str()) {
            Some(v) => {
                let r = copy_json(&v);
                self.cache.json = Some(v);
                Some(r)
            },
            None => None,
        }
    }

    /// The kind of document the response makes now.
    pub fn document_kind(&self) -> (r: Option<bool>)
        ensures
            r == document_kind(self.spec_final_mime_type(), self.config.response_type),
    {
        let text: Vec<u8> = vec![116u8, 101, 120, 116];
        let html: Vec<u8> = vec![104u8, 116, 109, 108];
        let xml: Vec<u8> = vec![120u8, 109, 108];
        let application: Vec<u8> = vec![97u8, 112, 112, 108, 105, 99, 97, 116, 105, 111, 110];
        proof {
            assert(spec_to_lower(text@) =~= text@);
            assert(spec_to_lower(html@) =~= html@);
            assert(spec_to_lower(xml@) =~= xml@);
            assert(spec_to_lower(application@) =~= application@);
        }
        match self.final_mime_type() {
            Some(m) => {
                let is_text = eq_ignore_ascii_case(m.type_.as_slice(), text.as_slice());
                if is_text && eq_ignore_ascii_case(m.subtype.as_slice(), html.as_slice()) {
                    if self.config.response_type == ResponseType::Empty {
                        None
                    } else {
                        Some(true)
                    }
                } else if (is_text || eq_ignore_ascii_case(m.type_.as_slice(), application.as_slice()))
                    && eq_ignore_ascii_case(m.subtype.as_slice(), xml.as_slice()) {
                    Some(false)
                } else {
                    match &m.suffix {
                        Some(s) => if eq_ignore_ascii_case(s.as_slice(), xml.as_slice()) {
                            Some(false)
                        } else {
                            None
                        },
                        None => None,
                    }
                }
            },
            None => Some(false),
        }
    }

    /// A document of the given kind made from the body: decoded with the effective charset,
    /// typed with the effective MIME type, at the response URL resolved against the base.
    pub fn new_doc(&self, is_html: bool) -> (r: Document)
        ensures
            doc_view(r) == (
                is_html,
                self.spec_text(),
                self.spec_final_charset(),
                self.spec_final_mime_type(),
                url_join(self.host.base_url@, self.response.url@),
            ),
    {
        let encoding = self.final_charset();
        let source = self.text_response();
        let content_type = self.final_mime_type();
        let url = join_url(self.host.base_url.as_str(), self.response.url.as_str());
        Document { is_html, source, encoding, content_type, url }
    }

    /// `self` is `pre` after `document_response` returned `r`.
    pub open spec fn document_made(&self, pre: &XMLHttpRequest, r: Option<Document>) -> bool {
        match pre.cache.document {
            Some(d) => r is Some && doc_view(r->0) == doc_view(d) && *self == *pre,
            None => if pre.response.errored {
                r is None && *self == *pre
            } else {
                match document_kind(pre.spec_final_mime_type(), pre.config.response_type) {
                    None => r is None && *self == *pre,
                    Some(html) => {
                        &&& r is Some
                        &&& doc_view(r->0) == (
                            html,
                            pre.spec_text(),
                            pre.spec_final_charset(),
                            pre.spec_final_mime_type(),
                            url_join(pre.host.base_url@, pre.response.url@),
                        )
                        &&& self.cache.document is Some
                        &&& doc_view(self.cache.document->0) == doc_view(r->0)
                        &&& *self == (XMLHttpRequest {
                            cache: ResponseCache { document: self.cache.document, ..pre.cache },
                            ..*pre
                        })
                    },
                }
            },
        }
    }

    /// The body as a document, made once per generation: none after a failure, or where the
    /// MIME type makes none.
    pub fn document_response(&mut self) -> (r: Option<Document>)
        ensures
            final(self).document_made(old(self), r),
    {
        match &self.cache.document {
            Some(d) => {
                return Some(copy_document(d));
            },
            None => {},
        }
        if self.response.errored {
            return None;
        }
        match self.document_kind() {
            None => None,
            Some(html) => {
                let doc = self.new_doc(html);
                let r = copy_document(&doc);
                self.cache.document = Some(doc);
                Some(r)
            },
        }
    }

    /// `responseXML`: the document once done, none before; refused for response types other
    /// than the default and document.
    #[allow(non_snake_case)]
    pub fn GetResponseXML(&mut self) -> (r: Result<Option<Document>, XhrError>)
        ensures
            match old(self).config.response_type {
                ResponseType::Empty | ResponseType::Document => r is Ok && if old(self).ready_state
                    == ReadyState::Done {
                    final(self).document_made(old(self), r->Ok_0)
                } else {
                    r->Ok_0 is None && *final(self) == *old(self)
                },
                _ => r == Err::<Option<Document>, XhrError>(XhrError::InvalidState) && *final(self)
                    == *old(self),
            },
    {
        match self.config.response_type {
            ResponseType::Empty | ResponseType::Document => {
                if self.ready_state == ReadyState::Done {
                    Ok(self.document_response())
                } else {
                    Ok(None)
                }
            },
            _ => Err(XhrError::InvalidState),
        }
    }
}

} // verus!

verus! {

fn join_values(vs: &Vec<Vec<u8>>) -> (r: Vec<u8>)
    ensures
        r@ == joined(bytes_list(vs@)),
{
    let ghost bl = bytes_list(vs@);
    let mut out: Vec<u8> = Vec::new();
    let mut i: usize = 0;
    while i < vs.len()
        invariant
            0 <= i <= vs@.len(),
            bl == bytes_list(vs@),
            out@ == joined(bl.subrange(0, i as int)),
        decreases vs@.len() - i,
    {
        proof {
            assert(bl.subrange(0, i as int + 1).drop_last() =~= bl.subrange(0, i as int));
        }
        if i > 0 {
            out.push(44u8);
            out.push(32u8);
        }
        append_bytes(&mut out, vs[i].as_slice());
        proof {
            if i > 0 {
                assert(out@ =~= joined(bl.subrange(0, i as int)) + sep() + bl[i as int]);
            } else {
                assert(out@ =~= bl[0]);
            }
        }
        i = i + 1;
    }
    assert(bl.subrange(0, i as int) =~= bl);
    out
}

impl XMLHttpRequest {
    /// The response headers a caller may see: all but those that set cookies.
    pub fn filter_response_headers(&self) -> (r: Vec<Header>)
        ensures
            hview(r) == without_cookies(hview(self.response.headers)),
    {
        filter_cookies(&self.response.headers)
    }

    /// `getResponseHeader(name)`: the values of the visible headers of that name (ignoring
    /// case), each trimmed, joined by `", "`; `None` where there is none.
    #[allow(non_snake_case)]
    pub fn GetResponseHeader(&self, name: &[u8]) -> (r: Option<Vec<u8>>)
        ensures
            ({
                let f = fold_values(header_values(without_cookies(hview(self.response.headers)), name@));
                if f.1 {
                    r is None
                } else {
                    r is Some && r->0@ == f.0
                }
            }),
    {
        let headers = self.filter_response_headers();
        let values = values_of(&headers, name);
        let ghost vs = bytes_list(values@);
        let mut out: Vec<u8> = Vec::new();
        let mut first = true;
        let mut i: usize = 0;
        while i < values.len()
            invariant
                0 <= i <= values@.len(),
                vs == bytes_list(values@),
                fold_values(vs.subrange(0, i as int)) == (out@, first),
            decreases values@.len() - i,
        {
            proof {
                assert(vs.subrange(0, i as int + 1).drop_last() =~= vs.subrange(0, i as int));
            }
            let ghost before = out@;
            match trim_utf8(values[i].as_slice()) {
                Some(v) => {
                    if !first {
                        out.push(44u8);
                        out.push(32u8);
                    }
                    append_bytes(&mut out, v.as_slice());
                    proof {
                        if !first {
                            assert(out@ =~= before + sep() + utf8_trimmed(vs[i as int]));
                        } else {
                            assert(out@ =~= before + utf8_trimmed(vs[i as int]));
                        }
                    }
                    first = false;
                },
                None => {},
            }
            i = i + 1;
        }
        assert(vs.subrange(0, i as int) =~= vs);
        if first {
            None
        } else {
            Some(out)
        }
    }

    /// `getAllResponseHeaders()`: one `name: values\r\n` line per visible header name, in the
    /// order the names first occur, the values joined by `", "`.
    #[allow(non_snake_case)]
    pub fn GetAllResponseHeaders(&self) -> (r: Vec<u8>)
        ensures
            ({
                let hs = without_cookies(hview(self.response.headers));
                r@ == header_lines(hs, hs.len() as int)
            }),
    {
        let headers = self.filter_response_headers();
        let ghost hs = hview(headers);
        let mut out: Vec<u8> = Vec::new();
        let mut i: usize = 0;
        while i < headers.len()
            invariant
                0 <= i <= headers@.len(),
                hs == hview(headers),
                out@ == header_lines(hs, i as int),
            decreases headers@.len() - i,
        {
            let mut seen = false;
            let mut j: usize = 0;
            while j < i
                invariant
                    0 <= j <= i < headers@.len(),
                    hs == hview(headers),
                    seen == exists|k: int| 0 <= k < j && spec_to_lower(#[trigger] hs[k].0) == spec_to_lower(hs[i as int].0),
                decreases i - j,
            {
                assert(hs[j as int].0 == headers@[j as int].0@);
                assert(hs[i as int].0 == headers@[i as int].0@);
                if eq_ignore_ascii_case(headers[j].0.as_slice(), headers[i].0.as_slice()) {
                    seen = true;
                } else {
                    assert forall|k: int|
                        0 <= k < j + 1 && spec_to_lower(#[trigger] hs[k].0) == spec_to_lower(
                            hs[i as int].0,
                        ) implies k < j by {}
                }
                j = j + 1;
            }
            if !seen {
                let ghost before = out@;
                let name = headers[i].0.as_slice();
                append_bytes(&mut out, name);
                out.push(58u8);
                out.push(32u8);
                let values = values_of(&headers, name);
                let line = join_values(&values);
                append_bytes(&mut out, line.as_slice());
                out.push(13u8);
                out.push(10u8);
                assert(out@ =~= before + header_line(hs, i as int));
            }
            i = i + 1;
        }
        out
    }

    /// `overrideMimeType(mime)`: refused while loading or done, or where `mime` is no MIME
    /// type; otherwise the type without parameters overrides the response's, and its charset
    /// parameter (where it names an encoding) overrides the response's charset.
    #[allow(non_snake_case)]
    pub fn OverrideMimeType(&mut self, mime: &[u8]) -> (r: Result<(), XhrError>)
        ensures
            (old(self).ready_state == ReadyState::Loading || old(self).ready_state == ReadyState::Done)
                ==> r == Err::<(), XhrError>(XhrError::InvalidState) && *final(self) == *old(self),
            !(old(self).ready_state == ReadyState::Loading || old(self).ready_state == ReadyState::Done)
                ==> match mime_parse(mime@) {
                None => r == Err::<(), XhrError>(XhrError::Syntax) && *final(self) == *old(self),
                Some(m) => {
                    &&& r is Ok
                    &&& final(self).config.override_mime is Some
                    &&& final(self).config.override_mime->0.model() == (
                        m.0,
                        m.1,
                        m.2,
                        Seq::<(Seq<u8>, Seq<u8>)>::empty(),
                        m.4,
                        m.4,
                    )
                    &&& match charset_param(m) {
                        Some(l) => final(self).config.override_charset is Some
                            && final(self).config.override_charset->0@ == l,
                        None => final(self).config.override_charset is None,
                    }
                    &&& final(self).config.response_type == old(self).config.response_type
                    &&& *final(self) == (XMLHttpRequest { config: final(self).config, ..*old(self) })
                },
            },
    {
        match self.ready_state {
            ReadyState::Loading | ReadyState::Done => {
                return Err(XhrError::InvalidState);
            },
            _ => {},
        }
        let parsed = match parse_mime(mime) {
            Some(m) => m,
            None => {
                return Err(XhrError::Syntax);
            },
        };
        let charset = find_charset_param(&parsed.params);
        let essence = copy_bytes(parsed.essence.as_slice());
        let stripped = MimeType {
            type_: parsed.type_,
            subtype: parsed.subtype,
            suffix: parsed.suffix,
            params: Vec::new(),
            essence: parsed.essence,
            source: essence,
        };
        self.config.override_mime = Some(stripped);
        self.config.override_charset = charset;
        Ok(())
    }

    #[allow(non_snake_case)]
    pub fn ResponseType(&self) -> (r: ResponseType)
        ensures
            r == self.config.response_type,
    {
        self.config.response_type
    }

    /// The response type attribute: a document type is ignored in a worker; refused while
    /// loading or done, and for a synchronous request in a window.
    #[allow(non_snake_case)]
    pub fn SetResponseType(&mut self, response_type: ResponseType) -> (r: Result<(), XhrError>)
        ensures
            !old(self).host.in_window && response_type == ResponseType::Document ==> r is Ok
                && *final(self) == *old(self),
            !(!old(self).host.in_window && response_type == ResponseType::Document) ==> if old(
                self,
            ).ready_state == ReadyState::Loading || old(self).ready_state == ReadyState::Done {
                r == Err::<(), XhrError>(XhrError::InvalidState) && *final(self) == *old(self)
            } else if old(self).spec_sync_in_window() {
                r == Err::<(), XhrError>(XhrError::InvalidAccess) && *final(self) == *old(self)
            } else {
                r is Ok && *final(self) == (XMLHttpRequest {
                    config: ResponseConfig { response_type, ..old(self).config },
                    ..*old(self)
                })
            },
    {
        if !self.host.in_window && response_type == ResponseType::Document {
            return Ok(());
        }
        match self.ready_state {
            ReadyState::Loading | ReadyState::Done => Err(XhrError::InvalidState),
            _ => {
                if self.sync_in_window() {
                    Err(XhrError::InvalidAccess)
                } else {
                    self.config.response_type = response_type;
                    Ok(())
                }
            },
        }
    }

    /// `response`: text while loading or done (else empty) for the default and text types;
    /// for the others null until done, then the typed view.
    #[allow(non_snake_case)]
    pub fn Response(&mut self) -> (r: ResponseValue)
        ensures
            match old(self).config.response_type {
                ResponseType::Empty | ResponseType::Text => *final(self) == *old(self) && r is Text
                    && r->Text_0@ == if old(self).ready_state == ReadyState::Loading
                    || old(self).ready_state == ReadyState::Done {
                    old(self).spec_text()
                } else {
                    Seq::<char>::empty()
                },
                _ => if old(self).ready_state != ReadyState::Done {
                    r is Null && *final(self) == *old(self)
                } else {
                    match old(self).config.response_type {
                        ResponseType::Document => match r {
                            ResponseValue::Document(d) => final(self).document_made(old(self), Some(d)),
                            ResponseValue::Null => final(self).document_made(old(self), None),
                            _ => false,
                        },
                        ResponseType::Json => match r {
                            ResponseValue::Json(v) => final(self).json_made(old(self), Some(v)),
                            ResponseValue::Null => final(self).json_made(old(self), None),
                            _ => false,
                        },
                        ResponseType::Blob => match r {
                            ResponseValue::Blob(b) => final(self).blob_made(old(self), b),
                            _ => false,
                        },
                        _ => match r {
                            ResponseValue::ArrayBuffer(b) => final(self).array_buffer_made(old(self), b),
                            _ => false,
                        },
                    }
                },
            },
    {
        match self.config.response_type {
            ResponseType::Empty | ResponseType::Text => {
                if self.ready_state == ReadyState::Done || self.ready_state == ReadyState::Loading {
                    ResponseValue::Text(self.text_response())
                } else {
                    ResponseValue::Text(String::new())
                }
            },
            _ => {
                if self.ready_state != ReadyState::Done {
                    return ResponseValue::Null;
                }
                match self.config.response_type {
                    ResponseType::Document => match self.document_response() {
                        Some(d) => ResponseValue::Document(d),
                        None => ResponseValue::Null,
                    },
                    ResponseType::Json => match self.json_response() {
                        Some(v) => ResponseValue::Json(v),
                        None => ResponseValue::Null,
                    },
                    ResponseType::Blob => ResponseValue::Blob(self.blob_response()),
                    _ => ResponseValue::ArrayBuffer(self.arraybuffer_response()),
                }
            },
        }
    }
}

} // verus!
