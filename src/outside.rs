//! Calls into the crates that parse MIME types and URLs, decode text, read header values,
//! parse JSON and read the clock. Each item states what the crate documents of its result.

use vstd::prelude::*;

verus! {

/// The declared outside type of a parsed JSON value; the library only carries it.
#[verifier::external_type_specification]
#[verifier::external_body]
pub struct ExJsonValue(serde_json::Value);

/// What `mime` makes of a MIME type string: type, subtype, optional `+suffix`, the parameters
/// in order, the essence (the text before the parameters) and the whole source text.
pub type MimeModel = (Seq<u8>, Seq<u8>, Option<Seq<u8>>, Seq<(Seq<u8>, Seq<u8>)>, Seq<u8>, Seq<u8>);

/// The parts of a MIME type that the library reads, as bytes.
pub struct MimeType {
    pub type_: Vec<u8>,
    pub subtype: Vec<u8>,
    pub suffix: Option<Vec<u8>>,
    pub params: Vec<(Vec<u8>, Vec<u8>)>,
    pub essence: Vec<u8>,
    pub source: Vec<u8>,
}

impl MimeType {
    pub open spec fn model(&self) -> MimeModel {
        (
            self.type_@,
            self.subtype@,
            match self.suffix {
                Some(s) => Some(s@),
                None => None,
            },
            self.params@.map_values(|p: (Vec<u8>, Vec<u8>)| (p.0@, p.1@)),
            self.essence@,
            self.source@,
        )
    }
}

/// What `mime` parses out of `s`, or `None` where it refuses it.
pub uninterp spec fn mime_parse(s: Seq<u8>) -> Option<MimeModel>;

/// Relies on `mime::Mime::from_str` (after `str::from_utf8`) and the accessors `type_`,
/// `subtype`, `suffix`, `params`, `essence_str` and `as_ref` of the parsed value.
#[verifier::external_body]
pub(crate) fn parse_mime(s: &[u8]) -> (r: Option<MimeType>)
    ensures
        match r {
            Some(m) => mime_parse(s@) == Some(m.model()),
            None => mime_parse(s@) is None,
        },
{
    let m = std::str::from_utf8(s).ok()?.parse::<mime::Mime>().ok()?;
    let b = |t: &str| t.as_bytes().to_vec();
    Some(MimeType {
        type_: b(m.type_().as_str()),
        subtype: b(m.subtype().as_str()),
        suffix: m.suffix().map(|x| b(x.as_str())),
        params: m.params().map(|(k, v)| (b(k.as_str()), b(v.as_str()))).collect(),
        essence: b(m.essence_str()),
        source: b(m.as_ref()),
    })
}

/// The canonical name of the encoding that `label` denotes, or `None` where it denotes none.
pub uninterp spec fn encoding_name(label: Seq<u8>) -> Option<Seq<char>>;

/// Relies on `encoding_rs::Encoding::for_label` and `Encoding::name`.
#[verifier::external_body]
pub(crate) fn encoding_for_label(label: &[u8]) -> (r: Option<String>)
    ensures
        match r {
            Some(n) => encoding_name(label@) == Some(n@),
            None => encoding_name(label@) is None,
        },
{
    encoding_rs::Encoding::for_label(label).map(|e| e.name().to_string())
}

/// The text that the encoding named `name` decodes `bytes` to (a byte order mark decides first).
pub uninterp spec fn decoded_text(name: Seq<char>, bytes: Seq<u8>) -> Seq<char>;

/// Relies on `encoding_rs::Encoding::for_label` finding an encoding by its own name, and on
/// `Encoding::decode`, which replaces malformed input and never fails.
#[verifier::external_body]
pub(crate) fn decode_with(name: &str, bytes: &[u8]) -> (r: String)
    requires
        exists|label: Seq<u8>| encoding_name(label) == Some(name@),
    ensures
        r@ == decoded_text(name@, bytes@),
{
    match encoding_rs::Encoding::for_label(name.as_bytes()) {
        Some(e) => e.decode(bytes).0.into_owned(),
        None => String::new(),
    }
}

/// The text that UTF-8 decoding (with byte order mark sniffing) gives of `bytes`.
pub uninterp spec fn utf8_decoded(bytes: Seq<u8>) -> Seq<char>;

/// Relies on `encoding_rs::UTF_8.decode`.
#[verifier::external_body]
pub(crate) fn decode_utf8(bytes: &[u8]) -> (r: String)
    ensures
        r@ == utf8_decoded(bytes@),
{
    encoding_rs::UTF_8.decode(bytes).0.into_owned()
}

/// The text that UTF-8 decoding gives of `bytes` once a leading UTF-8 byte order mark is
/// dropped; no other byte order mark is honoured.
pub uninterp spec fn utf8_decoded_without_bom(bytes: Seq<u8>) -> Seq<char>;

/// Relies on `encoding_rs::UTF_8.decode_with_bom_removal`.
#[verifier::external_body]
pub(crate) fn decode_utf8_without_bom(bytes: &[u8]) -> (r: String)
    ensures
        r@ == utf8_decoded_without_bom(bytes@),
{
    encoding_rs::UTF_8.decode_with_bom_removal(bytes).0.into_owned()
}

/// Whether `text` is a JSON text that `serde_json` accepts.
pub uninterp spec fn json_accepts(text: Seq<char>) -> bool;

/// Relies on `serde_json::from_str`: a value for a JSON text, an error for anything else.
#[verifier::external_body]
pub(crate) fn parse_json(text: &str) -> (r: Option<serde_json::Value>)
    ensures
        r is Some == json_accepts(text@),
{
    serde_json::from_str::<serde_json::Value>(text).ok()
}

/// The bytes `http` admits in a method: `!`, `*`, `+`, `-`, `.`, `^`, `_`, `` ` ``, `|`, `~`,
/// digits and ASCII letters.
pub open spec fn is_method_byte(b: u8) -> bool {
    b == 33 || b == 42 || b == 43 || b == 45 || b == 46 || (48 <= b && b <= 57) || (65 <= b && b
        <= 90) || b == 94 || b == 95 || b == 96 || (97 <= b && b <= 122) || b == 124 || b == 126
}

/// Whether `http` accepts `bytes` as a request method: one or more method bytes.
pub open spec fn http_method_accepts(bytes: Seq<u8>) -> bool {
    bytes.len() > 0 && forall|i: int| 0 <= i < bytes.len() ==> is_method_byte(#[trigger] bytes[i])
}

/// Relies on `http::Method::from_bytes`, which refuses an empty method and any byte outside
/// its table of method characters.
#[verifier::external_body]
pub(crate) fn method_accepted(bytes: &[u8]) -> (r: bool)
    ensures
        r == http_method_accepts(bytes@),
{
    http::Method::from_bytes(bytes).is_ok()
}

/// The length that the `Content-Length` header values `values` declare, if they declare one.
pub uninterp spec fn declared_content_length(values: Seq<Seq<u8>>) -> Option<u64>;

/// Relies on the `Header::decode` of `headers::ContentLength`: all values must parse as the
/// same decimal number; values that are no header value at all declare nothing.
#[verifier::external_body]
pub(crate) fn content_length_of(values: &Vec<Vec<u8>>) -> (r: Option<u64>)
    ensures
        r == declared_content_length(crate::types::bytes_list(values@)),
        values@.len() == 0 ==> r is None,
{
    let parsed: Result<Vec<http::HeaderValue>, _> =
        values.iter().map(|v| http::HeaderValue::from_bytes(v)).collect();
    match parsed {
        Ok(vals) => <headers::ContentLength as headers::Header>::decode(&mut vals.iter()).ok().map(|c| c.0),
        Err(_) => None,
    }
}

/// The URL that `input` resolves to against the base URL `base`, serialised.
pub uninterp spec fn url_join(base: Seq<char>, input: Seq<char>) -> Option<Seq<char>>;

/// Relies on `url::Url::parse` of the base and `Url::join` of the input.
#[verifier::external_body]
pub(crate) fn join_url(base: &str, input: &str) -> (r: Option<String>)
    ensures
        match r {
            Some(u) => url_join(base@, input@) == Some(u@),
            None => url_join(base@, input@) is None,
        },
{
    let b = url::Url::parse(base).ok()?;
    b.join(input).ok().map(String::from)
}

/// The URL `url` with the user name and password set, where its scheme and host allow them.
pub uninterp spec fn url_with_userinfo(url: Seq<char>, user: Seq<char>, password: Option<Seq<char>>) -> Seq<char>;

/// Relies on `url::Url::set_username` and `Url::set_password`, which refuse a URL that cannot
/// hold credentials; the URL is then kept as it was.
#[verifier::external_body]
pub(crate) fn set_userinfo(url: &str, user: &str, password: Option<&str>) -> (r: String)
    ensures
        r@ == url_with_userinfo(
            url@,
            user@,
            match password {
                Some(p) => Some(p@),
                None => None,
            },
        ),
{
    match url::Url::parse(url) {
        Ok(mut u) => {
            if u.set_username(user).is_ok() {
                let _ = u.set_password(password);
            }
            String::from(u)
        },
        Err(_) => url.to_string(),
    }
}

/// The user name of the URL `url` (empty if none, or if `url` does not parse).
pub uninterp spec fn url_username(url: Seq<char>) -> Seq<char>;

/// Relies on `url::Url::parse` and `Url::username`.
#[verifier::external_body]
pub(crate) fn username_of(url: &str) -> (r: String)
    ensures
        r@ == url_username(url@),
{
    match url::Url::parse(url) {
        Ok(u) => u.username().to_string(),
        Err(_) => String::new(),
    }
}

/// Whether the URL `url` has a password (never, if `url` does not parse).
pub uninterp spec fn url_has_password(url: Seq<char>) -> bool;

/// Relies on `url::Url::parse` and `Url::password`.
#[verifier::external_body]
pub(crate) fn has_password(url: &str) -> (r: bool)
    ensures
        r == url_has_password(url@),
{
    match url::Url::parse(url) {
        Ok(u) => u.password().is_some(),
        Err(_) => false,
    }
}

/// Relies on `time::now`: the wall clock in whole seconds; nothing is known of its value.
#[verifier::external_body]
pub(crate) fn now_seconds() -> (r: i64) {
    time::now().to_timespec().sec
}

} // verus!
