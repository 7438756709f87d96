//! Sending: the body's content type, the descriptor handed to the fetch service, and the
//! notifications that precede it.

use vstd::prelude::*;
use crate::grammar::{spec_to_lower, eq_ignore_ascii_case, bytes_eq};
use crate::headers::{hview, header_values, values_of, replaced, replace_header};
use crate::outside::{MimeModel, mime_parse, parse_mime, url_username, username_of, url_has_password, has_password, now_seconds};
use crate::types::{Header, copy_bytes, append_bytes};
use crate::xhr::{Action, PreparedBody, RequestDescriptor, RequestState, XHRTimeoutCallback, XMLHttpRequest, cancel_actions};

verus! {

/// `content-type`
pub open spec fn content_type_name() -> Seq<u8> {
    seq![99u8, 111, 110, 116, 101, 110, 116, 45, 116, 121, 112, 101]
}

pub fn content_type_bytes() -> (r: Vec<u8>)
    ensures
        r@ == content_type_name(),
{
    vec![99u8, 111, 110, 116, 101, 110, 116, 45, 116, 121, 112, 101]
}

/// `charset`
pub open spec fn charset_name() -> Seq<u8> {
    seq![99u8, 104, 97, 114, 115, 101, 116]
}

/// `UTF-8`
pub open spec fn utf8_name() -> Seq<u8> {
    seq![85u8, 84, 70, 45, 56]
}

/// A MIME parameter list has a charset whose value is not UTF-8, ignoring case.
pub open spec fn has_foreign_charset(params: Seq<(Seq<u8>, Seq<u8>)>) -> bool {
    exists|i: int|
        0 <= i < params.len() && spec_to_lower(#[trigger] params[i].0) == charset_name()
            && spec_to_lower(params[i].1) != spec_to_lower(utf8_name())
}

/// The parameters of a parsed MIME type.
pub open spec fn params_of(m: MimeModel) -> Seq<(Seq<u8>, Seq<u8>)> {
    m.3
}

/// The parameters with the value of each charset parameter made `UTF-8`, in order.
pub open spec fn utf8_charset(params: Seq<(Seq<u8>, Seq<u8>)>) -> Seq<(Seq<u8>, Seq<u8>)> {
    params.map_values(
        |p: (Seq<u8>, Seq<u8>)|
            if spec_to_lower(p.0) == charset_name() {
                (p.0, utf8_name())
            } else {
                p
            },
    )
}

/// `; name=value` for each parameter, in order.
pub open spec fn params_text(params: Seq<(Seq<u8>, Seq<u8>)>) -> Seq<u8>
    decreases params.len(),
{
    if params.len() == 0 {
        Seq::empty()
    } else {
        params_text(params.drop_last()) + seq![59u8, 32] + params.last().0 + seq![61u8]
            + params.last().1
    }
}

/// The content type `m` with the value of its charset parameter made UTF-8; the other
/// parameters are kept, in order.
pub open spec fn rewritten_content_type(m: MimeModel) -> Seq<u8> {
    m.0 + seq![47u8] + m.1 + params_text(utf8_charset(m.3))
}

/// The view of an extracted body: its bytes and suggested content type.
pub open spec fn extracted_view(e: Option<(Vec<u8>, Option<Vec<u8>>)>) -> Option<(Seq<u8>, Option<Seq<u8>>)> {
    match e {
        Some(p) => Some(
            (
                p.0@,
                match p.1 {
                    Some(t) => Some(t@),
                    None => None,
                },
            ),
        ),
        None => None,
    }
}

/// The request headers as submitted: the body's content type is added where none is set;
/// for a text body, a set content type whose charset is not UTF-8 gets it rewritten.
pub open spec fn submitted_headers(
    hs: Seq<(Seq<u8>, Seq<u8>)>,
    extracted: Option<(Seq<u8>, Option<Seq<u8>>)>,
    text: bool,
) -> Seq<(Seq<u8>, Seq<u8>)> {
    match extracted {
        None => hs,
        Some(e) => {
            let set = header_values(hs, content_type_name());
            let parsed = if set.len() > 0 {
                mime_parse(set[0])
            } else {
                None
            };
            if e.1 is Some && set.len() == 0 {
                replaced(hs, content_type_name(), e.1->0)
            } else if text && parsed is Some && has_foreign_charset(params_of(parsed->0)) {
                replaced(hs, content_type_name(), rewritten_content_type(parsed->0))
            } else {
                hs
            }
        },
    }
}

/// `d` describes the request that `x` is configured for, with the body `body`.
pub open spec fn describes(d: RequestDescriptor, x: &XMLHttpRequest, body: PreparedBody) -> bool {
    &&& d.method@ == x.request.method@
    &&& d.url == x.request.url
    &&& hview(d.headers) == submitted_headers(hview(x.request.headers), extracted_view(body.extracted), body.text)
    &&& match body.extracted {
        Some(e) => d.body is Some && d.body->0@ == e.0@,
        None => d.body is None,
    }
    &&& d.synchronous == x.request.sync
    &&& d.use_cors_preflight == x.host.upload_observed
    &&& d.credentials_include == x.request.with_credentials
    &&& d.use_url_credentials == uses_url_credentials(x.request.url@)
    &&& d.referrer == x.host.referrer_url
    &&& d.generation_id == x.generation_id
}

/// `post` is `pre` after submitting the request with `body`: the descriptor, then, for an
/// asynchronous request with a timeout, the timeout.
pub open spec fn submitted(pre: &XMLHttpRequest, post: &XMLHttpRequest, body: PreparedBody) -> bool {
    let n = pre.actions@.len();
    let timed = !pre.request.sync && pre.request.timeout > 0;
    let tail = if timed {
        cancel_actions(pre.request.timeout_scheduled) + seq![
            Action::ScheduleTimeout(
                XHRTimeoutCallback { generation_id: pre.generation_id },
                pre.request.timeout,
            ),
        ]
    } else {
        Seq::empty()
    };
    &&& post.request == (RequestState {
        fetch_time: post.request.fetch_time,
        timeout_scheduled: if timed {
            true
        } else {
            pre.request.timeout_scheduled
        },
        ..pre.request
    })
    &&& post.host == pre.host
    &&& post.response == pre.response
    &&& post.config == pre.config
    &&& post.cache == pre.cache
    &&& post.ready_state == pre.ready_state
    &&& post.generation_id == pre.generation_id
    &&& post.actions@.len() == n + 1 + tail.len()
    &&& post.actions@.subrange(0, n as int) == pre.actions@
    &&& match post.actions@[n as int] {
        Action::Submit(d) => describes(d, pre, body),
        _ => false,
    }
    &&& post.actions@.subrange(n as int + 1, post.actions@.len() as int) == tail
}

/// The request uses the credentials of its URL: it has a user name or a password.
pub open spec fn uses_url_credentials(url: Seq<char>) -> bool {
    url_username(url).len() > 0 || url_has_password(url)
}

/// Returns whether the URL `url` carries credentials.
pub fn url_credentials(url: &str) -> (r: bool)
    ensures
        r == uses_url_credentials(url@),
{
    let user = username_of(url);
    !user.as_str().is_empty() || has_password(url)
}

/// Returns whether some charset parameter has a value other than UTF-8, ignoring case.
fn foreign_charset(params: &Vec<(Vec<u8>, Vec<u8>)>) -> (r: bool)
    ensures
        r == has_foreign_charset(params@.map_values(|p: (Vec<u8>, Vec<u8>)| (p.0@, p.1@))),
{
    let ghost ps = params@.map_values(|p: (Vec<u8>, Vec<u8>)| (p.0@, p.1@));
    let charset: Vec<u8> = vec![99u8, 104, 97, 114, 115, 101, 116];
    let utf8: Vec<u8> = vec![85u8, 84, 70, 45, 56];
    assert(spec_to_lower(charset@) =~= charset_name());
    let mut i: usize = 0;
    while i < params.len()
        invariant
            0 <= i <= params@.len(),
            ps == params@.map_values(|p: (Vec<u8>, Vec<u8>)| (p.0@, p.1@)),
            charset@ == charset_name(),
            utf8@ == utf8_name(),
            spec_to_lower(charset@) == charset_name(),
            forall|j: int|
                0 <= j < i ==> !(spec_to_lower(#[trigger] ps[j].0) == charset_name() && spec_to_lower(
                    ps[j].1,
                ) != spec_to_lower(utf8_name())),
        decreases params@.len() - i,
    {
        if eq_ignore_ascii_case(params[i].0.as_slice(), charset.as_slice()) && !eq_ignore_ascii_case(
            params[i].1.as_slice(),
            utf8.as_slice(),
        ) {
            assert(spec_to_lower(ps[i as int].0) == charset_name());
            return true;
        }
        i = i + 1;
    }
    false
}

/// Writes the content type `m` with the value of its charset parameter made UTF-8.
fn rewrite_content_type(m: &crate::outside::MimeType) -> (r: Vec<u8>)
    ensures
        r@ == rewritten_content_type(m.model()),
{
    let ghost ps = m.params@.map_values(|p: (Vec<u8>, Vec<u8>)| (p.0@, p.1@));
    let ghost us = utf8_charset(ps);
    let charset: Vec<u8> = vec![99u8, 104, 97, 114, 115, 101, 116];
    let utf8: Vec<u8> = vec![85u8, 84, 70, 45, 56];
    let mut out = copy_bytes(m.type_.as_slice());
    out.push(47u8);
    append_bytes(&mut out, m.subtype.as_slice());
    let ghost prefix = out@;
    let mut i: usize = 0;
    while i < m.params.len()
        invariant
            0 <= i <= m.params@.len(),
            ps == m.params@.map_values(|p: (Vec<u8>, Vec<u8>)| (p.0@, p.1@)),
            us == utf8_charset(ps),
            us.len() == ps.len(),
            charset@ == charset_name(),
            utf8@ == utf8_name(),
            out@ == prefix + params_text(us.subrange(0, i as int)),
        decreases m.params@.len() - i,
    {
        proof {
            assert(us.subrange(0, i as int + 1).drop_last() =~= us.subrange(0, i as int));
        }
        let ghost before = out@;
        let name = m.params[i].0.as_slice();
        let lower = crate::grammar::to_ascii_lower(name);
        out.push(59u8);
        out.push(32u8);
        append_bytes(&mut out, name);
        out.push(61u8);
        if bytes_eq(lower.as_slice(), charset.as_slice()) {
            append_bytes(&mut out, utf8.as_slice());
        } else {
            append_bytes(&mut out, m.params[i].1.as_slice());
        }
        proof {
            let u = us[i as int];
            assert(out@ =~= before + seq![59u8, 32] + u.0 + seq![61u8] + u.1);
            assert(prefix + params_text(us.subrange(0, i as int + 1)) =~= prefix + params_text(
                us.subrange(0, i as int),
            ) + seq![59u8, 32] + u.0 + seq![61u8] + u.1);
        }
        i = i + 1;
    }
    assert(us.subrange(0, i as int) =~= us);
    out
}

/// Copies a header list.
pub fn copy_headers(hs: &Vec<Header>) -> (r: Vec<Header>)
    ensures
        hview(r) == hview(*hs),
{
    let mut out: Vec<Header> = Vec::new();
    let mut i: usize = 0;
    while i < hs.len()
        invariant
            0 <= i <= hs@.len(),
            hview(out) == hview(*hs).subrange(0, i as int),
        decreases hs@.len() - i,
    {
        let e = (copy_bytes(hs[i].0.as_slice()), copy_bytes(hs[i].1.as_slice()));
        let ghost before = hview(out);
        out.push(e);
        assert(hview(out) =~= before.push(hview(*hs)[i as int]));
        assert(hview(out) =~= hview(*hs).subrange(0, i as int + 1));
        i = i + 1;
    }
    assert(hview(*hs).subrange(0, i as int) =~= hview(*hs));
    out
}

/// The request headers to submit with `body`.
fn headers_for_submission(hs: &Vec<Header>, body: &PreparedBody) -> (r: Vec<Header>)
    ensures
        hview(r) == submitted_headers(hview(*hs), extracted_view(body.extracted), body.text),
{
    let mut out = copy_headers(hs);
    match &body.extracted {
        None => {},
        Some((_, suggested)) => {
            let ct_name = content_type_bytes();
            let set = values_of(&out, ct_name.as_slice());
            let mut content_type_set = false;
            match suggested {
                Some(ct) => {
                    if set.len() == 0 {
                        replace_header(&mut out, ct_name.as_slice(), copy_bytes(ct.as_slice()));
                        content_type_set = true;
                    }
                },
                None => {},
            }
            if !content_type_set && body.text && set.len() > 0 {
                match parse_mime(set[0].as_slice()) {
                    Some(m) => {
                        if foreign_charset(&m.params) {
                            let v = rewrite_content_type(&m);
                            replace_header(&mut out, ct_name.as_slice(), v);
                        }
                    },
                    None => {},
                }
            }
        },
    }
    out
}

fn copy_referrer(r: &Option<String>) -> (c: Option<String>)
    ensures
        c == *r,
{
    match r {
        Some(s) => Some(s.clone()),
        None => None,
    }
}

impl XMLHttpRequest {
    /// Submits the request with `body`, and schedules the timeout of an asynchronous request.
    pub(crate) fn send_tail(&mut self, body: PreparedBody)
        ensures
            submitted(old(self), final(self), body),
            final(self).pending == old(self).pending,
    {
        let headers = headers_for_submission(&self.request.headers, &body);
        let use_url_credentials = url_credentials(self.request.url.as_str());
        let bytes = match &body.extracted {
            Some(e) => Some(copy_bytes(e.0.as_slice())),
            None => None,
        };
        let d = RequestDescriptor {
            method: copy_bytes(self.request.method.as_slice()),
            url: self.request.url.clone(),
            headers,
            body: bytes,
            synchronous: self.request.sync,
            use_cors_preflight: self.host.upload_observed,
            credentials_include: self.request.with_credentials,
            use_url_credentials,
            referrer: copy_referrer(&self.host.referrer_url),
            generation_id: self.generation_id,
        };
        proof {
            assert(describes(d, old(self), body));
        }
        self.request.fetch_time = now_seconds();
        self.actions.push(Action::Submit(d));
        if !self.request.sync && self.request.timeout > 0 {
            let t = self.request.timeout;
            self.set_timeout(t);
            assert(self.actions@.subrange(0, old(self).actions@.len() as int) =~= old(self).actions@);
            assert(self.actions@.subrange(old(self).actions@.len() as int + 1, self.actions@.len() as int)
                =~= cancel_actions(old(self).request.timeout_scheduled) + seq![
                Action::ScheduleTimeout(
                    XHRTimeoutCallback { generation_id: old(self).generation_id },
                    old(self).request.timeout,
                ),
            ]);
        } else {
            assert(self.actions@.subrange(0, old(self).actions@.len() as int) =~= old(self).actions@);
            assert(self.actions@.subrange(old(self).actions@.len() as int + 1, self.actions@.len() as int)
                =~= Seq::<Action>::empty());
        }
    }
}

} // verus!
