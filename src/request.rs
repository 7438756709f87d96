//! The caller's operations on the request side: construction, `open`, `setRequestHeader`,
//! `send`, `abort`, and the timeout and credentials attributes.

use vstd::prelude::*;
use crate::grammar::{
    spec_is_token, spec_is_field_value, spec_trim, spec_to_lower, spec_to_upper,
    spec_is_forbidden_header_name, is_token, is_field_value, trim_http_whitespace, to_ascii_lower,
    to_ascii_upper, is_forbidden_header_name, bytes_eq,
};
use crate::headers::{hview, combined, combine_header};
use crate::outside::{http_method_accepts, method_accepted, url_join, join_url, url_with_userinfo, set_userinfo};
use crate::send::{extracted_view, submitted};
use crate::types::{BodyInit, Extractable, GenerationId, ProgressKind, ReadyState, ResponseType, XHRProgress, XhrError};
use crate::xhr::{
    Action, HostContext, PreparedBody, RequestState, ResponseCache, ResponseConfig, ResponseState,
    Step, XMLHttpRequest, cancel_actions,
};

verus! {

/// The methods whose name is made upper case before use.
pub open spec fn known_methods() -> Seq<Seq<u8>> {
    seq![
        seq![68u8, 69, 76, 69, 84, 69],
        seq![71u8, 69, 84],
        seq![72u8, 69, 65, 68],
        seq![79u8, 80, 84, 73, 79, 78, 83],
        seq![80u8, 79, 83, 84],
        seq![80u8, 85, 84],
        seq![67u8, 79, 78, 78, 69, 67, 84],
        seq![84u8, 82, 65, 67, 69],
        seq![84u8, 82, 65, 67, 75],
    ]
}

/// The method as used: upper case where it is a known method ignoring case, else as given.
pub open spec fn normalized_method(m: Seq<u8>) -> Seq<u8> {
    if known_methods().contains(spec_to_upper(m)) {
        spec_to_upper(m)
    } else {
        m
    }
}

/// `CONNECT`, `TRACE` and `TRACK` may not be used.
pub open spec fn is_forbidden_method(m: Seq<u8>) -> bool {
    m == seq![67u8, 79, 78, 78, 69, 67, 84] || m == seq![84u8, 82, 65, 67, 69] || m == seq![
        84u8,
        82,
        65,
        67,
        75,
    ]
}

/// `GET` or `HEAD`: methods that send no body.
pub open spec fn is_bodiless_method(m: Seq<u8>) -> bool {
    m == seq![71u8, 69, 84] || m == seq![72u8, 69, 65, 68]
}

/// The error `open` reports, if any.
pub open spec fn open_error(
    x: &XMLHttpRequest,
    method: Seq<u8>,
    url: Seq<char>,
    is_async: bool,
) -> Option<XhrError> {
    let norm = normalized_method(method);
    if x.host.in_window && !x.host.fully_active {
        Some(XhrError::InvalidState)
    } else if !http_method_accepts(norm) {
        Some(XhrError::Syntax)
    } else if is_forbidden_method(norm) {
        Some(XhrError::Security)
    } else if !spec_is_token(method) {
        Some(XhrError::Syntax)
    } else if url_join(x.host.base_url@, url) is None {
        Some(XhrError::Syntax)
    } else if !is_async && (x.request.timeout != 0 || x.config.response_type != ResponseType::Empty) {
        Some(XhrError::InvalidAccess)
    } else {
        None
    }
}

/// The URL `open` resolves `url` to, with the credentials where a user name is given.
pub open spec fn opened_url(base: Seq<char>, url: Seq<char>, user: Option<Seq<char>>, password: Option<Seq<char>>) -> Seq<char> {
    let joined = url_join(base, url)->0;
    match user {
        Some(u) => url_with_userinfo(joined, u, password),
        None => joined,
    }
}

pub open spec fn opt_view(s: Option<&str>) -> Option<Seq<char>> {
    match s {
        Some(t) => Some(t@),
        None => None,
    }
}

/// The body that `send` takes from `data` for the method `method`.
pub open spec fn send_body(method: Seq<u8>, data: Option<BodyInit>) -> Option<(Seq<u8>, Option<Seq<u8>>)> {
    if is_bodiless_method(method) {
        None
    } else {
        match data {
            Some(b) => Some(b.extracted()),
            None => None,
        }
    }
}

/// Whether the body of `send` is text whose encoding is UTF-8.
pub open spec fn send_text(method: Seq<u8>, data: Option<BodyInit>) -> bool {
    !is_bodiless_method(method) && data is Some && data->0.spec_is_text()
}

/// The request once `send` has recorded the body: its length, whether the upload is already
/// complete (no body, or an empty one), and that a send is under way.
pub open spec fn sending(r: RequestState, body: Option<(Seq<u8>, Option<Seq<u8>>)>) -> RequestState {
    RequestState {
        body_len: match body {
            Some(b) => b.0.len() as usize,
            None => 0,
        },
        upload_complete: match body {
            Some(b) => b.0.len() == 0,
            None => true,
        },
        send_flag: true,
        ..r
    }
}

fn is_known_method(up: &[u8]) -> (r: bool)
    ensures
        r == known_methods().contains(up@),
{
    let names: Vec<Vec<u8>> = vec![
        vec![68u8, 69, 76, 69, 84, 69],
        vec![71u8, 69, 84],
        vec![72u8, 69, 65, 68],
        vec![79u8, 80, 84, 73, 79, 78, 83],
        vec![80u8, 79, 83, 84],
        vec![80u8, 85, 84],
        vec![67u8, 79, 78, 78, 69, 67, 84],
        vec![84u8, 82, 65, 67, 69],
        vec![84u8, 82, 65, 67, 75],
    ];
    assert(names@.map_values(|v: Vec<u8>| v@) =~= known_methods());
    let mut i: usize = 0;
    while i < names.len()
        invariant
            0 <= i <= names@.len(),
            names@.map_values(|v: Vec<u8>| v@) == known_methods(),
            forall|j: int| 0 <= j < i ==> names@[j]@ != up@,
        decreases names@.len() - i,
    {
        if bytes_eq(names[i].as_slice(), up) {
            assert(known_methods()[i as int] == up@);
            return true;
        }
        i = i + 1;
    }
    assert(!known_methods().contains(up@)) by {
        if known_methods().contains(up@) {
            let k = choose|k: int| 0 <= k < known_methods().len() && known_methods()[k] == up@;
            assert(names@[k]@ == up@);
        }
    }
    false
}

fn normalize_method(m: &[u8]) -> (r: Vec<u8>)
    ensures
        r@ == normalized_method(m@),
{
    let up = to_ascii_upper(m);
    if is_known_method(up.as_slice()) {
        up
    } else {
        crate::types::copy_bytes(m)
    }
}

fn forbidden_method(m: &[u8]) -> (r: bool)
    ensures
        r == is_forbidden_method(m@),
{
    let connect: Vec<u8> = vec![67u8, 79, 78, 78, 69, 67, 84];
    let trace: Vec<u8> = vec![84u8, 82, 65, 67, 69];
    let track: Vec<u8> = vec![84u8, 82, 65, 67, 75];
    bytes_eq(m, connect.as_slice()) || bytes_eq(m, trace.as_slice()) || bytes_eq(m, track.as_slice())
}

fn bodiless_method(m: &[u8]) -> (r: bool)
    ensures
        r == is_bodiless_method(m@),
{
    let get: Vec<u8> = vec![71u8, 69, 84];
    let head: Vec<u8> = vec![72u8, 69, 65, 68];
    bytes_eq(m, get.as_slice()) || bytes_eq(m, head.as_slice())
}

impl XMLHttpRequest {
    /// A request in `host`: unsent, method GET, no timeout, credentials only for the same
    /// origin, generation 0.
    pub fn new(host: HostContext) -> (r: XMLHttpRequest)
        ensures
            r.host == host,
            r.ready_state == ReadyState::Unsent,
            r.generation_id == GenerationId(0),
            r.request.method@ == seq![71u8, 69, 84],
            r.request.url@ == Seq::<char>::empty(),
            r.request.headers@.len() == 0,
            r.request.timeout == 0,
            !r.request.with_credentials,
            !r.request.sync,
            !r.request.send_flag,
            !r.request.upload_complete,
            !r.request.timeout_scheduled,
            r.request.body_len == 0,
            r.response.status == 0,
            r.response.status_text@.len() == 0,
            r.response.headers@.len() == 0,
            r.response.bytes@.len() == 0,
            r.response.url@ == Seq::<char>::empty(),
            !r.response.errored,
            r.response.sync_status is None,
            r.config.response_type == ResponseType::Empty,
            r.config.override_mime is None,
            r.config.override_charset is None,
            r.cache.document is None && r.cache.blob is None && r.cache.array_buffer is None
                && r.cache.json is None,
            r.actions@.len() == 0,
            r.pending@.len() == 0,
    {
        XMLHttpRequest {
            host,
            request: RequestState {
                method: vec![71u8, 69, 84],
                url: String::new(),
                headers: Vec::new(),
                body_len: 0,
                sync: false,
                with_credentials: false,
                timeout: 0,
                send_flag: false,
                upload_complete: false,
                fetch_time: 0,
                timeout_scheduled: false,
            },
            response: ResponseState {
                url: String::new(),
                status: 0,
                status_text: Vec::new(),
                headers: Vec::new(),
                bytes: Vec::new(),
                reserved: 0,
                errored: false,
                sync_status: None,
            },
            config: ResponseConfig {
                response_type: ResponseType::Empty,
                override_mime: None,
                override_charset: None,
            },
            cache: ResponseCache { document: None, blob: None, array_buffer: None, json: None },
            ready_state: ReadyState::Unsent,
            generation_id: GenerationId(0),
            actions: Vec::new(),
            pending: Vec::new(),
        }
    }

    /// Creates a request in `host`; it never fails.
    #[allow(non_snake_case)]
    pub fn Constructor(host: HostContext) -> (r: Result<XMLHttpRequest, XhrError>)
        ensures
            r is Ok && r->Ok_0.host == host && r->Ok_0.ready_state == ReadyState::Unsent
                && r->Ok_0.generation_id == GenerationId(0),
    {
        Ok(XMLHttpRequest::new(host))
    }

    /// `open(method, url)`: an asynchronous request without credentials.
    #[allow(non_snake_case)]
    pub fn Open(&mut self, method: &[u8], url: &str) -> (r: Result<(), XhrError>)
        requires
            old(self).generation_id.0 < u64::MAX,
        ensures
            match open_error(old(self), method@, url@, true) {
                Some(e) => r == Err::<(), XhrError>(e) && *final(self) == *old(self),
                None => r is Ok && final(self).opened(old(self), method@, url@, true, None, None),
            },
    {
        self.open_(method, url, true, None, None)
    }

    /// `post` is `pre` after a successful `open`: a new generation, the request reset to the
    /// normalised method and resolved URL with no headers, no response status, and the state
    /// `Opened` (notified only where it was another state).
    pub open spec fn opened(
        &self,
        pre: &XMLHttpRequest,
        method: Seq<u8>,
        url: Seq<char>,
        is_async: bool,
        user: Option<Seq<char>>,
        password: Option<Seq<char>>,
    ) -> bool {
        &&& self.generation_id == GenerationId((pre.generation_id.0 + 1) as u64)
        &&& self.request.method@ == normalized_method(method)
        &&& self.request.url@ == opened_url(pre.host.base_url@, url, user, password)
        &&& self.request.headers@.len() == 0
        &&& self.request.sync == !is_async
        &&& !self.request.send_flag
        &&& self.request.body_len == pre.request.body_len
        &&& self.request.with_credentials == pre.request.with_credentials
        &&& self.request.timeout == pre.request.timeout
        &&& self.request.upload_complete == pre.request.upload_complete
        &&& self.request.fetch_time == pre.request.fetch_time
        &&& self.request.timeout_scheduled == pre.request.timeout_scheduled
        &&& self.response.status == 0
        &&& self.response.status_text@.len() == 0
        &&& self.response.bytes@.len() == 0
        &&& !self.response.errored
        &&& self.response.url == pre.response.url
        &&& self.response.headers == pre.response.headers
        &&& self.response.reserved == pre.response.reserved
        &&& self.response.sync_status == pre.response.sync_status
        &&& self.cache.document is None && self.cache.blob is None && self.cache.array_buffer is None
            && self.cache.json is None
        &&& self.host == pre.host
        &&& self.config == pre.config
        &&& self.ready_state == ReadyState::Opened
        &&& self.actions@ == pre.actions@.push(Action::CancelFetch) + if pre.ready_state
            != ReadyState::Opened {
            seq![Action::Notify(crate::types::Notification::ReadyStateChange)]
        } else {
            Seq::empty()
        }
        &&& self.pending == pre.pending
    }

    /// `open(method, url, async, user, password)`: checks the method and resolves the URL, ends
    /// any fetch in flight, and resets the request to `Opened`.
    #[allow(non_snake_case)]
    pub fn open_(
        &mut self,
        method: &[u8],
        url: &str,
        is_async: bool,
        username: Option<&str>,
        password: Option<&str>,
    ) -> (r: Result<(), XhrError>)
        requires
            old(self).generation_id.0 < u64::MAX,
        ensures
            match open_error(old(self), method@, url@, is_async) {
                Some(e) => r == Err::<(), XhrError>(e) && *final(self) == *old(self),
                None => r is Ok && final(self).opened(
                    old(self),
                    method@,
                    url@,
                    is_async,
                    opt_view(username),
                    opt_view(password),
                ),
            },
    {
        if self.host.in_window && !self.host.fully_active {
            return Err(XhrError::InvalidState);
        }
        let parsed_method = normalize_method(method);
        if !method_accepted(parsed_method.as_slice()) {
            return Err(XhrError::Syntax);
        }
        if forbidden_method(parsed_method.as_slice()) {
            return Err(XhrError::Security);
        }
        if !is_token(method) {
            return Err(XhrError::Syntax);
        }
        let joined = match join_url(self.host.base_url.as_str(), url) {
            Some(u) => u,
            None => {
                return Err(XhrError::Syntax);
            },
        };
        let parsed_url = match username {
            Some(user) => set_userinfo(joined.as_str(), user, password),
            None => joined,
        };
        if !is_async {
            if self.request.timeout != 0 || self.config.response_type != ResponseType::Empty {
                return Err(XhrError::InvalidAccess);
            }
        }
        self.terminate_ongoing_fetch();
        self.request.method = parsed_method;
        self.request.url = parsed_url;
        self.request.sync = !is_async;
        self.request.headers = Vec::new();
        self.request.send_flag = false;
        self.response.status_text = Vec::new();
        self.response.status = 0;
        if self.ready_state != ReadyState::Opened {
            self.change_ready_state(ReadyState::Opened);
            assert(self.actions@ =~= old(self).actions@.push(Action::CancelFetch) + seq![
                Action::Notify(crate::types::Notification::ReadyStateChange),
            ]);
        } else {
            assert(self.actions@ =~= old(self).actions@.push(Action::CancelFetch) + Seq::<Action>::empty());
        }
        Ok(())
    }

    /// `setRequestHeader(name, value)`: the value, trimmed of HTTP whitespace, is combined into
    /// the request headers under the lower-case name; a forbidden name is ignored.
    #[allow(non_snake_case)]
    pub fn SetRequestHeader(&mut self, name: &[u8], value: &[u8]) -> (r: Result<(), XhrError>)
        ensures
            (old(self).ready_state != ReadyState::Opened || old(self).request.send_flag) ==> r
                == Err::<(), XhrError>(XhrError::InvalidState) && *final(self) == *old(self),
            (old(self).ready_state == ReadyState::Opened && !old(self).request.send_flag) ==> {
                let v = spec_trim(value@);
                let lname = spec_to_lower(name@);
                if !spec_is_token(name@) || !spec_is_field_value(v) {
                    r == Err::<(), XhrError>(XhrError::Syntax) && *final(self) == *old(self)
                } else if spec_is_forbidden_header_name(lname) {
                    r is Ok && *final(self) == *old(self)
                } else {
                    &&& r is Ok
                    &&& hview(final(self).request.headers) == combined(
                        hview(old(self).request.headers),
                        lname,
                        v,
                    )
                    &&& final(self).request == (RequestState {
                        headers: final(self).request.headers,
                        ..old(self).request
                    })
                    &&& final(self).same_state_but_request(old(self))
                    &&& final(self).actions == old(self).actions
                    &&& final(self).pending == old(self).pending
                }
            },
    {
        if self.ready_state != ReadyState::Opened || self.request.send_flag {
            return Err(XhrError::InvalidState);
        }
        let value = trim_http_whitespace(value);
        if !is_token(name) || !is_field_value(value.as_slice()) {
            return Err(XhrError::Syntax);
        }
        let name_lower = to_ascii_lower(name);
        if is_forbidden_header_name(name_lower.as_slice()) {
            return Ok(());
        }
        combine_header(&mut self.request.headers, name_lower.as_slice(), value.as_slice());
        Ok(())
    }

    /// Everything but the request is as in `other`.
    pub open spec fn same_state_but_request(&self, other: &Self) -> bool {
        self.host == other.host && self.response == other.response && self.config == other.config
            && self.cache == other.cache && self.ready_state == other.ready_state
            && self.generation_id == other.generation_id
    }

    /// `self` is `pre` after `send(data)` returned `r`.
    pub open spec fn sent(&self, pre: &XMLHttpRequest, data: Option<BodyInit>, r: Result<(), XhrError>) -> bool {
        &&& ((pre.ready_state != ReadyState::Opened || pre.request.send_flag) ==> r
                == Err::<(), XhrError>(XhrError::InvalidState) && *self == *pre)
        &&& ((pre.ready_state == ReadyState::Opened && !pre.request.send_flag) ==> {
                let body = send_body(pre.request.method@, data);
                let text = send_text(pre.request.method@, data);
                let recorded = XMLHttpRequest { request: sending(pre.request, body), ..*pre };
                &&& r is Ok
                &&& if pre.request.sync {
                    &&& exists|b: PreparedBody|
                        extracted_view(b.extracted) == body && b.text == text && submitted(
                            &recorded,
                            self,
                            b,
                        )
                    &&& self.pending == pre.pending
                } else {
                    &&& self.same_state(&recorded)
                    &&& self.actions@ == pre.actions@.push(
                        Action::Notify(pre.response_note(ProgressKind::LoadStart)),
                    )
                    &&& self.pending@.len() == pre.pending@.len() + 1
                    &&& self.pending@.drop_last() == pre.pending@
                    &&& match self.pending@.last() {
                        Step::SendUpload(g, b) => g == pre.generation_id
                            && extracted_view(b.extracted) == body && b.text == text,
                        _ => false,
                    }
                }
            })
    }

    /// `send(body)`: records the body, then either notifies that loading starts and queues the
    /// submission (asynchronous), or submits at once (synchronous). A GET or HEAD sends no body.
    #[allow(non_snake_case)]
    pub fn Send(&mut self, data: Option<BodyInit>) -> (r: Result<(), XhrError>)
        ensures
            final(self).sent(old(self), data, r),
    {
        if self.ready_state != ReadyState::Opened || self.request.send_flag {
            return Err(XhrError::InvalidState);
        }
        let data = if bodiless_method(self.request.method.as_slice()) {
            None
        } else {
            data
        };
        let text = match &data {
            Some(b) => b.is_text(),
            None => false,
        };
        let extracted = match &data {
            Some(b) => Some(b.extract()),
            None => None,
        };
        let len = match &extracted {
            Some(e) => e.0.len(),
            None => 0,
        };
        self.request.body_len = len;
        self.request.upload_complete = match &extracted {
            None => true,
            Some(e) => e.0.len() == 0,
        };
        self.request.send_flag = true;
        let body = PreparedBody { extracted, text };
        if !self.request.sync {
            let g = self.generation_id;
            let n = self.response_progress(ProgressKind::LoadStart);
            self.fire(n);
            self.pending.push(Step::SendUpload(g, body));
            assert(self.pending@.drop_last() =~= old(self).pending@);
        } else {
            self.send_tail(body);
        }
        Ok(())
    }

    /// `abort()`: ends the fetch in flight; if a send was under way, reports the abort as an
    /// error of the current (new) generation and then returns to `Unsent`, else returns to
    /// `Unsent` at once.
    #[allow(non_snake_case)]
    pub fn Abort(&mut self)
        requires
            old(self).generation_id.0 < u64::MAX,
        ensures
            final(self).aborted(old(self)),
    {
        self.terminate_ongoing_fetch();
        let state = self.ready_state;
        if (state == ReadyState::Opened && self.request.send_flag) || state
            == ReadyState::HeadersReceived || state == ReadyState::Loading {
            let g = self.generation_id;
            self.pending.push(Step::AbortTail(g));
            self.process_partial_response(XHRProgress::Errored(g, XhrError::Abort));
            assert(self.pending@ =~= old(self).pending@ + seq![
                Step::AbortTail(g),
                Step::ErroredTail(g, ProgressKind::Abort),
            ]);
            assert(self.actions@ =~= old(self).actions@.push(Action::CancelFetch) + cancel_actions(
                old(self).request.timeout_scheduled,
            ) + seq![Action::Notify(crate::types::Notification::ReadyStateChange)]);
        } else {
            self.ready_state = ReadyState::Unsent;
        }
    }

    /// `post` is `pre` after `abort`.
    pub open spec fn aborted(&self, pre: &XMLHttpRequest) -> bool {
        let g = GenerationId((pre.generation_id.0 + 1) as u64);
        let in_flight = (pre.ready_state == ReadyState::Opened && pre.request.send_flag)
            || pre.ready_state == ReadyState::HeadersReceived || pre.ready_state
            == ReadyState::Loading;
        &&& self.generation_id == g
        &&& self.host == pre.host
        &&& self.config == pre.config
        &&& self.cache.document is None && self.cache.blob is None && self.cache.array_buffer is None
            && self.cache.json is None
        &&& self.response.bytes@.len() == 0
        &&& self.response.url == pre.response.url
        &&& self.response.status == pre.response.status
        &&& self.response.status_text == pre.response.status_text
        &&& self.response.headers == pre.response.headers
        &&& self.response.reserved == pre.response.reserved
        &&& self.response.sync_status == pre.response.sync_status
        &&& if in_flight {
            &&& self.request == (RequestState {
                timeout_scheduled: false,
                send_flag: false,
                ..pre.request
            })
            &&& self.response.errored
            &&& self.ready_state == ReadyState::Done
            &&& self.actions@ == pre.actions@.push(Action::CancelFetch) + cancel_actions(
                pre.request.timeout_scheduled,
            ) + seq![Action::Notify(crate::types::Notification::ReadyStateChange)]
            &&& self.pending@ == pre.pending@ + seq![
                Step::AbortTail(g),
                Step::ErroredTail(g, ProgressKind::Abort),
            ]
        } else {
            &&& self.request == pre.request
            &&& !self.response.errored
            &&& self.ready_state == ReadyState::Unsent
            &&& self.actions@ == pre.actions@.push(Action::CancelFetch)
            &&& self.pending == pre.pending
        }
    }
}

} // verus!
