//! The request object: its state, the generation guard, and the processing of network events
//! as a sequence of steps that stops after each notification.

use vstd::prelude::*;
use crate::headers::{hview, header_values, values_of, contains};
use crate::outside::{MimeType, declared_content_length, content_length_of};
use crate::types::{error_kind, spec_error_kind, XHRProgress, Blob, GenerationId, Header, Notification, ProgressKind, ReadyState, ResponseType, XhrError};

verus! {

/// The host the request lives in.
pub struct HostContext {
    /// Whether the host is a window (rather than a worker).
    pub in_window: bool,
    /// Whether the window's document is fully active.
    pub fully_active: bool,
    /// The base against which request URLs are resolved.
    pub base_url: String,
    /// The referrer sent with requests.
    pub referrer_url: Option<String>,
    /// Whether the upload side has observers (a hint that CORS needs a preflight).
    pub upload_observed: bool,
}

/// The request as configured by `open`, `setRequestHeader` and `send`.
pub struct RequestState {
    pub method: Vec<u8>,
    pub url: String,
    pub headers: Vec<Header>,
    pub body_len: usize,
    pub sync: bool,
    pub with_credentials: bool,
    /// The timeout in milliseconds; 0 means none.
    pub timeout: u32,
    pub send_flag: bool,
    pub upload_complete: bool,
    /// The clock, in seconds, when the request was submitted.
    pub fetch_time: i64,
    /// Whether a timeout is scheduled.
    pub timeout_scheduled: bool,
}

/// The response as received so far.
pub struct ResponseState {
    pub url: String,
    pub status: u16,
    pub status_text: Vec<u8>,
    pub headers: Vec<Header>,
    pub bytes: Vec<u8>,
    /// The capacity reserved for the body when the head arrived.
    pub reserved: usize,
    /// Set once a notification of the current generation failed: later events are ignored.
    pub errored: bool,
    /// The outcome of a synchronous request, once it is known.
    pub sync_status: Option<Result<(), XhrError>>,
}

/// How the caller wants the response read.
pub struct ResponseConfig {
    pub response_type: ResponseType,
    /// The MIME type set by `overrideMimeType`, without its parameters.
    pub override_mime: Option<MimeType>,
    /// The charset parameter given to `overrideMimeType`, if it names an encoding.
    pub override_charset: Option<Vec<u8>>,
}

/// A parsed document made from the response: whether HTML (else XML), its decoded source,
/// the encoding it was decoded with (`None`: UTF-8), its content type and its URL.
pub struct Document {
    pub is_html: bool,
    pub source: String,
    pub encoding: Option<String>,
    pub content_type: Option<MimeType>,
    pub url: Option<String>,
}

/// The typed views of the response made so far in this generation.
pub struct ResponseCache {
    pub document: Option<Document>,
    pub blob: Option<Blob>,
    pub array_buffer: Option<Vec<u8>>,
    pub json: Option<serde_json::Value>,
}

/// What the host must submit to the fetch service.
pub struct RequestDescriptor {
    pub method: Vec<u8>,
    pub url: String,
    pub headers: Vec<Header>,
    pub body: Option<Vec<u8>>,
    pub synchronous: bool,
    pub use_cors_preflight: bool,
    /// Credentials are included (else only for the same origin).
    pub credentials_include: bool,
    pub use_url_credentials: bool,
    pub referrer: Option<String>,
    /// The generation whose events the fetch will carry.
    pub generation_id: GenerationId,
}

/// A timeout, scheduled for the generation it was set in.
pub struct XHRTimeoutCallback {
    pub generation_id: GenerationId,
}

/// Work for the host, in the order it is due.
pub enum Action {
    /// Deliver a notification to the observers.
    Notify(Notification),
    /// Cancel the fetch in flight, if any.
    CancelFetch,
    /// Submit a request to the fetch service.
    Submit(RequestDescriptor),
    /// Schedule the callback after the given milliseconds, replacing any scheduled one.
    ScheduleTimeout(XHRTimeoutCallback, u32),
    /// Cancel the scheduled timeout.
    CancelTimeout,
}

/// The body of a send, once extracted: bytes and suggested content type, and whether it is
/// text encoded as UTF-8.
pub struct PreparedBody {
    pub extracted: Option<(Vec<u8>, Option<Vec<u8>>)>,
    pub text: bool,
}

/// What remains of a sequence of notifications, each part guarded by its generation.
pub enum Step {
    /// Notify the response observers of progress of this kind.
    Response(GenerationId, ProgressKind),
    /// Notify the upload observers of progress of this kind.
    Upload(GenerationId, ProgressKind),
    /// Take over the response head.
    HeadersTail(GenerationId, Option<Vec<Header>>, Option<(u16, Vec<u8>)>),
    /// Report an error of this kind to the upload side (if still uploading) and the response.
    ErroredTail(GenerationId, ProgressKind),
    /// Return to `Unsent` at the end of an abort.
    AbortTail(GenerationId),
    /// Notify the upload observers that the upload starts, then submit.
    SendUpload(GenerationId, PreparedBody),
    /// Submit the request.
    SendTail(GenerationId, PreparedBody),
}

/// The request object.
pub struct XMLHttpRequest {
    pub host: HostContext,
    pub request: RequestState,
    pub response: ResponseState,
    pub config: ResponseConfig,
    pub cache: ResponseCache,
    pub ready_state: ReadyState,
    pub generation_id: GenerationId,
    /// Work for the host, oldest first.
    pub actions: Vec<Action>,
    /// The steps still to run; the last is the next.
    pub pending: Vec<Step>,
}

/// The most that is reserved ahead for a response body: 4 MiB.
pub const MAX_RESERVE: usize = 4194304;

/// `content-length`
pub open spec fn content_length_name() -> Seq<u8> {
    seq![99u8, 111, 110, 116, 101, 110, 116, 45, 108, 101, 110, 103, 116, 104]
}

fn content_length_bytes() -> (r: Vec<u8>)
    ensures
        r@ == content_length_name(),
{
    vec![99u8, 111, 110, 116, 101, 110, 116, 45, 108, 101, 110, 103, 116, 104]
}

/// `content-encoding`
pub open spec fn content_encoding_name() -> Seq<u8> {
    seq![99u8, 111, 110, 116, 101, 110, 116, 45, 101, 110, 99, 111, 100, 105, 110, 103]
}

fn content_encoding_bytes() -> (r: Vec<u8>)
    ensures
        r@ == content_encoding_name(),
{
    vec![99u8, 111, 110, 116, 101, 110, 116, 45, 101, 110, 99, 111, 100, 105, 110, 103]
}

/// The content length that the headers `hs` declare.
pub open spec fn spec_content_length(hs: Seq<(Seq<u8>, Seq<u8>)>) -> Option<u64> {
    declared_content_length(header_values(hs, content_length_name()))
}

/// The capacity reserved for a body whose head declares `len`: at most `MAX_RESERVE`.
pub open spec fn spec_reserve(len: Option<u64>) -> usize {
    match len {
        Some(n) => if n < MAX_RESERVE as u64 {
            n as usize
        } else {
            MAX_RESERVE
        },
        None => 0,
    }
}

/// The progress payload: with a content encoding the total is unknown.
pub open spec fn progress(
    hs: Seq<(Seq<u8>, Seq<u8>)>,
    upload: bool,
    kind: ProgressKind,
    loaded: u64,
    total: Option<u64>,
) -> Notification {
    let encoded = header_values(hs, content_encoding_name()).len() > 0;
    Notification::Progress {
        upload,
        kind,
        loaded,
        total: if encoded {
            0
        } else {
            match total {
                Some(t) => t,
                None => 0,
            }
        },
        length_computable: !encoded && total is Some,
    }
}

/// The actions that cancel a scheduled timeout, if one is scheduled.
pub open spec fn cancel_actions(scheduled: bool) -> Seq<Action> {
    if scheduled {
        seq![Action::CancelTimeout]
    } else {
        Seq::empty()
    }
}

impl XMLHttpRequest {
    /// The notification of response progress of `kind` in the current state.
    pub open spec fn response_note(&self, kind: ProgressKind) -> Notification {
        progress(
            hview(self.response.headers),
            false,
            kind,
            self.response.bytes@.len() as u64,
            spec_content_length(hview(self.response.headers)),
        )
    }

    /// The notification of upload progress of `kind`; `loaded` is all of the body unless given.
    pub open spec fn upload_note(&self, kind: ProgressKind, loaded: Option<u64>) -> Notification {
        progress(
            hview(self.response.headers),
            true,
            kind,
            match loaded {
                Some(l) => l,
                None => self.request.body_len as u64,
            },
            Some(self.request.body_len as u64),
        )
    }

    /// Everything but the action and step queues is as in `other`.
    pub open spec fn same_state(&self, other: &Self) -> bool {
        self.host == other.host && self.request == other.request && self.response == other.response
            && self.config == other.config && self.cache == other.cache && self.ready_state
            == other.ready_state && self.generation_id == other.generation_id
    }

    /// Whether `g` is the current generation.
    pub open spec fn is_current(&self, g: GenerationId) -> bool {
        g == self.generation_id
    }

    pub fn response_progress(&self, kind: ProgressKind) -> (r: Notification)
        ensures
            r == self.response_note(kind),
    {
        let cl = values_of(&self.response.headers, content_length_bytes().as_slice());
        let total = content_length_of(&cl);
        self.progress_payload(false, kind, self.response.bytes.len() as u64, total)
    }

    pub fn upload_progress(&self, kind: ProgressKind, loaded: Option<u64>) -> (r: Notification)
        ensures
            r == self.upload_note(kind, loaded),
    {
        let total = self.request.body_len as u64;
        let l = match loaded {
            Some(l) => l,
            None => total,
        };
        self.progress_payload(true, kind, l, Some(total))
    }

    fn progress_payload(&self, upload: bool, kind: ProgressKind, loaded: u64, total: Option<u64>) -> (r:
        Notification)
        ensures
            r == progress(hview(self.response.headers), upload, kind, loaded, total),
    {
        let encoded = contains(&self.response.headers, content_encoding_bytes().as_slice());
        let (t, computable) = if encoded {
            (0u64, false)
        } else {
            match total {
                Some(t) => (t, true),
                None => (0u64, false),
            }
        };
        Notification::Progress { upload, kind, loaded, total: t, length_computable: computable }
    }

    /// Queues a notification.
    pub(crate) fn fire(&mut self, n: Notification)
        ensures
            final(self).same_state(old(self)),
            final(self).actions@ == old(self).actions@.push(Action::Notify(n)),
            final(self).pending == old(self).pending,
    {
        self.actions.push(Action::Notify(n));
    }

    /// Moves to the state `rs` and notifies of the change.
    pub(crate) fn change_ready_state(&mut self, rs: ReadyState)
        requires
            old(self).ready_state != rs,
        ensures
            final(self).ready_state == rs,
            final(self).host == old(self).host,
            final(self).request == old(self).request,
            final(self).response == old(self).response,
            final(self).config == old(self).config,
            final(self).cache == old(self).cache,
            final(self).generation_id == old(self).generation_id,
            final(self).actions@ == old(self).actions@.push(Action::Notify(Notification::ReadyStateChange)),
            final(self).pending == old(self).pending,
    {
        self.ready_state = rs;
        self.fire(Notification::ReadyStateChange);
    }

    /// Cancels the scheduled timeout, if any.
    pub(crate) fn cancel_timeout(&mut self)
        ensures
            final(self).request == (RequestState { timeout_scheduled: false, ..old(self).request }),
            final(self).host == old(self).host,
            final(self).response == old(self).response,
            final(self).config == old(self).config,
            final(self).cache == old(self).cache,
            final(self).ready_state == old(self).ready_state,
            final(self).generation_id == old(self).generation_id,
            final(self).actions@ == old(self).actions@ + cancel_actions(old(self).request.timeout_scheduled),
            final(self).pending == old(self).pending,
    {
        if self.request.timeout_scheduled {
            self.actions.push(Action::CancelTimeout);
            self.request.timeout_scheduled = false;
        } else {
            assert(self.actions@ =~= old(self).actions@ + cancel_actions(false));
        }
    }

    /// Schedules a timeout after `duration_ms` for the current generation, in place of any
    /// scheduled one.
    pub(crate) fn set_timeout(&mut self, duration_ms: u32)
        ensures
            final(self).request == (RequestState { timeout_scheduled: true, ..old(self).request }),
            final(self).host == old(self).host,
            final(self).response == old(self).response,
            final(self).config == old(self).config,
            final(self).cache == old(self).cache,
            final(self).ready_state == old(self).ready_state,
            final(self).generation_id == old(self).generation_id,
            final(self).actions@ == old(self).actions@ + cancel_actions(old(self).request.timeout_scheduled)
                + seq![
                Action::ScheduleTimeout(
                    XHRTimeoutCallback { generation_id: old(self).generation_id },
                    duration_ms,
                ),
            ],
            final(self).pending == old(self).pending,
    {
        self.cancel_timeout();
        let cb = XHRTimeoutCallback { generation_id: self.generation_id };
        self.actions.push(Action::ScheduleTimeout(cb, duration_ms));
        self.request.timeout_scheduled = true;
    }

    /// Ends the fetch in flight: a new generation begins, with an empty response buffer, no
    /// cached views and no error recorded.
    pub(crate) fn terminate_ongoing_fetch(&mut self)
        requires
            old(self).generation_id.0 < u64::MAX,
        ensures
            final(self).generation_id == GenerationId((old(self).generation_id.0 + 1) as u64),
            final(self).response.errored == false,
            final(self).response.bytes@ == Seq::<u8>::empty(),
            final(self).response.url == old(self).response.url,
            final(self).response.status == old(self).response.status,
            final(self).response.status_text == old(self).response.status_text,
            final(self).response.headers == old(self).response.headers,
            final(self).response.reserved == old(self).response.reserved,
            final(self).response.sync_status == old(self).response.sync_status,
            final(self).cache.document is None,
            final(self).cache.blob is None,
            final(self).cache.array_buffer is None,
            final(self).cache.json is None,
            final(self).host == old(self).host,
            final(self).request == old(self).request,
            final(self).config == old(self).config,
            final(self).ready_state == old(self).ready_state,
            final(self).actions@ == old(self).actions@.push(Action::CancelFetch),
            final(self).pending == old(self).pending,
    {
        self.actions.push(Action::CancelFetch);
        self.generation_id = GenerationId(self.generation_id.0 + 1);
        self.response.errored = false;
        self.response.bytes.clear();
        self.cache.document = None;
        self.cache.blob = None;
        self.cache.array_buffer = None;
        self.cache.json = None;
    }

    /// Takes over a response head: status, headers, and an empty body buffer with capacity
    /// reserved for the declared length, up to `MAX_RESERVE`.
    pub(crate) fn apply_head(&mut self, headers: Option<Vec<Header>>, status: Option<(u16, Vec<u8>)>)
        ensures
            final(self).response.status == (match status {
                Some(s) => s.0,
                None => old(self).response.status,
            }),
            final(self).response.status_text == (match status {
                Some(s) => s.1,
                None => old(self).response.status_text,
            }),
            final(self).response.headers == (match headers {
                Some(h) => h,
                None => old(self).response.headers,
            }),
            final(self).response.bytes@ == Seq::<u8>::empty(),
            final(self).response.reserved == spec_reserve(match headers {
                Some(h) => spec_content_length(hview(h)),
                None => None,
            }),
            final(self).response.url == old(self).response.url,
            final(self).response.errored == old(self).response.errored,
            final(self).response.sync_status == old(self).response.sync_status,
            final(self).same_state_but_response(old(self)),
            final(self).actions == old(self).actions,
            final(self).pending == old(self).pending,
    {
        match status {
            Some((code, reason)) => {
                self.response.status = code;
                self.response.status_text = reason;
            },
            None => {},
        }
        let len = match &headers {
            Some(h) => {
                let cl = values_of(h, content_length_bytes().as_slice());
                content_length_of(&cl)
            },
            None => None,
        };
        match headers {
            Some(h) => {
                self.response.headers = h;
            },
            None => {},
        }
        self.response.bytes.clear();
        match len {
            Some(n) => {
                // never reserve more than MAX_RESERVE, whatever length the server declares
                let size: usize = if n < MAX_RESERVE as u64 {
                    n as usize
                } else {
                    MAX_RESERVE
                };
                self.response.bytes.reserve(size);
                self.response.reserved = size;
            },
            None => {
                self.response.reserved = 0;
            },
        }
    }

    /// Everything but the response is as in `other`.
    pub open spec fn same_state_but_response(&self, other: &Self) -> bool {
        self.host == other.host && self.request == other.request && self.config == other.config
            && self.cache == other.cache && self.ready_state == other.ready_state
            && self.generation_id == other.generation_id
    }

    /// Whether an event is to be dropped: it belongs to an older generation, or the current
    /// generation has already failed.
    pub open spec fn is_stale(&self, progress: XHRProgress) -> bool {
        progress.spec_generation_id() != self.generation_id || self.response.errored
    }

    /// The order in which the transport delivers events: a head only while `Opened`, the end
    /// only after the head (or in synchronous mode), and nothing after the end.
    pub open spec fn accepts(&self, progress: XHRProgress) -> bool {
        match progress {
            XHRProgress::HeadersReceived(..) => self.ready_state == ReadyState::Opened,
            XHRProgress::Loading(..) => true,
            XHRProgress::Done(..) => self.ready_state != ReadyState::Done && (self.ready_state
                == ReadyState::HeadersReceived || self.ready_state == ReadyState::Loading
                || self.request.sync),
            XHRProgress::Errored(..) => self.ready_state != ReadyState::Done,
        }
    }

    /// `self` is `pre` after processing `progress`.
    pub open spec fn processed(&self, pre: &Self, progress: XHRProgress) -> bool {
        &&& (pre.is_stale(progress) ==> *self == *pre)
        &&& (!pre.is_stale(progress) ==> match progress {
                XHRProgress::HeadersReceived(g, hs, st) => if pre.request.sync {
                    &&& self.request == (RequestState { upload_complete: true, ..pre.request })
                    &&& self.response.status == (match st {
                        Some(s) => s.0,
                        None => pre.response.status,
                    })
                    &&& self.response.status_text == (match st {
                        Some(s) => s.1,
                        None => pre.response.status_text,
                    })
                    &&& self.response.headers == (match hs {
                        Some(h) => h,
                        None => pre.response.headers,
                    })
                    &&& self.response.bytes@ == Seq::<u8>::empty()
                    &&& self.response.reserved == spec_reserve(match hs {
                        Some(h) => spec_content_length(hview(h)),
                        None => None,
                    })
                    &&& self.ready_state == pre.ready_state
                    &&& self.actions == pre.actions
                    &&& self.pending == pre.pending
                } else {
                    &&& self.request == (RequestState { upload_complete: true, ..pre.request })
                    &&& self.response == pre.response
                    &&& self.ready_state == pre.ready_state
                    &&& self.actions@ == pre.actions@.push(
                        Action::Notify(pre.upload_note(ProgressKind::Progress, None)),
                    )
                    &&& self.pending@ == pre.pending@ + seq![
                        Step::HeadersTail(g, hs, st),
                        Step::Upload(g, ProgressKind::LoadEnd),
                        Step::Upload(g, ProgressKind::Load),
                    ]
                },
                XHRProgress::Loading(g, chunk) => {
                    &&& self.response.bytes@ == pre.response.bytes@ + chunk@
                    &&& self.request == pre.request
                    &&& if pre.request.sync {
                        &&& self.ready_state == pre.ready_state
                        &&& self.actions == pre.actions
                        &&& self.pending == pre.pending
                    } else {
                        &&& self.ready_state == (if pre.ready_state
                            == ReadyState::HeadersReceived {
                            ReadyState::Loading
                        } else {
                            pre.ready_state
                        })
                        &&& self.actions@ == pre.actions@.push(
                            Action::Notify(Notification::ReadyStateChange),
                        )
                        &&& self.pending@ == pre.pending@.push(
                            Step::Response(g, ProgressKind::Progress),
                        )
                    }
                },
                XHRProgress::Done(g) => {
                    &&& self.request == (RequestState {
                        timeout_scheduled: false,
                        send_flag: false,
                        ..pre.request
                    })
                    &&& self.response == pre.response
                    &&& self.ready_state == ReadyState::Done
                    &&& self.actions@ == pre.actions@ + cancel_actions(
                        pre.request.timeout_scheduled,
                    ) + seq![Action::Notify(Notification::ReadyStateChange)]
                    &&& self.pending@ == pre.pending@ + seq![
                        Step::Response(g, ProgressKind::LoadEnd),
                        Step::Response(g, ProgressKind::Load),
                    ]
                },
                XHRProgress::Errored(g, e) => {
                    &&& self.request == (RequestState {
                        timeout_scheduled: false,
                        send_flag: false,
                        ..pre.request
                    })
                    &&& self.response == (ResponseState { errored: true, ..pre.response })
                    &&& self.ready_state == ReadyState::Done
                    &&& self.actions@ == pre.actions@ + cancel_actions(
                        pre.request.timeout_scheduled,
                    ) + seq![Action::Notify(Notification::ReadyStateChange)]
                    &&& self.pending@ == pre.pending@.push(
                        Step::ErroredTail(g, spec_error_kind(e)),
                    )
                },
            })
        &&& (self.host == pre.host)
        &&& (self.config == pre.config)
        &&& (self.cache == pre.cache)
        &&& (self.generation_id == pre.generation_id)
        &&& (self.response.url == pre.response.url)
        &&& (self.response.sync_status == pre.response.sync_status)
    }

    /// Processes one network event. A stale event changes nothing. Otherwise the event's
    /// effects up to its first notification happen now, and the rest of its sequence is queued
    /// as steps, each of which runs only if the generation is still current.
    pub fn process_partial_response(&mut self, progress: XHRProgress)
        requires
            !old(self).is_stale(progress) ==> old(self).accepts(progress),
        ensures
            final(self).processed(old(self), progress),
    {
        let msg_id = progress.generation_id();
        // an event of an ended fetch is dropped
        if msg_id != self.generation_id {
            return;
        }
        // so is any event after the current generation failed or timed out
        if self.response.errored {
            return;
        }
        match progress {
            XHRProgress::HeadersReceived(g, headers, status) => {
                self.request.upload_complete = true;
                if !self.request.sync {
                    let n = self.upload_progress(ProgressKind::Progress, None);
                    self.fire(n);
                    self.pending.push(Step::HeadersTail(g, headers, status));
                    self.pending.push(Step::Upload(g, ProgressKind::LoadEnd));
                    self.pending.push(Step::Upload(g, ProgressKind::Load));
                    assert(self.pending@ =~= old(self).pending@ + seq![
                        Step::HeadersTail(g, headers, status),
                        Step::Upload(g, ProgressKind::LoadEnd),
                        Step::Upload(g, ProgressKind::Load),
                    ]);
                } else {
                    self.apply_head(headers, status);
                }
            },
            XHRProgress::Loading(g, chunk) => {
                let mut chunk = chunk;
                self.response.bytes.append(&mut chunk);
                if !self.request.sync {
                    if self.ready_state == ReadyState::HeadersReceived {
                        self.ready_state = ReadyState::Loading;
                    }
                    self.fire(Notification::ReadyStateChange);
                    self.pending.push(Step::Response(g, ProgressKind::Progress));
                }
            },
            XHRProgress::Done(g) => {
                self.cancel_timeout();
                self.request.send_flag = false;
                self.change_ready_state(ReadyState::Done);
                assert(self.actions@ =~= old(self).actions@ + cancel_actions(
                    old(self).request.timeout_scheduled,
                ) + seq![Action::Notify(Notification::ReadyStateChange)]);
                self.pending.push(Step::Response(g, ProgressKind::LoadEnd));
                self.pending.push(Step::Response(g, ProgressKind::Load));
                assert(self.pending@ =~= old(self).pending@ + seq![
                    Step::Response(g, ProgressKind::LoadEnd),
                    Step::Response(g, ProgressKind::Load),
                ]);
            },
            XHRProgress::Errored(g, e) => {
                self.cancel_timeout();
                self.response.errored = true;
                self.request.send_flag = false;
                self.change_ready_state(ReadyState::Done);
                assert(self.actions@ =~= old(self).actions@ + cancel_actions(
                    old(self).request.timeout_scheduled,
                ) + seq![Action::Notify(Notification::ReadyStateChange)]);
                self.pending.push(Step::ErroredTail(g, error_kind(e)));
            },
        }
    }
}

} // verus!

verus! {

/// The generation a step belongs to.
pub open spec fn step_generation(s: Step) -> GenerationId {
    match s {
        Step::Response(g, _) => g,
        Step::Upload(g, _) => g,
        Step::HeadersTail(g, _, _) => g,
        Step::ErroredTail(g, _) => g,
        Step::AbortTail(g) => g,
        Step::SendUpload(g, _) => g,
        Step::SendTail(g, _) => g,
    }
}

impl XMLHttpRequest {
    /// `self` is `pre` after `resume` returned `r`.
    pub open spec fn resumed(&self, pre: &XMLHttpRequest, r: bool) -> bool {
        &&& r == (pre.pending@.len() > 0)
        &&& (!r ==> *self == *pre)
        &&& (r ==> ({
                let step = pre.pending@.last();
                let rest = pre.pending@.drop_last();
                if step_generation(step) != pre.generation_id {
                    &&& self.same_state(pre)
                    &&& self.actions == pre.actions
                    &&& self.pending@ == rest
                } else {
                    match step {
                        Step::Response(g, k) => {
                            &&& self.same_state(pre)
                            &&& self.actions@ == pre.actions@.push(
                                Action::Notify(pre.response_note(k)),
                            )
                            &&& self.pending@ == rest
                        },
                        Step::Upload(g, k) => {
                            &&& self.same_state(pre)
                            &&& self.actions@ == pre.actions@.push(
                                Action::Notify(pre.upload_note(k, None)),
                            )
                            &&& self.pending@ == rest
                        },
                        Step::HeadersTail(g, hs, st) => {
                            let moves = !pre.request.sync && pre.ready_state
                                != ReadyState::HeadersReceived;
                            &&& self.response.status == (match st {
                                Some(s) => s.0,
                                None => pre.response.status,
                            })
                            &&& self.response.status_text == (match st {
                                Some(s) => s.1,
                                None => pre.response.status_text,
                            })
                            &&& self.response.headers == (match hs {
                                Some(h) => h,
                                None => pre.response.headers,
                            })
                            &&& self.response.bytes@ == Seq::<u8>::empty()
                            &&& self.response.reserved == spec_reserve(match hs {
                                Some(h) => spec_content_length(hview(h)),
                                None => None,
                            })
                            &&& self.response.url == pre.response.url
                            &&& self.response.errored == pre.response.errored
                            &&& self.response.sync_status == pre.response.sync_status
                            &&& self.host == pre.host
                            &&& self.request == pre.request
                            &&& self.config == pre.config
                            &&& self.cache == pre.cache
                            &&& self.generation_id == pre.generation_id
                            &&& self.ready_state == (if moves {
                                ReadyState::HeadersReceived
                            } else {
                                pre.ready_state
                            })
                            &&& self.actions@ == (if moves {
                                pre.actions@.push(Action::Notify(Notification::ReadyStateChange))
                            } else {
                                pre.actions@
                            })
                            &&& self.pending@ == rest
                        },
                        Step::ErroredTail(g, k) => {
                            &&& self.host == pre.host
                            &&& self.response == pre.response
                            &&& self.config == pre.config
                            &&& self.cache == pre.cache
                            &&& self.ready_state == pre.ready_state
                            &&& self.generation_id == pre.generation_id
                            &&& if !pre.request.upload_complete {
                                &&& self.request == (RequestState {
                                    upload_complete: true,
                                    ..pre.request
                                })
                                &&& self.actions@ == pre.actions@.push(
                                    Action::Notify(pre.upload_note(k, None)),
                                )
                                &&& self.pending@ == rest + seq![
                                    Step::Response(g, ProgressKind::LoadEnd),
                                    Step::Response(g, k),
                                    Step::Upload(g, ProgressKind::LoadEnd),
                                ]
                            } else {
                                &&& self.request == pre.request
                                &&& self.actions@ == pre.actions@.push(
                                    Action::Notify(pre.response_note(k)),
                                )
                                &&& self.pending@ == rest.push(
                                    Step::Response(g, ProgressKind::LoadEnd),
                                )
                            }
                        },
                        Step::AbortTail(g) => {
                            &&& self.host == pre.host
                            &&& self.request == pre.request
                            &&& self.response == pre.response
                            &&& self.config == pre.config
                            &&& self.cache == pre.cache
                            &&& self.generation_id == pre.generation_id
                            &&& self.ready_state == ReadyState::Unsent
                            &&& self.actions == pre.actions
                            &&& self.pending@ == rest
                        },
                        Step::SendUpload(g, b) => if !pre.request.upload_complete {
                            &&& self.same_state(pre)
                            &&& self.actions@ == pre.actions@.push(
                                Action::Notify(
                                    pre.upload_note(ProgressKind::LoadStart, Some(0)),
                                ),
                            )
                            &&& self.pending@ == rest.push(Step::SendTail(g, b))
                        } else {
                            &&& crate::send::submitted(pre, self, b)
                            &&& self.pending@ == rest
                        },
                        Step::SendTail(g, b) => {
                            &&& crate::send::submitted(pre, self, b)
                            &&& self.pending@ == rest
                        },
                    }
                }
            }))
    }

    /// Runs the next queued step, if there is one, and says whether there was. A step of an
    /// older generation is dropped without effect: an abort or a new `open` in between ended
    /// the sequence it belonged to.
    pub fn resume(&mut self) -> (r: bool)
        ensures
            final(self).resumed(old(self), r),
    {
        if self.pending.len() == 0 {
            return false;
        }
        let step = match self.pending.pop() {
            Some(s) => s,
            None => {
                return false;
            },
        };
        match step {
            Step::Response(g, k) => {
                if g == self.generation_id {
                    let n = self.response_progress(k);
                    self.fire(n);
                }
            },
            Step::Upload(g, k) => {
                if g == self.generation_id {
                    let n = self.upload_progress(k, None);
                    self.fire(n);
                }
            },
            Step::HeadersTail(g, headers, status) => {
                if g == self.generation_id {
                    self.apply_head(headers, status);
                    // observers ran since the head arrived; move only if they left the state
                    if !self.request.sync && self.ready_state != ReadyState::HeadersReceived {
                        self.change_ready_state(ReadyState::HeadersReceived);
                    }
                }
            },
            Step::ErroredTail(g, k) => {
                if g == self.generation_id {
                    if !self.request.upload_complete {
                        self.request.upload_complete = true;
                        let n = self.upload_progress(k, None);
                        self.fire(n);
                        self.pending.push(Step::Response(g, ProgressKind::LoadEnd));
                        self.pending.push(Step::Response(g, k));
                        self.pending.push(Step::Upload(g, ProgressKind::LoadEnd));
                        assert(self.pending@ =~= old(self).pending@.drop_last() + seq![
                            Step::Response(g, ProgressKind::LoadEnd),
                            Step::Response(g, k),
                            Step::Upload(g, ProgressKind::LoadEnd),
                        ]);
                    } else {
                        let n = self.response_progress(k);
                        self.fire(n);
                        self.pending.push(Step::Response(g, ProgressKind::LoadEnd));
                    }
                }
            },
            Step::AbortTail(g) => {
                if g == self.generation_id {
                    self.ready_state = ReadyState::Unsent;
                }
            },
            Step::SendUpload(g, b) => {
                if g == self.generation_id {
                    if !self.request.upload_complete {
                        let n = self.upload_progress(ProgressKind::LoadStart, Some(0));
                        self.fire(n);
                        self.pending.push(Step::SendTail(g, b));
                    } else {
                        self.send_tail(b);
                    }
                }
            },
            Step::SendTail(g, b) => {
                if g == self.generation_id {
                    self.send_tail(b);
                }
            },
        }
        true
    }

    /// Hands over the queued work for the host, oldest first.
    pub fn take_actions(&mut self) -> (r: Vec<Action>)
        ensures
            r@ == old(self).actions@,
            final(self).actions@ == Seq::<Action>::empty(),
            final(self).same_state(old(self)),
            final(self).pending == old(self).pending,
    {
        let mut out: Vec<Action> = Vec::new();
        out.append(&mut self.actions);
        out
    }
}

} // verus!
