//! The entry points of the fetch service and the timer, and the request's simple attributes.

use vstd::prelude::*;
use crate::outside::now_seconds;
use crate::types::{GenerationId, HeadOutcome, ReadyState, XHRProgress, XhrError};
use crate::xhr::{RequestState, ResponseState, XHRTimeoutCallback, XMLHttpRequest, cancel_actions, Action};

verus! {

/// The milliseconds that passed between `fetch_time` and `now` (both in seconds), kept within
/// the range of `u32`.
pub open spec fn elapsed_ms(fetch_time: i64, now: i64) -> u32 {
    let ms = (now - fetch_time) * 1000;
    if ms < 0 {
        0
    } else if ms > u32::MAX {
        u32::MAX
    } else {
        ms as u32
    }
}

/// What remains of a timeout of `timeout` ms after `elapsed` ms: nothing once it is overdue.
pub open spec fn remaining_ms(timeout: u32, elapsed: u32) -> u32 {
    if timeout > elapsed {
        (timeout - elapsed) as u32
    } else {
        0
    }
}

impl XMLHttpRequest {
    /// A synchronous request in a window.
    pub open spec fn spec_sync_in_window(&self) -> bool {
        self.request.sync && self.host.in_window
    }

    pub fn sync_in_window(&self) -> (r: bool)
        ensures
            r == self.spec_sync_in_window(),
    {
        self.request.sync && self.host.in_window
    }

    /// The head of the response arrived for generation `gen`. An event of another generation
    /// is not delivered. A readable head is processed; a hidden head is a network error that
    /// changes nothing; a network error is processed as such.
    pub fn process_headers_available(&mut self, gen: GenerationId, outcome: HeadOutcome) -> (r: Result<(), XhrError>)
        requires
            gen == old(self).generation_id && !old(self).response.errored ==> match outcome {
                HeadOutcome::Head(_) => old(self).ready_state == ReadyState::Opened,
                HeadOutcome::Opaque => true,
                HeadOutcome::NetworkError => old(self).ready_state != ReadyState::Done,
            },
        ensures
            gen != old(self).generation_id ==> r is Ok && *final(self) == *old(self),
            gen == old(self).generation_id ==> match outcome {
                HeadOutcome::Head(meta) => r is Ok && final(self).processed(
                    &XMLHttpRequest {
                        response: ResponseState { url: meta.final_url, ..old(self).response },
                        ..*old(self)
                    },
                    XHRProgress::HeadersReceived(gen, meta.headers, meta.status),
                ),
                HeadOutcome::Opaque => r == Err::<(), XhrError>(XhrError::Network) && *final(self)
                    == (XMLHttpRequest {
                    response: ResponseState {
                        sync_status: Some(Err(XhrError::Network)),
                        ..old(self).response
                    },
                    ..*old(self)
                }),
                HeadOutcome::NetworkError => r == Err::<(), XhrError>(XhrError::Network)
                    && exists|mid: XMLHttpRequest|
                    mid.processed(old(self), XHRProgress::Errored(gen, XhrError::Network))
                        && *final(self) == (XMLHttpRequest {
                        response: ResponseState {
                            sync_status: Some(Err(XhrError::Network)),
                            ..mid.response
                        },
                        ..mid
                    }),
            },
    {
        if gen != self.generation_id {
            return Ok(());
        }
        match outcome {
            HeadOutcome::Head(meta) => {
                self.response.url = meta.final_url;
                self.process_partial_response(XHRProgress::HeadersReceived(gen, meta.headers, meta.status));
                Ok(())
            },
            HeadOutcome::Opaque => {
                self.response.sync_status = Some(Err(XhrError::Network));
                Err(XhrError::Network)
            },
            HeadOutcome::NetworkError => {
                self.process_partial_response(XHRProgress::Errored(gen, XhrError::Network));
                let ghost mid = *self;
                self.response.sync_status = Some(Err(XhrError::Network));
                Err(XhrError::Network)
            },
        }
    }

    /// A chunk of the body arrived for generation `gen`; one of another generation is not
    /// delivered.
    pub fn process_data_available(&mut self, gen: GenerationId, payload: Vec<u8>)
        ensures
            gen != old(self).generation_id ==> *final(self) == *old(self),
            gen == old(self).generation_id ==> final(self).processed(old(self), XHRProgress::Loading(gen, payload)),
    {
        if gen != self.generation_id {
            return;
        }
        self.process_partial_response(XHRProgress::Loading(gen, payload));
    }

    /// The fetch for generation `gen` ended, well or with a network error; the outcome is also
    /// the result of a synchronous send. An end of another generation is not delivered.
    pub fn process_response_complete(&mut self, gen: GenerationId, status: Result<(), ()>) -> (r: Result<(), XhrError>)
        requires
            gen == old(self).generation_id && !old(self).response.errored ==> match status {
                Ok(_) => old(self).ready_state != ReadyState::Done && (old(self).ready_state
                    == ReadyState::HeadersReceived || old(self).ready_state == ReadyState::Loading
                    || old(self).request.sync),
                Err(_) => old(self).ready_state != ReadyState::Done,
            },
        ensures
            gen != old(self).generation_id ==> r is Ok && *final(self) == *old(self),
            gen == old(self).generation_id ==> r == (match status {
                Ok(_) => Ok::<(), XhrError>(()),
                Err(_) => Err(XhrError::Network),
            }) && exists|mid: XMLHttpRequest|
                mid.processed(
                    old(self),
                    match status {
                        Ok(_) => XHRProgress::Done(gen),
                        Err(_) => XHRProgress::Errored(gen, XhrError::Network),
                    },
                ) && *final(self) == (XMLHttpRequest {
                    response: ResponseState { sync_status: Some(r), ..mid.response },
                    ..mid
                }),
    {
        if gen != self.generation_id {
            return Ok(());
        }
        let rv = match status {
            Ok(()) => {
                self.process_partial_response(XHRProgress::Done(gen));
                Ok(())
            },
            Err(()) => {
                self.process_partial_response(XHRProgress::Errored(gen, XhrError::Network));
                Err(XhrError::Network)
            },
        };
        let ghost mid = *self;
        self.response.sync_status = Some(rv);
        assert(*self == (XMLHttpRequest {
            response: ResponseState { sync_status: Some(rv), ..mid.response },
            ..mid
        }));
        rv
    }

    /// Hands over the outcome of a synchronous send, once it is known.
    pub fn take_sync_status(&mut self) -> (r: Option<Result<(), XhrError>>)
        ensures
            r == old(self).response.sync_status,
            *final(self) == (XMLHttpRequest {
                response: ResponseState { sync_status: None, ..old(self).response },
                ..*old(self)
            }),
    {
        let r = self.response.sync_status;
        self.response.sync_status = None;
        r
    }

    #[allow(non_snake_case)]
    pub fn ReadyState(&self) -> (r: u16)
        ensures
            r == self.ready_state.spec_code(),
    {
        self.ready_state.code()
    }

    #[allow(non_snake_case)]
    pub fn Timeout(&self) -> (r: u32)
        ensures
            r == self.request.timeout,
    {
        self.request.timeout
    }

    /// `self` is `pre` after the timeout attribute was set to `timeout` at clock `now`, with
    /// the result `r`.
    pub open spec fn timeout_set(&self, pre: &XMLHttpRequest, timeout: u32, now: i64, r: Result<(), XhrError>) -> bool {
        &&& (self.request.timeout == timeout)
        &&& (self.host == pre.host)
        &&& (self.response == pre.response)
        &&& (self.config == pre.config)
        &&& (self.cache == pre.cache)
        &&& (self.ready_state == pre.ready_state)
        &&& (self.generation_id == pre.generation_id)
        &&& (self.pending == pre.pending)
        &&& (pre.spec_sync_in_window() || !pre.request.send_flag ==> self.request
            == (RequestState { timeout, ..pre.request }) && self.actions
            == pre.actions)
        &&& (r == if pre.spec_sync_in_window() {
            Err::<(), XhrError>(XhrError::InvalidAccess)
        } else {
            Ok(())
        })
        &&& (!pre.spec_sync_in_window() && pre.request.send_flag ==> if timeout == 0 {
            &&& self.request == (RequestState {
                timeout,
                timeout_scheduled: false,
                ..pre.request
            })
            &&& self.actions@ == pre.actions@ + cancel_actions(
                pre.request.timeout_scheduled,
            )
        } else {
            &&& self.request == (RequestState {
                timeout,
                timeout_scheduled: true,
                ..pre.request
            })
            &&& self.actions@ == pre.actions@ + cancel_actions(
                pre.request.timeout_scheduled,
            ) + seq![
                Action::ScheduleTimeout(
                    XHRTimeoutCallback { generation_id: pre.generation_id },
                    remaining_ms(timeout, elapsed_ms(pre.request.fetch_time, now)),
                ),
            ]
        })
    }

    /// The timeout attribute at clock `now` (seconds): the value is stored; where a send is
    /// under way, the live timeout is cancelled (0) or rescheduled for what remains of it since
    /// the request was submitted, at once if that is overdue. A synchronous request in a window
    /// refuses it with `InvalidAccess`, the value stored all the same.
    pub fn set_timeout_at(&mut self, timeout: u32, now: i64) -> (r: Result<(), XhrError>)
        ensures
            final(self).timeout_set(old(self), timeout, now, r),
    {
        self.request.timeout = timeout;
        if self.sync_in_window() {
            return Err(XhrError::InvalidAccess);
        }
        if self.request.send_flag {
            if timeout == 0 {
                self.cancel_timeout();
                return Ok(());
            }
            let ms: i128 = (now as i128 - self.request.fetch_time as i128) * 1000;
            let elapsed: u32 = if ms < 0 {
                0
            } else if ms > u32::MAX as i128 {
                u32::MAX
            } else {
                ms as u32
            };
            if timeout > elapsed {
                self.set_timeout(timeout - elapsed);
            } else {
                // already overdue: time out at once
                self.set_timeout(0);
            }
        }
        Ok(())
    }

    /// The timeout attribute, at the current clock: as `set_timeout_at` for some clock value.
    #[allow(non_snake_case)]
    pub fn SetTimeout(&mut self, timeout: u32) -> (r: Result<(), XhrError>)
        ensures
            exists|now: i64| final(self).timeout_set(old(self), timeout, now, r),
    {
        let now = now_seconds();
        self.set_timeout_at(timeout, now)
    }

    #[allow(non_snake_case)]
    pub fn WithCredentials(&self) -> (r: bool)
        ensures
            r == self.request.with_credentials,
    {
        self.request.with_credentials
    }

    /// The credentials attribute: refused once the response head arrived or while sending.
    #[allow(non_snake_case)]
    pub fn SetWithCredentials(&mut self, with_credentials: bool) -> (r: Result<(), XhrError>)
        ensures
            (old(self).ready_state == ReadyState::HeadersReceived || old(self).ready_state
                == ReadyState::Loading || old(self).ready_state == ReadyState::Done
                || old(self).request.send_flag) ==> r == Err::<(), XhrError>(XhrError::InvalidState)
                && *final(self) == *old(self),
            !(old(self).ready_state == ReadyState::HeadersReceived || old(self).ready_state
                == ReadyState::Loading || old(self).ready_state == ReadyState::Done
                || old(self).request.send_flag) ==> r is Ok && *final(self) == (XMLHttpRequest {
                request: RequestState { with_credentials, ..old(self).request },
                ..*old(self)
            }),
    {
        match self.ready_state {
            ReadyState::HeadersReceived | ReadyState::Loading | ReadyState::Done => Err(XhrError::InvalidState),
            _ => {
                if self.request.send_flag {
                    Err(XhrError::InvalidState)
                } else {
                    self.request.with_credentials = with_credentials;
                    Ok(())
                }
            },
        }
    }

    #[allow(non_snake_case)]
    pub fn Status(&self) -> (r: u16)
        ensures
            r == self.response.status,
    {
        self.response.status
    }

    #[allow(non_snake_case)]
    pub fn StatusText(&self) -> (r: Vec<u8>)
        ensures
            r@ == self.response.status_text@,
    {
        crate::types::copy_bytes(self.response.status_text.as_slice())
    }

    #[allow(non_snake_case)]
    pub fn ResponseURL(&self) -> (r: String)
        ensures
            r == self.response.url,
    {
        self.response.url.clone()
    }
}

impl XHRTimeoutCallback {
    /// The timeout fired: unless the request is done, its generation fails with `Timeout`.
    pub fn invoke(self, xhr: &mut XMLHttpRequest)
        ensures
            old(xhr).ready_state == ReadyState::Done ==> *final(xhr) == *old(xhr),
            old(xhr).ready_state != ReadyState::Done ==> final(xhr).processed(
                old(xhr),
                XHRProgress::Errored(self.generation_id, XhrError::Timeout),
            ),
    {
        if xhr.ready_state != ReadyState::Done {
            xhr.process_partial_response(XHRProgress::Errored(self.generation_id, XhrError::Timeout));
        }
    }
}

} // verus!
