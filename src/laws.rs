//! Properties that hold across calls, proved from the operations' contracts.

use vstd::prelude::*;
use crate::headers::{combined, comma_space, first_index};
use crate::request::send_body;
use crate::types::{BodyInit, ReadyState, XHRProgress};
use crate::xhr::{Action, MAX_RESERVE, XMLHttpRequest, spec_reserve, step_generation};

verus! {

/// Each successful `open` begins exactly one new generation: after a run of `n` opens the
/// generation has advanced by `n`. `states[i + 1]` is `states[i]` after an `open` with the
/// arguments `calls[i]` (method, URL, async flag, user, password), made while the generation
/// could still advance.
pub proof fn lemma_opens_advance_generation(
    states: Seq<XMLHttpRequest>,
    calls: Seq<(Seq<u8>, Seq<char>, bool, Option<Seq<char>>, Option<Seq<char>>)>,
)
    requires
        states.len() == calls.len() + 1,
        forall|i: int| 0 <= i < calls.len() ==> (#[trigger] states[i]).generation_id.0 < u64::MAX,
        forall|i: int|
            0 <= i < calls.len() ==> #[trigger] states[i + 1].opened(
                &states[i],
                calls[i].0,
                calls[i].1,
                calls[i].2,
                calls[i].3,
                calls[i].4,
            ),
    ensures
        states.last().generation_id.0 == states[0].generation_id.0 + calls.len(),
    decreases calls.len(),
{
    if calls.len() > 0 {
        let n = calls.len() - 1;
        let s2 = states.drop_last();
        let c2 = calls.drop_last();
        assert forall|i: int| 0 <= i < c2.len() implies (#[trigger] s2[i]).generation_id.0 < u64::MAX by {
            assert(s2[i] == states[i]);
        }
        assert forall|i: int| 0 <= i < c2.len() implies #[trigger] s2[i + 1].opened(
            &s2[i],
            c2[i].0,
            c2[i].1,
            c2[i].2,
            c2[i].3,
            c2[i].4,
        ) by {
            assert(s2[i] == states[i]);
            assert(s2[i + 1] == states[i + 1]);
            assert(c2[i] == calls[i]);
        }
        lemma_opens_advance_generation(s2, c2);
        assert(states.drop_last()[n] == states[n]);
        assert(states[n + 1].opened(&states[n], calls[n].0, calls[n].1, calls[n].2, calls[n].3, calls[n].4));
    }
}

/// An event of a generation other than the current one is never observed: processing it
/// changes no state and queues no notification.
pub proof fn lemma_stale_event_unobserved(pre: XMLHttpRequest, post: XMLHttpRequest, progress: XHRProgress)
    requires
        post.processed(&pre, progress),
        progress.spec_generation_id() != pre.generation_id,
    ensures
        post == pre,
        post.actions@ == pre.actions@,
{
}

/// A queued step of a generation other than the current one is never observed either: running
/// it only drops it, with no change of state and no notification.
pub proof fn lemma_stale_step_unobserved(pre: XMLHttpRequest, post: XMLHttpRequest, r: bool)
    requires
        post.resumed(&pre, r),
        pre.pending@.len() > 0,
        step_generation(pre.pending@.last()) != pre.generation_id,
    ensures
        post.same_state(&pre),
        post.actions == pre.actions,
        post.pending@ == pre.pending@.drop_last(),
{
}

/// `abort()` in state `Unsent` notifies nobody and stays `Unsent`: it only cancels the fetch.
pub proof fn lemma_abort_unsent_is_silent(pre: XMLHttpRequest, post: XMLHttpRequest)
    requires
        post.aborted(&pre),
        pre.ready_state == ReadyState::Unsent,
    ensures
        post.ready_state == ReadyState::Unsent,
        post.actions@ == pre.actions@.push(Action::CancelFetch),
        forall|i: int| pre.actions@.len() <= i < post.actions@.len() ==> !(#[trigger] post.actions@[i] is Notify),
        post.pending == pre.pending,
{
    assert forall|i: int| pre.actions@.len() <= i < post.actions@.len() implies !(#[trigger] post.actions@[i] is Notify) by {
        assert(i == pre.actions@.len());
    }
}

/// Repeating `abort()` from `Unsent` stays silent: both calls leave `Unsent` and only cancel
/// the fetch.
pub proof fn lemma_abort_unsent_twice(a: XMLHttpRequest, b: XMLHttpRequest, c: XMLHttpRequest)
    requires
        b.aborted(&a),
        c.aborted(&b),
        a.ready_state == ReadyState::Unsent,
    ensures
        b.ready_state == ReadyState::Unsent,
        c.ready_state == ReadyState::Unsent,
        c.actions@ == a.actions@.push(Action::CancelFetch).push(Action::CancelFetch),
        c.pending == a.pending,
{
    lemma_abort_unsent_is_silent(a, b);
    lemma_abort_unsent_is_silent(b, c);
}

/// Setting a header twice combines the two values: `a` then `b` for a name not yet set gives
/// one header whose value is `a, b`.
pub proof fn lemma_header_set_twice(hs: Seq<(Seq<u8>, Seq<u8>)>, name: Seq<u8>, a: Seq<u8>, b: Seq<u8>)
    requires
        first_index(hs, name) == -1,
    ensures
        combined(combined(hs, name, a), name, b) == hs.push((name, a + comma_space() + b)),
{
    let once = hs.push((name, a));
    assert(once.drop_last() =~= hs);
    assert(first_index(once, name) == hs.len());
}

/// A send whose body has no bytes marks the upload complete at once, before the request is
/// handed to the network: an asynchronous send has then only notified that loading starts.
pub proof fn lemma_empty_body_completes_upload(pre: XMLHttpRequest, post: XMLHttpRequest, data: Option<BodyInit>, r: Result<(), crate::types::XhrError>)
    requires
        post.sent(&pre, data, r),
        pre.ready_state == ReadyState::Opened,
        !pre.request.send_flag,
        match send_body(pre.request.method@, data) {
            Some(b) => b.0.len() == 0,
            None => false,
        },
    ensures
        post.request.upload_complete,
        !pre.request.sync ==> post.actions@.len() == pre.actions@.len() + 1 && post.actions@.last() is Notify,
{
}

/// However long the declared content length, at most `MAX_RESERVE` bytes are reserved ahead;
/// a declared length of at least that reserves exactly `MAX_RESERVE`.
pub proof fn lemma_reserve_is_bounded(len: Option<u64>)
    ensures
        spec_reserve(len) <= MAX_RESERVE,
        len is Some && len->0 >= MAX_RESERVE as u64 ==> spec_reserve(len) == MAX_RESERVE,
        len is Some && len->0 < MAX_RESERVE as u64 ==> spec_reserve(len) == len->0 as usize,
{
}

} // verus!
