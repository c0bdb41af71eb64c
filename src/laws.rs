use vstd::prelude::*;

use crate::config::{error_code_of, flattened, ProtocolError};
use crate::measurement::Measurement;
use crate::status::{fresh_reading, is_fresh, observe, retained, first_status, InboundMessage, STALE_AFTER_MS};
use crate::surface::{error_info_of, ErrorInfo, ErrorLayer};

verus! {

/// One status poll of a simulated backend: the frames queued before it, and the
/// instant (in milliseconds) at which it runs.
pub type Poll = (Seq<InboundMessage>, u64);

/// The cache of a client that started empty and ran `polls` in order.
pub open spec fn cache_after(polls: Seq<Poll>) -> Option<(u64, Measurement)>
    decreases polls.len(),
{
    if polls.len() == 0 {
        None
    } else {
        let p = polls.last();
        retained(observe(cache_after(polls.drop_last()), p.0, p.1), p.1)
    }
}

/// What the last of `polls` returns, on a client that started empty.
pub open spec fn last_reading(polls: Seq<Poll>) -> Option<Measurement>
    recommends
        polls.len() > 0,
{
    let p = polls.last();
    fresh_reading(observe(cache_after(polls.drop_last()), p.0, p.1), p.1)
}

/// The most recently observed status frame over `polls`, stamped with the
/// instant of the poll that saw it.
pub open spec fn latest_status(polls: Seq<Poll>) -> Option<(u64, Measurement)>
    decreases polls.len(),
{
    if polls.len() == 0 {
        None
    } else {
        let p = polls.last();
        match first_status(p.0) {
            Some(m) => Some((p.1, m)),
            None => latest_status(polls.drop_last()),
        }
    }
}

/// The polls run at instants that never go backwards.
pub open spec fn times_ordered(polls: Seq<Poll>) -> bool {
    forall|i: int, j: int| 0 <= i < j < polls.len() ==> polls[i].1 <= polls[j].1
}

proof fn lemma_retained_twice(l: Option<(u64, Measurement)>, t1: u64, t2: u64)
    requires
        t1 <= t2,
    ensures
        retained(retained(l, t1), t2) == retained(l, t2),
        fresh_reading(retained(l, t1), t2) == fresh_reading(l, t2),
{
}

proof fn lemma_cache_is_latest_retained(polls: Seq<Poll>)
    requires
        polls.len() > 0,
        times_ordered(polls),
    ensures
        cache_after(polls) == retained(latest_status(polls), polls.last().1),
    decreases polls.len(),
{
    let p = polls.last();
    let prev = polls.drop_last();
    if prev.len() > 0 {
        assert(times_ordered(prev)) by {
            assert forall|i: int, j: int| 0 <= i < j < prev.len() implies prev[i].1 <= prev[j].1 by {
                assert(prev[i] == polls[i] && prev[j] == polls[j]);
            }
        }
        lemma_cache_is_latest_retained(prev);
        assert(prev.last() == polls[polls.len() - 2]);
        assert(prev.last().1 <= p.1);
        lemma_retained_twice(latest_status(prev), prev.last().1, p.1);
    }
    assert(cache_after(polls) == retained(observe(cache_after(prev), p.0, p.1), p.1));
    assert(latest_status(polls) == match first_status(p.0) {
        Some(m) => Some((p.1, m)),
        None => latest_status(prev),
    });
}

/// A backend fed any sequence of frames, polled at instants that never go
/// backwards, returns at each poll the measurement of the most recently observed
/// status frame when that frame is within the staleness window of the poll,
/// and nothing otherwise.
pub proof fn lemma_poll_returns_latest_fresh(polls: Seq<Poll>)
    requires
        polls.len() > 0,
        times_ordered(polls),
    ensures
        last_reading(polls) == fresh_reading(latest_status(polls), polls.last().1),
{
    let p = polls.last();
    let prev = polls.drop_last();
    if prev.len() > 0 {
        assert(times_ordered(prev)) by {
            assert forall|i: int, j: int| 0 <= i < j < prev.len() implies prev[i].1 <= prev[j].1 by {
                assert(prev[i] == polls[i] && prev[j] == polls[j]);
            }
        }
        lemma_cache_is_latest_retained(prev);
        assert(prev.last() == polls[polls.len() - 2]);
        assert(prev.last().1 <= p.1);
        lemma_retained_twice(latest_status(prev), prev.last().1, p.1);
    }
    assert(latest_status(polls) == match first_status(p.0) {
        Some(m) => Some((p.1, m)),
        None => latest_status(prev),
    });
}

/// Polling twice with no new frames in between, while the cached frame does not
/// cross the staleness threshold, returns the same measurement both times.
pub proof fn lemma_get_measurement_idempotent(
    c: Option<(u64, Measurement)>,
    frames: Seq<InboundMessage>,
    now1: u64,
    now2: u64,
)
    requires
        now1 <= now2,
        forall|t: u64, m: Measurement|
            observe(c, frames, now1) == Some((t, m)) ==> (is_fresh(t, now1) == is_fresh(t, now2)),
    ensures
        ({
            let c1 = retained(observe(c, frames, now1), now1);
            fresh_reading(observe(c1, Seq::empty(), now2), now2) == fresh_reading(observe(c, frames, now1), now1)
        }),
{
    let c1 = retained(observe(c, frames, now1), now1);
    assert(!(exists|k: int| crate::status::is_first_status(Seq::<InboundMessage>::empty(), k)));
    assert(observe(c1, Seq::empty(), now2) == c1);
}

/// The staleness window is open at the threshold: a frame whose age is exactly
/// the threshold is no longer handed out, while one a millisecond younger is.
pub proof fn lemma_staleness_boundary(t: u64, m: Measurement)
    requires
        t + STALE_AFTER_MS <= u64::MAX,
    ensures
        fresh_reading(Some((t, m)), (t + STALE_AFTER_MS - 1) as u64) == Some(m),
        fresh_reading(Some((t, m)), (t + STALE_AFTER_MS) as u64) is None,
{
}

/// A transport failure of any configuration call reaches both host surfaces as
/// a transport-layer failure: the C surface's tag says so, and the Java surface
/// throws with the same classification.
pub proof fn lemma_transport_failure_classified(e: ProtocolError)
    ensures
        flattened(Err(e)) is Err,
        error_info_of(flattened(Err(e))->Err_0) == (ErrorInfo {
            layer: ErrorLayer::Transport,
            code: error_code_of(e.kind),
        }),
{
}

/// A rejection by the device reaches both host surfaces as a device-layer
/// failure, never as a transport one, whatever its class.
pub proof fn lemma_device_rejection_classified(e: ProtocolError, t: ProtocolError)
    ensures
        flattened(Ok(Err(e))) is Err,
        error_info_of(flattened(Ok(Err(e)))->Err_0) == (ErrorInfo {
            layer: ErrorLayer::Device,
            code: error_code_of(e.kind),
        }),
        error_info_of(flattened(Ok(Err(e)))->Err_0) != error_info_of(flattened(Err(t))->Err_0),
{
}

} // verus!
