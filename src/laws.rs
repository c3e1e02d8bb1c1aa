//! Properties of the scheduler, stated over [`BodyState`], the model that the
//! operations of [`crate::Body`] are specified against.
use vstd::prelude::*;

use crate::body::BodyState;
use crate::transition::Transition;

verus! {

/// A state whose head is not due at any frame of `frames` is left unchanged
/// by ticking through them.
pub proof fn lemma_blocked_head_holds<V>(s: BodyState<V>, frames: Seq<u64>)
    requires
        s.pending.len() > 0,
        forall|i: int| 0 <= i < frames.len() ==> !s.pending[0].is_due(#[trigger] frames[i]),
    ensures
        s.ticked_through(frames) == s,
    decreases frames.len(),
{
    if frames.len() > 0 {
        lemma_blocked_head_holds(s, frames.drop_last());
    }
}

/// Ticking an idle state, at any frames and any number of times, changes
/// nothing.
pub proof fn lemma_idle_tick_idempotent<V>(s: BodyState<V>, frames: Seq<u64>)
    requires
        s.is_idle(),
    ensures
        s.ticked_through(frames) == s,
    decreases frames.len(),
{
    if frames.len() > 0 {
        lemma_idle_tick_idempotent(s, frames.drop_last());
    }
}

/// From an idle state, `schedule_now(v)` followed by one tick at any frame
/// shows `v` and leaves the state idle.
pub proof fn lemma_immediate_retirement<V>(s: BodyState<V>, v: V, frame: u64)
    requires
        s.is_idle(),
    ensures
        s.scheduled(Transition::Immediate(v)).ticked(frame).value == v,
        s.scheduled(Transition::Immediate(v)).ticked(frame).is_idle(),
{
}

/// From an idle state, `schedule_at(v, target)` followed by a tick at an
/// earlier frame keeps the value and the entry; a later tick at `target`
/// still retires it.
pub proof fn lemma_future_gating<V>(s: BodyState<V>, v: V, target: u64, frame: u64)
    requires
        s.is_idle(),
        frame < target,
    ensures
        s.scheduled(Transition::Scheduled(v, target)).ticked(frame).value == s.value,
        s.scheduled(Transition::Scheduled(v, target)).ticked(frame).pending == seq![
            Transition::Scheduled(v, target),
        ],
        s.scheduled(Transition::Scheduled(v, target)).ticked(frame).ticked(target).value == v,
        s.scheduled(Transition::Scheduled(v, target)).ticked(frame).ticked(target).is_idle(),
{
    let p = s.scheduled(Transition::Scheduled(v, target));
    assert(p.pending =~= seq![Transition::Scheduled(v, target)]);
}

/// From an idle state, `schedule_at(v, target)` followed by ticks at any
/// frames before `target` and then one tick at any frame at or after it
/// shows `v`: however many frames were skipped, the entry is not lost.
pub proof fn lemma_eventual_retirement<V>(
    s: BodyState<V>,
    v: V,
    target: u64,
    early: Seq<u64>,
    late: u64,
)
    requires
        s.is_idle(),
        forall|i: int| 0 <= i < early.len() ==> #[trigger] early[i] < target,
        late >= target,
    ensures
        s.scheduled(Transition::Scheduled(v, target)).ticked_through(early).value == s.value,
        s.scheduled(Transition::Scheduled(v, target)).ticked_through(early).ticked(late).value
            == v,
        s.scheduled(Transition::Scheduled(v, target)).ticked_through(early).ticked(
            late,
        ).is_idle(),
{
    let p = s.scheduled(Transition::Scheduled(v, target));
    assert(p.pending =~= seq![Transition::Scheduled(v, target)]);
    lemma_blocked_head_holds(p, early);
}

/// From an idle state, `schedule_at(v1, target)` then `schedule_now(v2)`:
/// ticks before `target` change nothing, since the head is examined first
/// and put back; a tick at or after `target` shows `v1`; only the tick after
/// that shows `v2`.
pub proof fn lemma_fifo_across_requeue<V>(
    s: BodyState<V>,
    v1: V,
    target: u64,
    v2: V,
    early: Seq<u64>,
    late: u64,
    next: u64,
)
    requires
        s.is_idle(),
        forall|i: int| 0 <= i < early.len() ==> #[trigger] early[i] < target,
        late >= target,
    ensures
        ({
            let queued = s.scheduled(Transition::Scheduled(v1, target)).scheduled(
                Transition::Immediate(v2),
            );
            let waited = queued.ticked_through(early);
            &&& waited == queued
            &&& waited.value == s.value
            &&& waited.pending == seq![Transition::Scheduled(v1, target), Transition::Immediate(v2)]
            &&& waited.ticked(late).value == v1
            &&& waited.ticked(late).pending == seq![Transition::Immediate(v2)]
            &&& waited.ticked(late).ticked(next).value == v2
            &&& waited.ticked(late).ticked(next).is_idle()
        }),
{
    let queued = s.scheduled(Transition::Scheduled(v1, target)).scheduled(
        Transition::Immediate(v2),
    );
    assert(queued.pending =~= seq![
        Transition::Scheduled(v1, target),
        Transition::Immediate(v2),
    ]);
    lemma_blocked_head_holds(queued, early);
    assert(queued.ticked(late).pending =~= seq![Transition::Immediate(v2)]);
}

/// The pending queue after `schedule_now` of each value of `values`: the old
/// entries, then one immediate entry per value, in order.
pub proof fn lemma_scheduled_all_now_pending<V>(s: BodyState<V>, values: Seq<V>)
    ensures
        s.scheduled_all_now(values).value == s.value,
        s.scheduled_all_now(values).pending.len() == s.pending.len() + values.len(),
        s.scheduled_all_now(values).pending.subrange(0, s.pending.len() as int) == s.pending,
        forall|i: int|
            0 <= i < values.len() ==> s.scheduled_all_now(values).pending[s.pending.len() + i]
                == Transition::Immediate(#[trigger] values[i]),
    decreases values.len(),
{
    if values.len() > 0 {
        let rest = values.drop_last();
        lemma_scheduled_all_now_pending(s, rest);
        let before = s.scheduled_all_now(rest);
        assert(before.pending.push(Transition::Immediate(values.last())).subrange(
            0,
            s.pending.len() as int,
        ) =~= before.pending.subrange(0, s.pending.len() as int));
        assert forall|i: int| 0 <= i < values.len() implies s.scheduled_all_now(values).pending[s.pending.len() + i]
            == Transition::Immediate(#[trigger] values[i]) by {
            if i < rest.len() {
                assert(rest[i] == values[i]);
            }
        }
    }
}

/// Ticking through `frames` a state whose pending entries are all immediate,
/// with at least as many of them as frames, retires exactly one per tick.
proof fn lemma_immediates_drain<V>(s: BodyState<V>, values: Seq<V>, frames: Seq<u64>)
    requires
        s.pending.len() == values.len(),
        forall|i: int| 0 <= i < values.len() ==> s.pending[i] == Transition::Immediate(#[trigger] values[i]),
        frames.len() <= values.len(),
    ensures
        s.ticked_through(frames).pending == s.pending.subrange(frames.len() as int, s.pending.len() as int),
        frames.len() == 0 ==> s.ticked_through(frames).value == s.value,
        frames.len() > 0 ==> s.ticked_through(frames).value == values[frames.len() - 1],
    decreases frames.len(),
{
    if frames.len() > 0 {
        let k = frames.len() - 1;
        lemma_immediates_drain(s, values, frames.drop_last());
        let mid = s.ticked_through(frames.drop_last());
        assert(mid.pending[0] == s.pending[k]);
        assert(s.pending[k] == Transition::Immediate(values[k]));
        assert(s.ticked_through(frames) == mid.ticked(frames.last()));
        assert(mid.pending.drop_first() =~= s.pending.subrange(k + 1, s.pending.len() as int));
    } else {
        assert(s.pending.subrange(0, s.pending.len() as int) =~= s.pending);
    }
}

/// From an idle state, after `schedule_now` of each value of `values`, `k`
/// ticks at any frames, with `0 < k <= values.len()`, show the `k`-th value
/// (not the last) and leave the rest pending: one retirement per tick.
pub proof fn lemma_one_retirement_per_tick<V>(s: BodyState<V>, values: Seq<V>, frames: Seq<u64>)
    requires
        s.is_idle(),
        0 < frames.len() <= values.len(),
    ensures
        s.scheduled_all_now(values).ticked_through(frames).value == values[frames.len() - 1],
        s.scheduled_all_now(values).ticked_through(frames).pending.len() == values.len()
            - frames.len(),
{
    lemma_scheduled_all_now_pending(s, values);
    lemma_immediates_drain(s.scheduled_all_now(values), values, frames);
}

} // verus!
