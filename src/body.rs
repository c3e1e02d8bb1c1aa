use vstd::prelude::*;

use crate::queue::TransitionQueue;
use crate::transition::Transition;

verus! {

/// The abstract state of a [`Body`]: what it shows and what it still owes.
pub ghost struct BodyState<V> {
    /// The value of the most recently retired transition, or the initial value.
    pub value: V,
    /// The pending transitions, oldest first.
    pub pending: Seq<Transition<V>>,
}

impl<V> BodyState<V> {
    /// No transition is pending.
    pub open spec fn is_idle(self) -> bool {
        self.pending.len() == 0
    }

    /// The state after `t` is appended to the pending queue.
    pub open spec fn scheduled(self, t: Transition<V>) -> BodyState<V> {
        BodyState { value: self.value, pending: self.pending.push(t) }
    }

    /// The state after one tick at `frame`: the oldest pending transition is
    /// retired when it is due, and nothing changes otherwise.
    pub open spec fn ticked(self, frame: u64) -> BodyState<V> {
        if self.pending.len() > 0 && self.pending[0].is_due(frame) {
            BodyState { value: self.pending[0].value(), pending: self.pending.drop_first() }
        } else {
            self
        }
    }

    /// The state after one tick at each frame of `frames`, in order.
    pub open spec fn ticked_through(self, frames: Seq<u64>) -> BodyState<V>
        decreases frames.len(),
    {
        if frames.len() == 0 {
            self
        } else {
            self.ticked_through(frames.drop_last()).ticked(frames.last())
        }
    }

    /// The state after `schedule_now` of each value of `values`, in order.
    pub open spec fn scheduled_all_now(self, values: Seq<V>) -> BodyState<V>
        decreases values.len(),
    {
        if values.len() == 0 {
            self
        } else {
            self.scheduled_all_now(values.drop_last()).scheduled(
                Transition::Immediate(values.last()),
            )
        }
    }
}

/// An entity whose observable value changes through a queue of deferred
/// transitions, at most one per tick.
pub struct Body<V> {
    value: V,
    pending: TransitionQueue<V>,
}

impl<V> View for Body<V> {
    type V = BodyState<V>;

    closed spec fn view(&self) -> BodyState<V> {
        BodyState { value: self.value, pending: self.pending@ }
    }
}

impl<V> Body<V> {
    /// An idle body that shows `initial`.
    pub fn new(initial: V) -> (b: Self)
        ensures
            b@.value == initial,
            b@.is_idle(),
    {
        Body { value: initial, pending: TransitionQueue::new() }
    }

    /// The value retired most recently, or the initial one.
    pub fn observable_value(&self) -> (r: &V)
        ensures
            *r == self@.value,
    {
        &self.value
    }

    /// The pending transitions, oldest first.
    pub fn pending(&self) -> (r: &TransitionQueue<V>)
        ensures
            r@ == self@.pending,
    {
        &self.pending
    }

    /// Whether no transition is pending.
    pub fn is_idle(&self) -> (r: bool)
        ensures
            r == self@.is_idle(),
    {
        self.pending.is_empty()
    }

    /// Queues `value` to be shown on the next tick that reaches it.
    pub fn schedule_now(&mut self, value: V)
        ensures
            final(self)@ == old(self)@.scheduled(Transition::Immediate(value)),
    {
        self.pending.push(Transition::Immediate(value));
    }

    /// Queues `value` to be shown once a tick at `target_frame` or later
    /// reaches it. A frame already past is accepted: the entry is then due
    /// as soon as it is the oldest.
    pub fn schedule_at(&mut self, value: V, target_frame: u64)
        ensures
            final(self)@ == old(self)@.scheduled(Transition::Scheduled(value, target_frame)),
    {
        self.pending.push(Transition::Scheduled(value, target_frame));
    }

    /// Runs one step at `current_frame`: the oldest pending transition, and no
    /// other, is retired if it is due; one that is not due stays at the head.
    ///
    /// Due-ness is judged against `current_frame` alone, so any frame is
    /// accepted; a driver that lets frames go backwards sees fewer entries due.
    pub fn tick(&mut self, current_frame: u64)
        ensures
            final(self)@ == old(self)@.ticked(current_frame),
    {
        if let Some(head) = self.pending.pop_oldest() {
            if head.due_at(current_frame) {
                self.value = head.into_value();
            } else {
                self.pending.requeue_front(head);
                assert(self.pending@ =~= old(self).pending@);
            }
        }
    }
}

} // verus!
