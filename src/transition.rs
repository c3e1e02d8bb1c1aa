use vstd::prelude::*;

verus! {

/// A pending change of an entity's observable value.
pub enum Transition<V> {
    /// Apply the value on the next tick, whatever its frame.
    Immediate(V),
    /// Apply the value on the first tick whose frame is at least the given one.
    Scheduled(V, u64),
}

impl<V> Transition<V> {
    /// The value that retiring this transition makes observable.
    pub open spec fn value(self) -> V {
        match self {
            Transition::Immediate(v) => v,
            Transition::Scheduled(v, _) => v,
        }
    }

    /// Whether a tick at `frame` may retire this transition.
    pub open spec fn is_due(self, frame: u64) -> bool {
        match self {
            Transition::Immediate(_) => true,
            Transition::Scheduled(_, target) => frame >= target,
        }
    }

    /// The value that retiring this transition makes observable.
    pub fn into_value(self) -> (r: V)
        ensures
            r == self.value(),
    {
        match self {
            Transition::Immediate(v) => v,
            Transition::Scheduled(v, _) => v,
        }
    }

    /// Whether a tick at `frame` may retire this transition.
    pub fn due_at(&self, frame: u64) -> (r: bool)
        ensures
            r == self.is_due(frame),
    {
        match self {
            Transition::Immediate(_) => true,
            Transition::Scheduled(_, target) => frame >= *target,
        }
    }
}

} // verus!
