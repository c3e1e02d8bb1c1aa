use std::collections::VecDeque;
use vstd::prelude::*;

use crate::transition::Transition;

verus! {

/// The pending transitions of one entity, oldest first.
///
/// Entries are appended at the new end and inspected or removed at the old
/// end; the one entry just removed can be put back where it was. The queue
/// holds values and their order only: whether an entry is due is decided by
/// its owner.
pub struct TransitionQueue<V> {
    entries: VecDeque<Transition<V>>,
}

impl<V> View for TransitionQueue<V> {
    type V = Seq<Transition<V>>;

    /// The entries in scheduling order: index 0 is the oldest.
    closed spec fn view(&self) -> Seq<Transition<V>> {
        self.entries@
    }
}

impl<V> TransitionQueue<V> {
    /// An empty queue.
    pub fn new() -> (q: Self)
        ensures
            q@ == Seq::<Transition<V>>::empty(),
    {
        TransitionQueue { entries: VecDeque::new() }
    }

    /// The number of pending entries.
    pub fn len(&self) -> (n: usize)
        ensures
            n == self@.len(),
    {
        self.entries.len()
    }

    /// Whether no entry is pending.
    pub fn is_empty(&self) -> (r: bool)
        ensures
            r == (self@.len() == 0),
    {
        self.entries.len() == 0
    }

    /// Appends `t` at the new end.
    pub fn push(&mut self, t: Transition<V>)
        ensures
            final(self)@ == old(self)@.push(t),
    {
        self.entries.push_back(t);
    }

    /// The oldest entry, if any, left in place.
    pub fn peek_oldest(&self) -> (r: Option<&Transition<V>>)
        ensures
            self@.len() == 0 ==> r is None,
            self@.len() > 0 ==> r == Some(&self@[0]),
    {
        if self.entries.len() == 0 {
            None
        } else {
            Some(&self.entries[0])
        }
    }

    /// Removes and returns the oldest entry, if any.
    pub fn pop_oldest(&mut self) -> (r: Option<Transition<V>>)
        ensures
            old(self)@.len() == 0 ==> r is None && final(self)@ == old(self)@,
            old(self)@.len() > 0 ==> r == Some(old(self)@[0]) && final(self)@ == old(
                self,
            )@.drop_first(),
    {
        self.entries.pop_front()
    }

    /// Puts `t` back at the old end, ahead of every pending entry.
    pub fn requeue_front(&mut self, t: Transition<V>)
        ensures
            final(self)@ == seq![t] + old(self)@,
    {
        self.entries.push_front(t);
    }
}

} // verus!
