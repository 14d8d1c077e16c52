//! The slot flavor whose occupant is placed behind its own allocation.

use vstd::prelude::*;

use crate::outcome::PollOutcome;
use crate::step::current_step;
use crate::step::fuse_step;
use crate::step::next_step;
use crate::step::select_step;

verus! {

/// A slot holding zero or one computation states behind an allocation of
/// their own.
///
/// The occupant lives in a heap allocation that keeps its address while the
/// slot itself moves freely; this flavor suits occupants that want a stable
/// placement between polls.  The logical contract is identical to
/// [`crate::Stack`]: the two flavors differ only in where the occupant is
/// placed.
///
/// Occupancy is the single source of truth for termination: the slot is
/// empty exactly when there is nothing left to poll, and [`Heap::is_empty`]
/// reports that without side effects.
pub struct Heap<T> {
    value: Option<Box<T>>,
}

impl<T> Heap<T> {
    /// The occupant, if any, as a mathematical option.
    pub closed spec fn occupant(self) -> Option<T> {
        match self.value {
            Some(boxed) => Some(*boxed),
            None => None,
        }
    }

    /// True when the slot holds no computation: the termination flag.
    pub open spec fn spec_is_empty(self) -> bool {
        self.occupant() is None
    }

    /// A slot occupied by `value`.
    pub fn new(value: T) -> (slot: Self)
        ensures
            slot.occupant() == Some(value),
    {
        Heap { value: Some(Box::new(value)) }
    }

    /// An empty slot.
    pub fn empty() -> (slot: Self)
        ensures
            slot.spec_is_empty(),
    {
        Heap { value: None }
    }

    /// Refill the slot: the previous occupant, if any, is replaced and
    /// dropped, never merged.
    pub fn set(&mut self, value: T)
        ensures
            final(self).occupant() == Some(value),
    {
        self.value = Some(Box::new(value));
    }

    /// Empty the slot without polling, dropping any occupant.
    pub fn clear(&mut self)
        ensures
            final(self).spec_is_empty(),
    {
        self.value = None;
    }

    /// Query the termination flag without polling; takes the slot by shared
    /// reference, so it can be repeated freely and never mutates the slot.
    pub fn is_empty(&self) -> (empty: bool)
        ensures
            empty == self.spec_is_empty(),
    {
        self.value.is_none()
    }

    /// Poll the slot as a generic fused container.
    ///
    /// An empty slot suspends indefinitely and `poll` is not invoked on it;
    /// an occupied slot delegates to `poll` and keeps the advanced occupant
    /// whatever the outcome was.  The slot never clears itself here: the
    /// caller separates "done with this occupant" from "a poll completed"
    /// through [`Heap::clear`] and [`Heap::set`].
    pub fn poll_with<O, F: Fn(T) -> (T, PollOutcome<O>)>(&mut self, poll: &F) -> (outcome:
        PollOutcome<O>)
        requires
            old(self).occupant() matches Some(t) ==> call_requires(*poll, (t,)),
        ensures
            old(self).spec_is_empty() ==> *final(self) == *old(self) && outcome is Pending,
            old(self).occupant() matches Some(t) ==> exists|step: (T, PollOutcome<O>)|
                #[trigger] call_ensures(*poll, (t,), step) && fuse_step(
                    step,
                    final(self).occupant(),
                    outcome,
                ),
    {
        let boxed = match self.value.take() {
            Some(boxed) => boxed,
            None => {
                return PollOutcome::Pending;
            },
        };
        let (value, outcome) = poll(*boxed);
        self.value = Some(Box::new(value));
        outcome
    }

    /// Poll the slot as the terminal-completion adapter over a one-shot
    /// computation.
    ///
    /// The slot must be occupied: the termination flag is there to be
    /// checked between cycles, and polling past termination is a contract
    /// violation, not a recoverable condition.  Suspension keeps the
    /// advanced occupant; completion empties the slot and yields the single
    /// output, so the occupant is never polled past its completion.
    pub fn poll_future<O, F: Fn(T) -> (T, PollOutcome<O>)>(&mut self, poll: &F) -> (outcome:
        PollOutcome<O>)
        requires
            !old(self).spec_is_empty(),
            old(self).occupant() matches Some(t) ==> call_requires(*poll, (t,)),
        ensures
            old(self).occupant() matches Some(t) ==> exists|step: (T, PollOutcome<O>)|
                #[trigger] call_ensures(*poll, (t,), step) && current_step(
                    step,
                    final(self).occupant(),
                    outcome,
                ),
            outcome is Pending <==> !final(self).spec_is_empty(),
    {
        let boxed = self.value.take().unwrap();
        let (value, outcome) = poll(*boxed);
        match outcome {
            PollOutcome::Pending => {
                self.value = Some(Box::new(value));
                PollOutcome::Pending
            },
            PollOutcome::Ready(output) => PollOutcome::Ready(output),
        }
    }

    /// Poll the slot as the exhaustion-forwarding adapter over a multi-value
    /// computation.
    ///
    /// The slot must be occupied, as for [`Heap::poll_future`].  An item is
    /// yielded and the slot stays occupied, ready for the next poll;
    /// end-of-sequence empties the slot and is forwarded as the explicit
    /// exhausted marker `Ready(None)`, to be observed and acted on by the
    /// caller; suspension keeps the advanced occupant.
    pub fn poll_next<O, F: Fn(T) -> (T, PollOutcome<Option<O>>)>(&mut self, poll: &F) -> (outcome:
        PollOutcome<Option<O>>)
        requires
            !old(self).spec_is_empty(),
            old(self).occupant() matches Some(t) ==> call_requires(*poll, (t,)),
        ensures
            old(self).occupant() matches Some(t) ==> exists|step: (T, PollOutcome<Option<O>>)|
                #[trigger] call_ensures(*poll, (t,), step) && next_step(
                    step,
                    final(self).occupant(),
                    outcome,
                ),
            final(self).spec_is_empty() <==> outcome is Ready && outcome->Ready_0 is None,
    {
        let boxed = self.value.take().unwrap();
        let (value, outcome) = poll(*boxed);
        match outcome {
            PollOutcome::Pending => {
                self.value = Some(Box::new(value));
                PollOutcome::Pending
            },
            PollOutcome::Ready(Some(item)) => {
                self.value = Some(Box::new(value));
                PollOutcome::Ready(Some(item))
            },
            PollOutcome::Ready(None) => PollOutcome::Ready(None),
        }
    }

    /// Poll the slot as the silent-exhaustion adapter over a multi-value
    /// computation.
    ///
    /// Items behave as under [`Heap::poll_next`], but exhaustion is never
    /// surfaced as a value: end-of-sequence empties the slot, suspends, and
    /// requests a wake-up notification on the adapter's own behalf, since no
    /// occupant remains to request one.  An empty slot — never filled, or
    /// exhausted earlier — likewise suspends and requests a wake-up, so the
    /// branch simply never fires again until the caller refills the slot,
    /// without starving the surrounding selection construct.
    ///
    /// The second component of the result reports whether the adapter itself
    /// requested a wake-up notification for this poll.
    pub fn poll_select_next_some<O, F: Fn(T) -> (T, PollOutcome<Option<O>>)>(
        &mut self,
        poll: &F,
    ) -> (result: (PollOutcome<O>, bool))
        requires
            old(self).occupant() matches Some(t) ==> call_requires(*poll, (t,)),
        ensures
            old(self).spec_is_empty() ==> *final(self) == *old(self) && result.0 is Pending
                && result.1,
            old(self).occupant() matches Some(t) ==> exists|step: (T, PollOutcome<Option<O>>)|
                #[trigger] call_ensures(*poll, (t,), step) && select_step(
                    step,
                    final(self).occupant(),
                    result.0,
                    result.1,
                ),
            final(self).spec_is_empty() ==> result.0 is Pending && result.1,
            result.0 is Ready ==> !final(self).spec_is_empty(),
    {
        let boxed = match self.value.take() {
            Some(boxed) => boxed,
            None => {
                return (PollOutcome::Pending, true);
            },
        };
        let (value, outcome) = poll(*boxed);
        match outcome {
            PollOutcome::Pending => {
                self.value = Some(Box::new(value));
                (PollOutcome::Pending, false)
            },
            PollOutcome::Ready(Some(item)) => {
                self.value = Some(Box::new(value));
                (PollOutcome::Ready(item), false)
            },
            PollOutcome::Ready(None) => (PollOutcome::Pending, true),
        }
    }
}

} // verus!
