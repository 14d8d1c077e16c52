//! A fusing container that bundles a value with its polling function.

use vstd::prelude::*;

use crate::outcome::PollOutcome;
use crate::stack::Stack;
use crate::step::fuse_step;

verus! {

/// Construct a fusing container over `value`, polled through `poll`.
///
/// The container starts occupied.  Polling it never clears it, since a
/// common use is a long-lived, repeatedly ready occupant such as a periodic
/// timer: the caller decides occupancy through [`PollFn::set`] and
/// [`PollFn::clear`].
pub fn poll_fn<T, P, O>(value: T, poll: P) -> (fused: PollFn<T, P, O>) where
    P: Fn(T) -> (T, PollOutcome<O>),

    ensures
        fused.occupant() == Some(value),
        fused.poller() == poll,
{
    PollFn { slot: Stack::new(value), poll }
}

/// A fusing container holding an optional value together with the function
/// that polls it.
///
/// The container follows the generic fused-container rules: polling an empty
/// container suspends indefinitely and never invokes the polling function,
/// polling an occupied one delegates to the polling function and keeps the
/// advanced occupant whatever the outcome was.  See [`poll_fn`].
#[verifier::reject_recursive_types(T)]
#[verifier::reject_recursive_types(O)]
pub struct PollFn<T, P, O> where P: Fn(T) -> (T, PollOutcome<O>) {
    slot: Stack<T>,
    poll: P,
}

impl<T, P, O> PollFn<T, P, O> where P: Fn(T) -> (T, PollOutcome<O>) {
    /// The held value, if any, as a mathematical option.
    pub closed spec fn occupant(self) -> Option<T> {
        self.slot.occupant()
    }

    /// True when the container holds no value: the emptiness flag.
    pub open spec fn spec_is_empty(self) -> bool {
        self.occupant() is None
    }

    /// The polling function the container was built with.
    pub closed spec fn poller(self) -> P {
        self.poll
    }

    /// Replace the held value; the previous value, if any, is dropped.
    pub fn set(&mut self, value: T)
        ensures
            final(self).occupant() == Some(value),
            final(self).poller() == old(self).poller(),
    {
        self.slot.set(value);
    }

    /// Drop the held value, if any, and mark the container empty, without
    /// polling it first.
    pub fn clear(&mut self)
        ensures
            final(self).spec_is_empty(),
            final(self).poller() == old(self).poller(),
    {
        self.slot.clear();
    }

    /// Query emptiness without polling; takes the container by shared
    /// reference, so it can be repeated freely and never mutates anything.
    pub fn is_empty(&self) -> (empty: bool)
        ensures
            empty == self.spec_is_empty(),
    {
        self.slot.is_empty()
    }

    /// Poll the held value through the container's polling function.
    ///
    /// An empty container suspends indefinitely and the polling function is
    /// not invoked; an occupied one delegates and keeps the advanced value,
    /// whatever the outcome was.
    pub fn poll(&mut self) -> (outcome: PollOutcome<O>)
        requires
            old(self).occupant() matches Some(t) ==> call_requires(old(self).poller(), (t,)),
        ensures
            final(self).poller() == old(self).poller(),
            old(self).spec_is_empty() ==> *final(self) == *old(self) && outcome is Pending,
            old(self).occupant() matches Some(t) ==> exists|step: (T, PollOutcome<O>)|
                #[trigger] call_ensures(old(self).poller(), (t,), step) && fuse_step(
                    step,
                    final(self).occupant(),
                    outcome,
                ),
    {
        self.slot.poll_with(&self.poll)
    }
}

} // verus!
