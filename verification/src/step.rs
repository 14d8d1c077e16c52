//! Transition relations for one poll of an occupied slot.
//!
//! Each relation connects one advance of the occupant by its polling function
//! to the slot's occupancy after the poll and to the outcome the adapter
//! reports.  An advance is a pair `step`: the occupant's new state together
//! with the outcome the polling function reported for it.  The relations are
//! what the polling operations of [`crate::Stack`] and [`crate::Heap`]
//! promise, and what the laws in [`crate::laws`] are proved from.

use vstd::prelude::*;

use crate::outcome::PollOutcome;

verus! {

/// One poll of the generic fused container.
///
/// The outcome is forwarded unchanged and the advanced occupant stays in the
/// slot whatever the outcome was: the container never clears itself, the
/// caller decides occupancy through its refill and clear operations.
pub open spec fn fuse_step<T, O>(
    step: (T, PollOutcome<O>),
    post: Option<T>,
    outcome: PollOutcome<O>,
) -> bool {
    post == Some(step.0) && outcome == step.1
}

/// One poll of the terminal-completion adapter over a one-shot computation.
///
/// Suspension passes through and keeps the advanced occupant; completion
/// empties the slot and yields the single output, so the occupant can never
/// be polled past its completion.
pub open spec fn current_step<T, O>(
    step: (T, PollOutcome<O>),
    post: Option<T>,
    outcome: PollOutcome<O>,
) -> bool {
    match step.1 {
        PollOutcome::Pending => post == Some(step.0) && outcome is Pending,
        PollOutcome::Ready(output) => post is None && outcome == PollOutcome::<O>::Ready(output),
    }
}

/// One poll of the exhaustion-forwarding adapter over a multi-value
/// computation.
///
/// An item passes through and keeps the slot occupied, ready for the next
/// poll; end-of-sequence empties the slot and is forwarded as the explicit
/// exhausted marker `Ready(None)`; suspension passes through.
pub open spec fn next_step<T, O>(
    step: (T, PollOutcome<Option<O>>),
    post: Option<T>,
    outcome: PollOutcome<Option<O>>,
) -> bool {
    match step.1 {
        PollOutcome::Pending => post == Some(step.0) && outcome is Pending,
        PollOutcome::Ready(Some(item)) => post == Some(step.0) && outcome
            == PollOutcome::<Option<O>>::Ready(Some(item)),
        PollOutcome::Ready(None) => post is None && outcome is Ready && outcome->Ready_0 is None,
    }
}

/// One poll of the silent-exhaustion adapter over a multi-value computation.
///
/// An item is yielded and keeps the slot occupied; end-of-sequence empties
/// the slot, suspends instead of yielding a terminal value, and requests a
/// wake-up notification itself, since no occupant remains to request one;
/// suspension passes through without a wake-up request of the adapter's own.
pub open spec fn select_step<T, O>(
    step: (T, PollOutcome<Option<O>>),
    post: Option<T>,
    outcome: PollOutcome<O>,
    wake_requested: bool,
) -> bool {
    match step.1 {
        PollOutcome::Pending => post == Some(step.0) && outcome is Pending && !wake_requested,
        PollOutcome::Ready(Some(item)) => post == Some(step.0) && outcome
            == PollOutcome::<O>::Ready(item) && !wake_requested,
        PollOutcome::Ready(None) => post is None && outcome is Pending && wake_requested,
    }
}

} // verus!
