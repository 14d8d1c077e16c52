//! Laws of the polling state machine, proved from the transition relations
//! in [`crate::step`].

use vstd::prelude::*;

use crate::outcome::PollOutcome;
use crate::step::current_step;
use crate::step::fuse_step;
use crate::step::next_step;
use crate::step::select_step;

verus! {

/// While the delegated computation reports pending, a poll of the generic
/// fused container suspends and the slot stays occupied, holding the
/// advanced occupant.
pub proof fn pending_fuse_poll_suspends<T, O>(
    step: (T, PollOutcome<O>),
    post: Option<T>,
    outcome: PollOutcome<O>,
)
    requires
        fuse_step(step, post, outcome),
        step.1 is Pending,
    ensures
        outcome is Pending,
        post == Some(step.0),
{
}

/// While the delegated one-shot computation reports pending, a poll of the
/// terminal-completion adapter suspends and the slot stays occupied,
/// holding the advanced occupant.
pub proof fn pending_current_poll_suspends<T, O>(
    step: (T, PollOutcome<O>),
    post: Option<T>,
    outcome: PollOutcome<O>,
)
    requires
        current_step(step, post, outcome),
        step.1 is Pending,
    ensures
        outcome is Pending,
        post == Some(step.0),
{
}

/// While the delegated multi-value computation reports pending, a poll of
/// the exhaustion-forwarding adapter suspends and the slot stays occupied,
/// holding the advanced occupant.
pub proof fn pending_next_poll_suspends<T, O>(
    step: (T, PollOutcome<Option<O>>),
    post: Option<T>,
    outcome: PollOutcome<Option<O>>,
)
    requires
        next_step(step, post, outcome),
        step.1 is Pending,
    ensures
        outcome is Pending,
        post == Some(step.0),
{
}

/// While the delegated multi-value computation reports pending, a poll of
/// the silent-exhaustion adapter suspends and the slot stays occupied,
/// holding the advanced occupant.
pub proof fn pending_select_poll_suspends<T, O>(
    step: (T, PollOutcome<Option<O>>),
    post: Option<T>,
    outcome: PollOutcome<O>,
    wake_requested: bool,
)
    requires
        select_step(step, post, outcome, wake_requested),
        step.1 is Pending,
    ensures
        outcome is Pending,
        post == Some(step.0),
{
}

/// Once the delegated one-shot computation completes, the
/// terminal-completion adapter yields exactly its output and the slot is
/// empty, so the termination flag reads true and the occupant can never be
/// polled again through this adapter.
pub proof fn current_completion_empties_slot<T, O>(
    step: (T, PollOutcome<O>),
    post: Option<T>,
    outcome: PollOutcome<O>,
)
    requires
        current_step(step, post, outcome),
        step.1 is Ready,
    ensures
        post is None,
        outcome == step.1,
{
}

/// A multi-value computation that yields two items and then its
/// end-of-sequence drains through the exhaustion-forwarding adapter as the
/// two items in order, each leaving the slot occupied with the advanced
/// occupant, and then as the exhausted marker, which empties the slot.
pub proof fn next_drains_items_then_marks_exhausted<T, O>(
    s1: T,
    s2: T,
    s3: T,
    a: O,
    b: O,
    post1: Option<T>,
    out1: PollOutcome<Option<O>>,
    post2: Option<T>,
    out2: PollOutcome<Option<O>>,
    post3: Option<T>,
    out3: PollOutcome<Option<O>>,
)
    requires
        next_step((s1, PollOutcome::<Option<O>>::Ready(Some(a))), post1, out1),
        next_step((s2, PollOutcome::<Option<O>>::Ready(Some(b))), post2, out2),
        next_step((s3, PollOutcome::<Option<O>>::Ready(None)), post3, out3),
    ensures
        out1 == PollOutcome::<Option<O>>::Ready(Some(a)) && post1 == Some(s1),
        out2 == PollOutcome::<Option<O>>::Ready(Some(b)) && post2 == Some(s2),
        out3 is Ready && out3->Ready_0 is None && post3 is None,
{
}

/// The same sequence through the silent-exhaustion adapter yields the two
/// items and then, at the exhaustion poll, suspends with a wake-up
/// notification requested and the slot emptied — never a terminal value.
/// Every poll of the emptied slot thereafter suspends again with a wake-up
/// requested, by the adapter's own contract on empty slots, so the branch
/// stays silent until the caller refills it.
pub proof fn select_yields_items_then_suspends<T, O>(
    s1: T,
    s2: T,
    s3: T,
    a: O,
    b: O,
    post1: Option<T>,
    out1: PollOutcome<O>,
    w1: bool,
    post2: Option<T>,
    out2: PollOutcome<O>,
    w2: bool,
    post3: Option<T>,
    out3: PollOutcome<O>,
    w3: bool,
)
    requires
        select_step((s1, PollOutcome::<Option<O>>::Ready(Some(a))), post1, out1, w1),
        select_step((s2, PollOutcome::<Option<O>>::Ready(Some(b))), post2, out2, w2),
        select_step((s3, PollOutcome::<Option<O>>::Ready(None)), post3, out3, w3),
    ensures
        out1 == PollOutcome::<O>::Ready(a) && post1 == Some(s1) && !w1,
        out2 == PollOutcome::<O>::Ready(b) && post2 == Some(s2) && !w2,
        out3 is Pending && post3 is None && w3,
{
}

} // verus!
