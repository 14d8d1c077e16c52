//! The answer a computation gives to a single poll.

use vstd::prelude::*;

verus! {

/// The outcome of polling a cooperative computation once.
///
/// A poll never blocks: it either reports that the computation is not yet
/// ready, in which case a wake-up notification is expected to arrive before
/// the next productive poll, or it hands back an output.  A multi-value
/// computation reports its outputs as `Ready(Some(item))` and its
/// end-of-sequence as `Ready(None)`.
#[derive(Clone, Copy, Debug, PartialEq, Eq, Structural)]
pub enum PollOutcome<O> {
    /// The computation is not yet ready; the caller should suspend.
    Pending,
    /// The computation produced an output.
    Ready(O),
}

} // verus!
