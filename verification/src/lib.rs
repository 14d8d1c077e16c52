//! Fusing adapters for optionally present cooperative computations.
//!
//! A selection construct that waits on several concurrent operations usually
//! requires every branch to be pollable on every cycle, yet a branch may have
//! nothing to do because its slot is empty.  The types here model a slot that
//! holds zero or one computations together with the rules for polling it:
//! how an empty slot answers, how a completing occupant is cleared or kept,
//! and how a caller-supplied polling function is driven without ever being
//! invoked on an absent value.
//!
//! A computation is represented by a state value together with a polling
//! function that advances the state and reports a [`PollOutcome`].  The two
//! slot flavors, [`Stack`] and [`Heap`], expose the same logical contract and
//! differ only in where the occupant is placed: inline in the slot, or behind
//! a heap allocation of its own.  [`PollFn`] bundles a slot with its polling
//! function as a single container.

mod heap;
pub mod laws;
mod outcome;
mod poll_fn;
mod stack;
pub mod step;

pub use heap::Heap;
pub use outcome::PollOutcome;
pub use poll_fn::PollFn;
pub use poll_fn::poll_fn;
pub use stack::Stack;
