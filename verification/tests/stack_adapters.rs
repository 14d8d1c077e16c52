use std::cell::Cell;

use async_fuse::PollOutcome;
use async_fuse::Stack;

fn two_items_then_end(state: u32) -> (u32, PollOutcome<Option<u32>>) {
    match state {
        0 => (1, PollOutcome::Ready(Some(10))),
        1 => (2, PollOutcome::Ready(Some(20))),
        _ => (state, PollOutcome::Ready(None)),
    }
}

#[test]
fn pending_occupant_suspends_and_stays_for_every_adapter() {
    let pending = |state: u32| (state + 1, PollOutcome::<u32>::Pending);
    let stream_pending = |state: u32| (state + 1, PollOutcome::<Option<u32>>::Pending);

    let mut slot = Stack::new(0u32);
    assert_eq!(slot.poll_with(&pending), PollOutcome::Pending);
    assert!(!slot.is_empty());
    assert_eq!(slot.poll_future(&pending), PollOutcome::Pending);
    assert!(!slot.is_empty());
    assert_eq!(slot.poll_next(&stream_pending), PollOutcome::Pending);
    assert!(!slot.is_empty());
    assert_eq!(slot.poll_select_next_some(&stream_pending), (PollOutcome::Pending, false));
    assert!(!slot.is_empty());
}

#[test]
fn completion_empties_the_slot_and_sets_the_termination_flag() {
    let complete_at_two = |state: u32| {
        if state >= 2 {
            (state, PollOutcome::Ready(state * 100))
        } else {
            (state + 1, PollOutcome::Pending)
        }
    };
    let mut slot = Stack::new(0u32);
    assert_eq!(slot.poll_future(&complete_at_two), PollOutcome::Pending);
    assert_eq!(slot.poll_future(&complete_at_two), PollOutcome::Pending);
    assert!(!slot.is_empty());
    assert_eq!(slot.poll_future(&complete_at_two), PollOutcome::Ready(200));
    assert!(slot.is_empty());
}

#[test]
fn next_yields_items_then_the_exhausted_marker() {
    let poll = |state: u32| two_items_then_end(state);
    let mut slot = Stack::new(0u32);
    assert_eq!(slot.poll_next(&poll), PollOutcome::Ready(Some(10)));
    assert!(!slot.is_empty());
    assert_eq!(slot.poll_next(&poll), PollOutcome::Ready(Some(20)));
    assert!(!slot.is_empty());
    assert_eq!(slot.poll_next(&poll), PollOutcome::Ready(None));
    assert!(slot.is_empty());
}

#[test]
fn select_next_some_yields_items_then_suspends_forever() {
    let poll = |state: u32| two_items_then_end(state);
    let mut slot = Stack::new(0u32);
    assert_eq!(slot.poll_select_next_some(&poll), (PollOutcome::Ready(10), false));
    assert!(!slot.is_empty());
    assert_eq!(slot.poll_select_next_some(&poll), (PollOutcome::Ready(20), false));
    assert!(!slot.is_empty());
    assert_eq!(slot.poll_select_next_some(&poll), (PollOutcome::Pending, true));
    assert!(slot.is_empty());
    for _ in 0..5 {
        assert_eq!(slot.poll_select_next_some(&poll), (PollOutcome::Pending, true));
        assert!(slot.is_empty());
    }
}

#[test]
fn empty_slot_poll_suspends_without_invoking_the_function() {
    let calls = Cell::new(0u32);
    let counting = |state: u32| {
        calls.set(calls.get() + 1);
        (state, PollOutcome::<u32>::Pending)
    };
    let mut slot = Stack::<u32>::empty();
    assert!(slot.is_empty());
    assert_eq!(slot.poll_with(&counting), PollOutcome::Pending);
    assert_eq!(calls.get(), 0);
    assert!(slot.is_empty());
}

#[test]
fn termination_flag_query_is_idempotent() {
    let poll = |state: u32| two_items_then_end(state);
    let mut slot = Stack::new(2u32);
    for _ in 0..5 {
        assert!(!slot.is_empty());
    }
    assert_eq!(slot.poll_next(&poll), PollOutcome::Ready(None));
    for _ in 0..5 {
        assert!(slot.is_empty());
    }
}

#[test]
fn set_replaces_the_previous_occupant() {
    let identity_ready = |state: u32| (state, PollOutcome::Ready(state));
    let mut slot = Stack::new(1u32);
    slot.set(9);
    assert_eq!(slot.poll_with(&identity_ready), PollOutcome::Ready(9));
    assert!(!slot.is_empty());
}

#[test]
fn refilling_an_exhausted_slot_restarts_the_stream() {
    let poll = |state: u32| two_items_then_end(state);
    let mut slot = Stack::new(1u32);
    assert_eq!(slot.poll_select_next_some(&poll), (PollOutcome::Ready(20), false));
    assert_eq!(slot.poll_select_next_some(&poll), (PollOutcome::Pending, true));
    assert!(slot.is_empty());
    slot.set(0);
    assert_eq!(slot.poll_select_next_some(&poll), (PollOutcome::Ready(10), false));
}
