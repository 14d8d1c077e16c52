use std::cell::Cell;

use async_fuse::Heap;
use async_fuse::PollOutcome;

fn two_items_then_end(state: u32) -> (u32, PollOutcome<Option<u32>>) {
    match state {
        0 => (1, PollOutcome::Ready(Some(10))),
        1 => (2, PollOutcome::Ready(Some(20))),
        _ => (state, PollOutcome::Ready(None)),
    }
}

#[test]
fn heap_pending_occupant_suspends_and_stays_for_every_adapter() {
    let pending = |state: u32| (state + 1, PollOutcome::<u32>::Pending);
    let stream_pending = |state: u32| (state + 1, PollOutcome::<Option<u32>>::Pending);

    let mut slot = Heap::new(0u32);
    assert_eq!(slot.poll_with(&pending), PollOutcome::Pending);
    assert!(!slot.is_empty());
    assert_eq!(slot.poll_future(&pending), PollOutcome::Pending);
    assert!(!slot.is_empty());
    assert_eq!(slot.poll_next(&stream_pending), PollOutcome::Pending);
    assert!(!slot.is_empty());
    assert_eq!(slot.poll_select_next_some(&stream_pending), (PollOutcome::Pending, false));
    assert!(!slot.is_empty());
}

#[test]
fn heap_completion_empties_the_slot() {
    let complete_at_one = |state: u32| {
        if state >= 1 {
            (state, PollOutcome::Ready(state + 5))
        } else {
            (state + 1, PollOutcome::Pending)
        }
    };
    let mut slot = Heap::new(0u32);
    assert_eq!(slot.poll_future(&complete_at_one), PollOutcome::Pending);
    assert!(!slot.is_empty());
    assert_eq!(slot.poll_future(&complete_at_one), PollOutcome::Ready(6));
    assert!(slot.is_empty());
}

#[test]
fn heap_next_yields_items_then_the_exhausted_marker() {
    let poll = |state: u32| two_items_then_end(state);
    let mut slot = Heap::new(0u32);
    assert_eq!(slot.poll_next(&poll), PollOutcome::Ready(Some(10)));
    assert_eq!(slot.poll_next(&poll), PollOutcome::Ready(Some(20)));
    assert!(!slot.is_empty());
    assert_eq!(slot.poll_next(&poll), PollOutcome::Ready(None));
    assert!(slot.is_empty());
}

#[test]
fn heap_select_next_some_suspends_forever_after_exhaustion() {
    let poll = |state: u32| two_items_then_end(state);
    let mut slot = Heap::new(0u32);
    assert_eq!(slot.poll_select_next_some(&poll), (PollOutcome::Ready(10), false));
    assert_eq!(slot.poll_select_next_some(&poll), (PollOutcome::Ready(20), false));
    assert_eq!(slot.poll_select_next_some(&poll), (PollOutcome::Pending, true));
    assert!(slot.is_empty());
    for _ in 0..5 {
        assert_eq!(slot.poll_select_next_some(&poll), (PollOutcome::Pending, true));
        assert!(slot.is_empty());
    }
}

#[test]
fn heap_empty_slot_poll_suspends_without_invoking_the_function() {
    let calls = Cell::new(0u32);
    let counting = |state: u32| {
        calls.set(calls.get() + 1);
        (state, PollOutcome::<u32>::Pending)
    };
    let mut slot = Heap::<u32>::empty();
    assert_eq!(slot.poll_with(&counting), PollOutcome::Pending);
    assert_eq!(calls.get(), 0);
    assert!(slot.is_empty());
}

#[test]
fn heap_termination_flag_query_is_idempotent() {
    let complete_now = |state: u32| (state, PollOutcome::Ready(state));
    let mut slot = Heap::new(4u32);
    for _ in 0..5 {
        assert!(!slot.is_empty());
    }
    assert_eq!(slot.poll_future(&complete_now), PollOutcome::Ready(4));
    for _ in 0..5 {
        assert!(slot.is_empty());
    }
}

#[test]
fn heap_set_and_clear_steer_occupancy() {
    let identity_ready = |state: u32| (state, PollOutcome::Ready(state));
    let mut slot = Heap::<u32>::empty();
    slot.set(3);
    assert!(!slot.is_empty());
    assert_eq!(slot.poll_with(&identity_ready), PollOutcome::Ready(3));
    slot.clear();
    assert!(slot.is_empty());
    assert_eq!(slot.poll_with(&identity_ready), PollOutcome::Pending);
}
