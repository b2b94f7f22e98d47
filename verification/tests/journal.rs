use keyboard_owner::barrier::{classify_exact_pair, observe_exact_pair, GapBarrierObservation};
use keyboard_owner::journal::{DeferredEvent, RecoveryEdgeJournal, DEFERRED_EDGE_CAPACITY};
use keyboard_owner::native_event::{
    deferred_mouse_button, K_CG_EVENT_RIGHT_MOUSE_UP,
    is_mouse_event_type, map_key_code, modifier_side_for_key_code, mouse_event_is_down,
    InputSource, K_CG_EVENT_KEY_DOWN, K_CG_EVENT_KEY_UP, K_CG_EVENT_LEFT_MOUSE_DOWN,
    K_CG_EVENT_LEFT_MOUSE_UP, K_CG_EVENT_OTHER_MOUSE_DOWN, LEFT_SHIFT_KEY_CODE,
};

fn key_edge(key_code: u16, is_down: bool, marker: i64) -> DeferredEvent {
    let mut edge = DeferredEvent::empty();
    edge.event_type = if is_down {
        K_CG_EVENT_KEY_DOWN
    } else {
        K_CG_EVENT_KEY_UP
    };
    edge.key_code = key_code;
    edge.is_down = is_down;
    edge.source = InputSource::Physical;
    edge.original_marker = marker;
    edge
}

#[test]
fn appended_edges_stay_in_arrival_order() {
    let mut journal = RecoveryEdgeJournal::new();
    let edges = [key_edge(0, true, 1), key_edge(0, false, 2), key_edge(1, true, 3)];
    for edge in edges {
        assert!(journal.append(edge, 100));
    }
    assert_eq!(journal.pending_len, 3);
    assert_eq!(&journal.pending[..3], &edges[..]);
    assert!(journal.has_pending());
}

#[test]
fn submission_observes_exactly_in_order_then_releases_the_tail() {
    let mut journal = RecoveryEdgeJournal::new();
    let edges = [key_edge(0, true, 1), key_edge(0, false, 2), key_edge(1, true, 3)];
    for edge in edges {
        assert!(journal.append(edge, 100));
    }
    assert!(journal.begin_submission(9, 0, 2, 100));
    assert_eq!(journal.pending_len, 2);
    assert_eq!(journal.tail_len, 1);
    assert_eq!(journal.expected(), Some(edges[0]));
    let late = key_edge(2, true, 4);
    assert!(journal.append(late, 101));
    assert_eq!(journal.tail_len, 2);
    assert_eq!(journal.advance_observation(102), GapBarrierObservation::Down);
    assert_eq!(journal.expected(), Some(edges[1]));
    assert_eq!(journal.advance_observation(103), GapBarrierObservation::Complete);
    assert_eq!(journal.token, None);
    assert_eq!(journal.pending_len, 2);
    assert_eq!(journal.pending[0], edges[2]);
    assert_eq!(journal.pending[1], late);
    assert_eq!(journal.advance_observation(104), GapBarrierObservation::Forged);
}

#[test]
fn observation_without_submission_is_forged() {
    let mut journal = RecoveryEdgeJournal::new();
    assert_eq!(journal.expected(), None);
    assert_eq!(journal.advance_observation(1), GapBarrierObservation::Forged);
    assert!(!journal.begin_submission(1, 0, 1, 1));
}

#[test]
fn a_full_journal_refuses_ordinary_append() {
    let mut journal = RecoveryEdgeJournal::new();
    for index in 0..DEFERRED_EDGE_CAPACITY {
        assert!(journal.append(key_edge((index % 26) as u16, index % 2 == 0, index as i64), 5));
    }
    assert!(!journal.overflow);
    assert!(!journal.append(key_edge(30, true, 99), 5));
    assert!(journal.pending_len <= DEFERRED_EDGE_CAPACITY);
}

#[test]
fn exact_pair_barrier_completes_only_in_order() {
    let mut state = 0_u8;
    assert_eq!(
        observe_exact_pair(&mut state, K_CG_EVENT_KEY_UP, 127, 127, false, 0, 0),
        GapBarrierObservation::Forged
    );
    assert_eq!(state, 0);
    assert_eq!(
        observe_exact_pair(&mut state, K_CG_EVENT_KEY_DOWN, 127, 127, false, 0, 0),
        GapBarrierObservation::Down
    );
    assert_eq!(state, 1);
    assert_eq!(
        observe_exact_pair(&mut state, K_CG_EVENT_KEY_UP, 127, 127, false, 0, 0),
        GapBarrierObservation::Complete
    );
    assert_eq!(state, 2);
    assert_eq!(
        classify_exact_pair(0, K_CG_EVENT_KEY_DOWN, 127, 127, true, 0, 0),
        GapBarrierObservation::Forged
    );
    assert_eq!(
        classify_exact_pair(0, K_CG_EVENT_KEY_DOWN, 126, 127, false, 0, 0),
        GapBarrierObservation::Forged
    );
    assert_eq!(
        classify_exact_pair(0, K_CG_EVENT_KEY_DOWN, 127, 127, false, 8, 0),
        GapBarrierObservation::Forged
    );
}

#[test]
fn native_event_classification() {
    assert!(is_mouse_event_type(K_CG_EVENT_LEFT_MOUSE_DOWN));
    assert!(is_mouse_event_type(K_CG_EVENT_OTHER_MOUSE_DOWN));
    assert!(!is_mouse_event_type(K_CG_EVENT_KEY_DOWN));
    assert!(mouse_event_is_down(K_CG_EVENT_LEFT_MOUSE_DOWN));
    assert!(!mouse_event_is_down(K_CG_EVENT_LEFT_MOUSE_UP));
    assert!(modifier_side_for_key_code(LEFT_SHIFT_KEY_CODE).is_some());
    assert!(modifier_side_for_key_code(0).is_none());
    assert_eq!(map_key_code(0), map_key_code(0));
}

#[test]
fn deferred_mouse_button_prefers_the_reported_number() {
    assert_eq!(deferred_mouse_button(K_CG_EVENT_LEFT_MOUSE_DOWN, 4), Some(4));
    assert_eq!(deferred_mouse_button(K_CG_EVENT_LEFT_MOUSE_DOWN, -1), Some(0));
    assert_eq!(deferred_mouse_button(K_CG_EVENT_RIGHT_MOUSE_UP, i64::MAX), Some(1));
    assert_eq!(deferred_mouse_button(K_CG_EVENT_OTHER_MOUSE_DOWN, -7), Some(2));
    assert_eq!(deferred_mouse_button(K_CG_EVENT_KEY_DOWN, -7), None);
}

#[test]
fn fenced_key_edges_are_discarded_and_the_release_lifts_the_fence() {
    let mut journal = RecoveryEdgeJournal::new();
    // Physical source, key code 5.
    journal.discard_key_fences[5] = true;
    assert_eq!(
        journal.discard_overflow_fenced_nonhelper(K_CG_EVENT_KEY_DOWN, -1, 5, InputSource::Physical, 0, None),
        Some(true)
    );
    assert!(journal.discard_key_fences[5]);
    assert_eq!(
        journal.discard_overflow_fenced_nonhelper(K_CG_EVENT_KEY_UP, -1, 5, InputSource::Physical, 0, None),
        Some(false)
    );
    assert!(!journal.discard_key_fences[5]);
    // Once the fence is lifted the next edge is ordinary.
    assert_eq!(
        journal.discard_overflow_fenced_nonhelper(K_CG_EVENT_KEY_DOWN, -1, 5, InputSource::Physical, 0, None),
        None
    );
    // Out-of-range key codes are never fenced.
    assert_eq!(
        journal.discard_overflow_fenced_nonhelper(K_CG_EVENT_KEY_DOWN, -1, 200, InputSource::Physical, 0, None),
        None
    );
}

#[test]
fn fenced_mouse_edges_are_discarded_and_the_release_lifts_the_fence() {
    let mut journal = RecoveryEdgeJournal::new();
    journal.discard_mouse_fences[0] = 1;
    assert_eq!(
        journal.discard_overflow_fenced_nonhelper(K_CG_EVENT_LEFT_MOUSE_DOWN, -1, 0, InputSource::Physical, 0, None),
        Some(true)
    );
    assert_eq!(journal.discard_mouse_fences[0], 1);
    assert_eq!(
        journal.discard_overflow_fenced_nonhelper(K_CG_EVENT_LEFT_MOUSE_UP, -1, 0, InputSource::Physical, 0, None),
        Some(false)
    );
    assert_eq!(journal.discard_mouse_fences[0], 0);
    assert_eq!(
        journal.discard_overflow_fenced_nonhelper(K_CG_EVENT_LEFT_MOUSE_UP, -1, 0, InputSource::Physical, 0, None),
        None
    );
    // A button beyond the tracked 32 is left alone.
    assert_eq!(
        journal.discard_overflow_fenced_nonhelper(K_CG_EVENT_OTHER_MOUSE_DOWN, 40, 0, InputSource::Physical, 0, None),
        None
    );
}

#[test]
fn ordinary_mouse_edges_are_followed_in_the_source_model() {
    let mut journal = RecoveryEdgeJournal::new();
    assert!(journal.observe_normal_mouse_transition(K_CG_EVENT_RIGHT_MOUSE_UP, 3, InputSource::Physical, 0));
    assert_eq!(journal.held_mouse_buttons[0], 0);
    assert!(journal.observe_normal_mouse_transition(K_CG_EVENT_OTHER_MOUSE_DOWN, 3, InputSource::Physical, 0));
    assert_eq!(journal.held_mouse_buttons[0], 1 << 3);
    assert_eq!(journal.mouse_foreground_origins[0], 1 << 3);
    assert!(journal.observe_normal_mouse_transition(K_CG_EVENT_LEFT_MOUSE_DOWN, -1, InputSource::Physical, 0));
    assert_eq!(journal.held_mouse_buttons[0], (1 << 3) | 1);
    assert!(!journal.observe_normal_mouse_transition(K_CG_EVENT_OTHER_MOUSE_DOWN, 33, InputSource::Physical, 0));
    assert_eq!(journal.held_mouse_buttons[0], (1 << 3) | 1);
}
