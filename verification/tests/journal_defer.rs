use keyboard_owner::journal::{RecoveryEdgeJournal, DEFERRED_EDGE_CAPACITY};
use keyboard_owner::journal_defer::{DeferredCapture, KeyPhase, NativeEdgeReading, NonhelperEdge};
use keyboard_owner::journal_repost::{deferred_edge_matches_observed, RepostObservation};
use keyboard_owner::native_event::{
    InputSource, K_CG_EVENT_FLAGS_CHANGED, K_CG_EVENT_KEY_DOWN, K_CG_EVENT_KEY_UP,
    K_CG_EVENT_LEFT_MOUSE_DOWN, K_CG_EVENT_OTHER_MOUSE_DOWN, LEFT_SHIFT_KEY_CODE,
};

fn reading(event_type: u32, source: InputSource, marker: i64) -> NativeEdgeReading {
    NativeEdgeReading {
        event_type,
        flags: 0x100,
        timestamp: 77,
        source,
        source_pid: 0,
        original_marker: marker,
        uncertain_owned: false,
        reported_button: -1,
        mouse_number: 9,
        mouse_click_state: 1,
        location_x_bits: 100.5f64.to_bits(),
        location_y_bits: 200.25f64.to_bits(),
        mouse_pressure_bits: 1.0f64.to_bits(),
        mouse_delta_x: 3,
        mouse_delta_y: -2,
        mouse_instant_mouser: 0,
        mouse_subtype: 0,
        raw_key_code: 4,
        autorepeat: false,
        keyboard_type: 40,
        tracker_was_down: Some(false),
        hid_is_down: None,
    }
}

#[test]
fn a_physical_key_press_is_journaled_with_its_phase() {
    let mut journal = RecoveryEdgeJournal::new();
    let capture = journal.defer_callback_edge(reading(K_CG_EVENT_KEY_DOWN, InputSource::Physical, 11), 100);
    assert!(capture == DeferredCapture {
        journaled: true,
        key_phase: Some(KeyPhase { key_code: 4, is_down: true }),
    });
    assert_eq!(journal.pending_len, 1);
    let edge = journal.pending[0];
    assert_eq!(edge.key_code, 4);
    assert!(edge.is_down);
    assert!(!edge.repeat);
    assert_eq!(edge.original_marker, 11);
    assert_eq!(edge.flags, 0x100);
    assert_eq!(edge.original_timestamp, 77);
    assert_eq!(edge.keyboard_type, 40);
    assert_eq!(edge.mouse_button, 0);

    let release = journal.defer_callback_edge(reading(K_CG_EVENT_KEY_UP, InputSource::Physical, 12), 101);
    assert!(release.journaled);
    assert_eq!(release.key_phase, Some(KeyPhase { key_code: 4, is_down: false }));
    assert_eq!(journal.pending_len, 2);
    assert_eq!(journal.pending[1].original_marker, 12);
    assert!(!journal.pending[1].is_down);
}

#[test]
fn an_autorepeat_press_is_marked_repeat() {
    let mut journal = RecoveryEdgeJournal::new();
    let mut r = reading(K_CG_EVENT_KEY_DOWN, InputSource::Physical, 1);
    r.autorepeat = true;
    assert!(journal.defer_callback_edge(r, 5).journaled);
    assert!(journal.pending[0].repeat);
    // Autorepeat means nothing on a release.
    let mut up = reading(K_CG_EVENT_KEY_UP, InputSource::Physical, 2);
    up.autorepeat = true;
    assert!(journal.defer_callback_edge(up, 6).journaled);
    assert!(!journal.pending[1].repeat);
}

#[test]
fn an_untrackable_key_code_fails_the_journal() {
    let mut journal = RecoveryEdgeJournal::new();
    let mut r = reading(K_CG_EVENT_KEY_DOWN, InputSource::Physical, 1);
    r.raw_key_code = 128;
    assert!(journal.defer_callback_edge(r, 5) == DeferredCapture { journaled: false, key_phase: None });
    assert_eq!(journal.pending_len, 0);
    r.raw_key_code = -3;
    assert!(!journal.defer_callback_edge(r, 5).journaled);
}

#[test]
fn a_physical_mouse_press_is_journaled_with_its_button() {
    let mut journal = RecoveryEdgeJournal::new();
    let capture = journal.defer_callback_edge(reading(K_CG_EVENT_LEFT_MOUSE_DOWN, InputSource::Physical, 3), 10);
    assert!(capture == DeferredCapture { journaled: true, key_phase: None });
    let edge = journal.pending[0];
    assert_eq!(edge.mouse_button, 0);
    assert_eq!(edge.mouse_number, 9);
    assert_eq!(edge.mouse_click_state, 1);
    assert_eq!(f64::from_bits(edge.location_x_bits), 100.5);
    assert_eq!(f64::from_bits(edge.location_y_bits), 200.25);
    assert_eq!(edge.mouse_delta_y, -2);
    assert!(edge.is_down);
    assert_eq!(edge.key_code, 0);
}

#[test]
fn an_untrackable_mouse_button_fails_the_journal() {
    let mut journal = RecoveryEdgeJournal::new();
    let mut r = reading(K_CG_EVENT_OTHER_MOUSE_DOWN, InputSource::Physical, 3);
    r.reported_button = 32;
    assert!(!journal.defer_callback_edge(r, 10).journaled);
    assert_eq!(journal.pending_len, 0);
}

#[test]
fn a_physical_modifier_edge_without_hardware_state_fails() {
    let mut journal = RecoveryEdgeJournal::new();
    let mut r = reading(K_CG_EVENT_FLAGS_CHANGED, InputSource::Physical, 4);
    r.raw_key_code = LEFT_SHIFT_KEY_CODE as i64;
    r.hid_is_down = None;
    assert!(!journal.defer_callback_edge(r, 10).journaled);
    r.hid_is_down = Some(true);
    let capture = journal.defer_callback_edge(r, 11);
    assert!(capture.journaled);
    assert_eq!(
        capture.key_phase,
        Some(KeyPhase { key_code: LEFT_SHIFT_KEY_CODE, is_down: true })
    );
}

#[test]
fn a_full_journal_refuses_the_next_capture() {
    let mut journal = RecoveryEdgeJournal::new();
    for i in 0..DEFERRED_EDGE_CAPACITY {
        let kind = if i % 2 == 0 { K_CG_EVENT_KEY_DOWN } else { K_CG_EVENT_KEY_UP };
        assert!(journal.defer_callback_edge(reading(kind, InputSource::Physical, i as i64), 1).journaled);
    }
    assert_eq!(journal.pending_len, DEFERRED_EDGE_CAPACITY);
    assert!(!journal.defer_callback_edge(reading(K_CG_EVENT_KEY_DOWN, InputSource::Physical, 99), 2).journaled);
}

#[test]
fn a_journaled_edge_matches_its_own_reading_and_nothing_else() {
    let mut journal = RecoveryEdgeJournal::new();
    let key = reading(K_CG_EVENT_KEY_DOWN, InputSource::Physical, 1);
    assert!(journal.defer_callback_edge(key, 1).journaled);
    let edge = journal.pending[0];
    assert!(deferred_edge_matches_observed(edge, &key));
    let mut other = key;
    other.raw_key_code = 5;
    assert!(!deferred_edge_matches_observed(edge, &other));
    let mut repeated = key;
    repeated.autorepeat = true;
    assert!(!deferred_edge_matches_observed(edge, &repeated));
    let mut reflagged = key;
    reflagged.flags = 0;
    assert!(!deferred_edge_matches_observed(edge, &reflagged));

    let mut mouse = reading(K_CG_EVENT_LEFT_MOUSE_DOWN, InputSource::Physical, 2);
    mouse.reported_button = 0;
    assert!(journal.defer_callback_edge(mouse, 2).journaled);
    let mouse_edge = journal.pending[1];
    assert!(deferred_edge_matches_observed(mouse_edge, &mouse));
    let mut moved = mouse;
    moved.location_x_bits = 100.75f64.to_bits();
    assert!(!deferred_edge_matches_observed(mouse_edge, &moved));
}

#[test]
fn reposts_advance_the_submitted_batch_in_order() {
    let mut journal = RecoveryEdgeJournal::new();
    let down = reading(K_CG_EVENT_KEY_DOWN, InputSource::Physical, 1);
    let up = reading(K_CG_EVENT_KEY_UP, InputSource::Physical, 2);
    assert!(journal.defer_callback_edge(down, 1).journaled);
    assert!(journal.defer_callback_edge(up, 1).journaled);
    assert!(journal.begin_submission(7, 0, 2, 3));
    // An edge without our token is not a repost.
    assert_eq!(journal.observe_deferred_repost(false, &up, 4), RepostObservation::Foreign);
    assert_eq!(journal.token, Some(7));
    assert_eq!(journal.observe_deferred_repost(true, &down, 4), RepostObservation::Observed { complete: false });
    assert_eq!(journal.observe_deferred_repost(true, &up, 5), RepostObservation::Observed { complete: true });
    assert_eq!(journal.token, None);
}

#[test]
fn an_out_of_order_repost_aborts_the_submission() {
    let mut journal = RecoveryEdgeJournal::new();
    let down = reading(K_CG_EVENT_KEY_DOWN, InputSource::Physical, 1);
    let up = reading(K_CG_EVENT_KEY_UP, InputSource::Physical, 2);
    assert!(journal.defer_callback_edge(down, 1).journaled);
    assert!(journal.defer_callback_edge(up, 1).journaled);
    assert!(journal.begin_submission(7, 0, 2, 3));
    assert_eq!(journal.observe_deferred_repost(true, &up, 4), RepostObservation::Mismatched);
    assert_eq!(journal.token, None);
    // With nothing submitted, any authenticated repost is a mismatch.
    assert_eq!(journal.observe_deferred_repost(true, &down, 5), RepostObservation::Mismatched);
}

#[test]
fn nonhelper_edges_are_discarded_deferred_or_passed() {
    let mut journal = RecoveryEdgeJournal::new();
    let down = reading(K_CG_EVENT_KEY_DOWN, InputSource::Physical, 1);
    // This process's own edges, and other event kinds, always pass.
    assert_eq!(journal.defer_nonhelper_if_ordered(down, true, true, 1), NonhelperEdge::Passed);
    assert_eq!(journal.defer_nonhelper_if_ordered(reading(22, InputSource::Physical, 1), false, true, 1), NonhelperEdge::Passed);
    // Without recovery ordering an unfenced edge passes untouched.
    assert_eq!(journal.defer_nonhelper_if_ordered(down, false, false, 1), NonhelperEdge::Passed);
    assert_eq!(journal.pending_len, 0);
    // With ordering it is deferred.
    assert_eq!(
        journal.defer_nonhelper_if_ordered(down, false, true, 1),
        NonhelperEdge::Deferred(DeferredCapture {
            journaled: true,
            key_phase: Some(KeyPhase { key_code: 4, is_down: true }),
        })
    );
    assert_eq!(journal.pending_len, 1);
    // A fenced generation is discarded, ordering or not.
    journal.discard_key_fences[9] = true;
    let mut fenced = reading(K_CG_EVENT_KEY_UP, InputSource::Physical, 2);
    fenced.raw_key_code = 9;
    assert_eq!(
        journal.defer_nonhelper_if_ordered(fenced, false, false, 2),
        NonhelperEdge::Discarded { is_down: false }
    );
    assert!(!journal.discard_key_fences[9]);
    assert_eq!(journal.pending_len, 1);
}
