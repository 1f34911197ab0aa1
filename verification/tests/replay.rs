use rewinder::replay_window::{
    replay_continuity_gap_threshold_ms, select_replay_window, sorted_copy, PartialReasonCode,
    SegmentEntry,
};

fn entry(modified_ms: u64, session: &str, index: u64) -> SegmentEntry {
    SegmentEntry {
        modified_ms,
        session_id: Some(session.chars().collect()),
        segment_index: Some(index),
        size_bytes: 64 * 1024,
    }
}

fn chars_in_replay(s: &str) -> Vec<char> {
    s.chars().collect()
}

#[test]
fn continuity_threshold_adapts_to_recent_segment_cadence() {
    let entries = vec![
        entry(0, "a", 0),
        entry(500, "a", 1),
        entry(1000, "a", 2),
        entry(1500, "a", 3),
    ];
    let threshold = replay_continuity_gap_threshold_ms(&entries, entries.len() - 1, 500);
    assert!(
        threshold > 1_600 && threshold < 1_900,
        "expected adaptive threshold around 1.75s, got {threshold}"
    );
    assert_eq!(threshold, 1_750);
}

#[test]
fn continuity_threshold_clamps_for_large_segment_gaps() {
    let entries = vec![entry(0, "b", 0), entry(1500, "b", 1), entry(3000, "b", 2)];
    let threshold = replay_continuity_gap_threshold_ms(&entries, entries.len() - 1, 500);
    assert_eq!(threshold, 4_000);
}

#[test]
fn continuity_threshold_has_a_floor_of_one_second() {
    let entries = vec![entry(0, "c", 0), entry(100, "c", 1), entry(200, "c", 2)];
    assert_eq!(replay_continuity_gap_threshold_ms(&entries, 2, 100), 1_000);
    let single = vec![entry(0, "c", 0)];
    assert_eq!(replay_continuity_gap_threshold_ms(&single, 0, 1_000), 3_500);
}

#[test]
fn replay_selection_prefers_active_session_when_sessions_are_interleaved() {
    let mut entries = Vec::new();
    for idx in 0..8_u64 {
        entries.push(entry(idx * 24, "active", idx));
        entries.push(entry(idx * 24 + 12, "other", idx));
    }
    let anchor = 7 * 24 + 12 + 600;
    let threshold = replay_continuity_gap_threshold_ms(&entries, entries.len() - 1, 500);
    let selection = select_replay_window(&entries, anchor, 3_000, 500, threshold, &chars_in_replay("active"))
        .expect("selection should exist");

    assert!(!selection.partial_history);
    assert!(!selection.selected.is_empty());
    for &i in &selection.selected {
        assert_eq!(
            entries[i].session_id.as_deref(),
            Some(&chars_in_replay("active")[..]),
            "selection should keep only active session segments"
        );
    }
}

#[test]
fn replay_selection_marks_session_boundary_when_active_history_is_short() {
    let mut entries = Vec::new();
    for idx in 0..8_u64 {
        entries.push(entry(idx * 10, "older", idx));
    }
    for idx in 0..2_u64 {
        entries.push(entry(80 + idx * 10, "active", idx));
    }
    let anchor = 90 + 600;
    let threshold = replay_continuity_gap_threshold_ms(&entries, entries.len() - 1, 500);
    let selection = select_replay_window(&entries, anchor, 5_000, 500, threshold, &chars_in_replay("active"))
        .expect("selection should exist");

    assert!(selection.partial_history);
    assert_eq!(
        selection.partial_reason_code.map(|c| c.as_code()),
        Some("session_boundary")
    );
}

#[test]
fn replay_selection_is_empty_without_segments_before_the_trigger() {
    let entries = vec![entry(5_000, "a", 0)];
    assert!(select_replay_window(&entries, 1_000, 3_000, 500, 1_750, &chars_in_replay("a")).is_none());
}

#[test]
fn replay_selection_stops_at_timeline_gap() {
    let entries = vec![
        entry(0, "a", 0),
        entry(10_000, "a", 1),
        entry(10_500, "a", 2),
    ];
    let selection = select_replay_window(&entries, 10_500, 3_000, 500, 1_750, &chars_in_replay("a"))
        .expect("selection should exist");
    assert!(selection.partial_history);
    assert_eq!(selection.partial_reason_code, Some(PartialReasonCode::TimelineGap));
    assert_eq!(selection.selected, vec![1, 2]);
    assert_eq!(
        PartialReasonCode::TimelineGap.reason_text(),
        Some("capture restart/discontinuity in rolling buffer")
    );
}

#[test]
fn sorted_copy_orders_values() {
    assert_eq!(sorted_copy(&vec![5, 1, 4, 1]), vec![1, 1, 4, 5]);
}

#[test]
fn save_selection_takes_only_settled_segments() {
    let entries = vec![
        entry(1_000, "a", 0),
        entry(1_500, "a", 1),
        entry(2_000, "a", 2),
        entry(2_400, "a", 3),
    ];
    let (settled, window) =
        rewinder::replay_window::replay_selection_for_save_at(&entries, 2_600, 2_600, 60, 1, 500, &chars_in_replay("a"));
    assert_eq!(settled.len(), 3);
    let window = window.expect("a window");
    assert_eq!(window.selected, vec![1, 2]);
    assert!(!window.partial_history);
    let (settled, window) =
        rewinder::replay_window::replay_selection_for_save_at(&entries, 1_200, 1_200, 60, 1, 500, &chars_in_replay("a"));
    assert!(settled.is_empty());
    assert!(window.is_none());
}

#[test]
fn save_selection_follows_write_time_not_listing_order() {
    let entries = vec![entry(2_000, "a", 1), entry(1_000, "a", 0)];
    let (candidates, window) = rewinder::replay_window::replay_selection_for_save_at(
        &entries,
        10_000,
        10_000,
        60,
        1,
        500,
        &chars_in_replay("a"),
    );
    let times: Vec<u64> = candidates.iter().map(|e| e.modified_ms).collect();
    assert_eq!(times, vec![1_000, 2_000]);
    let window = window.expect("a window");
    assert_eq!(window.window_end_ms, 2_000);
    assert_eq!(window.selected, vec![0, 1]);
    assert!(!window.partial_history);
}

#[test]
fn save_selection_ignores_history_older_than_the_buffer() {
    let entries = vec![entry(1_000, "a", 0), entry(100_000, "a", 1)];
    let (candidates, _) = rewinder::replay_window::replay_selection_for_save_at(
        &entries,
        100_600,
        100_600,
        60,
        30,
        500,
        &chars_in_replay("a"),
    );
    let times: Vec<u64> = candidates.iter().map(|e| e.modified_ms).collect();
    assert_eq!(times, vec![100_000]);
}
