use rewinder::replay_window::SegmentEntry;
use rewinder::segment_stats::{
    concurrent_session_count, current_session_has_stable_segment, latest_segment_age_ms,
    save_ready, DisplayChangeWatch,
};

fn seg(modified_ms: u64, session: Option<&str>, size_bytes: u64) -> SegmentEntry {
    SegmentEntry {
        modified_ms,
        session_id: session.map(|s| s.chars().collect()),
        segment_index: Some(0),
        size_bytes,
    }
}

fn chars_in_segment_stats(s: &str) -> Vec<char> {
    s.chars().collect()
}

#[test]
fn sessions_of_the_last_replay_length_are_counted_once() {
    let entries = vec![
        seg(1_000, Some("old"), 40_000),
        seg(50_000, Some("a"), 40_000),
        seg(51_000, Some("b"), 40_000),
        seg(52_000, Some("a"), 40_000),
        seg(53_000, None, 40_000),
    ];
    assert_eq!(concurrent_session_count(&entries, 60_000, 30), Some(2));
    assert_eq!(concurrent_session_count(&entries, 60_000, 60), Some(3));
    assert_eq!(concurrent_session_count(&entries, 200_000, 30), None);
    assert_eq!(concurrent_session_count(&Vec::new(), 0, 30), None);
}

#[test]
fn newest_segment_age_and_settled_segments() {
    let entries = vec![
        seg(1_000, Some("a"), 40_000),
        seg(2_000, Some("b"), 100),
        seg(3_000, Some("a"), 100),
    ];
    assert_eq!(latest_segment_age_ms(&entries, &chars_in_segment_stats("a"), 3_400), Some(400));
    assert_eq!(latest_segment_age_ms(&entries, &chars_in_segment_stats("c"), 3_400), None);
    assert_eq!(latest_segment_age_ms(&entries, &chars_in_segment_stats("a"), 2_000), None);
    assert!(save_ready(&entries, 1_500));
    assert!(!save_ready(&entries, 1_499));
    assert!(current_session_has_stable_segment(&entries, &chars_in_segment_stats("a"), 5_000));
    assert!(!current_session_has_stable_segment(&entries, &chars_in_segment_stats("b"), 5_000));
}

#[test]
fn display_change_is_debounced() {
    let mut watch = DisplayChangeWatch::new();
    assert!(!watch.has_display_changed(7, 9, 1_000, 1_500));
    assert!(!watch.has_display_changed(7, 9, 2_000, 1_500));
    assert!(watch.has_display_changed(7, 9, 2_500, 1_500));
    assert!(!watch.has_display_changed(7, 7, 3_000, 1_500));
    assert_eq!(watch.first_seen_ms, None);
    assert!(!watch.has_display_changed(7, 0, 4_000, 1_500));
}

#[test]
fn buffer_fill_and_cadence() {
    assert_eq!(rewinder::segment_stats::buffer_fill_ms(10, 500, 60), 5_000);
    assert_eq!(rewinder::segment_stats::buffer_fill_ms(1_000, 500, 60), 60_000);
    let mut entries = Vec::new();
    for i in 0..20_u64 {
        entries.push(seg(i * 500, Some("a"), 40_000));
        entries.push(seg(i * 500 + 100, Some("b"), 40_000));
    }
    assert_eq!(
        rewinder::segment_stats::recent_cadence(&entries, &chars_in_segment_stats("a")),
        Some((5_500, 11))
    );
    let one = vec![seg(0, Some("a"), 1)];
    assert_eq!(rewinder::segment_stats::recent_cadence(&one, &chars_in_segment_stats("a")), None);
    let flat = vec![seg(5, Some("a"), 1), seg(5, Some("a"), 1)];
    assert_eq!(rewinder::segment_stats::recent_cadence(&flat, &chars_in_segment_stats("a")), None);
}
