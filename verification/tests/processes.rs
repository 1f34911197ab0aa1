use rewinder::process::{
    format_capture_lock_payload, is_rewinder_capture_process_command, lock_payload_from_text,
    parse_capture_lock_payload, parse_capture_process_candidates, parse_single_pid,
    select_capture_process_sweep_candidates,
};
use std::collections::HashSet;

#[test]
fn capture_process_classifier_matches_only_rewinder_workers() {
    assert!(is_rewinder_capture_process_command(
        "/Users/apple/Desktop/rewinder/src-tauri/bin/rewinder-sck-capture --output /tmp/video.pipe"
    ));
    assert!(is_rewinder_capture_process_command(
        "ffmpeg -i /tmp/video.pipe -i /tmp/system_audio.pipe /Users/apple/Downloads/.rewinder-live/seg_abc_%08d.mp4"
    ));
    assert!(!is_rewinder_capture_process_command(
        "ffmpeg -f avfoundation -i 1:none /Users/apple/Desktop/test.mp4"
    ));
}

#[test]
fn parse_capture_process_candidates_ignores_unrelated_processes() {
    let ps_output = " 101 /Applications/Cursor.app/Contents/MacOS/Cursor\n 202 /Users/apple/Desktop/rewinder/src-tauri/bin/rewinder-sck-capture --video /tmp/video.pipe\n 303 /opt/homebrew/bin/ffmpeg -f avfoundation -i 1:none /tmp/plain-recording.mp4\n 404 /opt/homebrew/bin/ffmpeg -i /tmp/video.pipe -i /tmp/system_audio.pipe /Users/apple/Downloads/.rewinder-live/seg_capture_%08d.mp4\n";
    let candidates = parse_capture_process_candidates(ps_output);
    assert_eq!(candidates, vec![202, 404]);
}

#[test]
fn process_sweep_candidate_selection_respects_exclusions() {
    let self_pid: u32 = 4242;
    let ps_output = format!(
        " {self_pid} /Users/apple/Desktop/rewinder/src-tauri/bin/rewinder-sck-capture --video /tmp/video.pipe\n 510 /Users/apple/Desktop/rewinder/src-tauri/bin/rewinder-sck-capture --video /tmp/video.pipe\n 520 /opt/homebrew/bin/ffmpeg -i /tmp/video.pipe /Users/apple/Downloads/.rewinder-live/seg_a_%08d.mp4\n"
    );
    let mut excluded = HashSet::new();
    excluded.insert(520);
    let selected = select_capture_process_sweep_candidates(&ps_output, self_pid, &excluded);
    assert_eq!(selected, vec![510]);
}

#[test]
fn sweep_lists_each_worker_once() {
    let ps_output = " 7 rewinder-sck-capture --video /tmp/video.pipe\n 7 rewinder-sck-capture --video /tmp/video.pipe\n 8 ffmpeg -i /tmp/mic_audio.pipe out.mp4\n";
    let selected = select_capture_process_sweep_candidates(ps_output, 1, &HashSet::new());
    assert_eq!(selected, vec![7, 8]);
}

#[test]
fn capture_lock_payload_parsing_and_stale_reclaim_work() {
    let payload =
        parse_capture_lock_payload("owner_pid=123\nstarted_epoch_ms=456\nsession_id=abc\n");
    assert_eq!(payload.owner_pid, Some(123));
    assert_eq!(payload.started_epoch_ms, Some(456));
    assert_eq!(payload.session_id.as_deref(), Some("abc"));
}

#[test]
fn lock_payload_round_trips_through_its_text() {
    let text = format_capture_lock_payload(4242, "session-7", -15);
    assert_eq!(text, "owner_pid=4242\nstarted_epoch_ms=-15\nsession_id=session-7\n");
    let payload = parse_capture_lock_payload(&text);
    assert_eq!(payload.owner_pid, Some(4242));
    assert_eq!(payload.started_epoch_ms, Some(-15));
    assert_eq!(payload.session_id.as_deref(), Some("session-7"));
}

#[test]
fn lock_payload_from_empty_text_is_none() {
    assert!(lock_payload_from_text("").is_none());
    assert!(lock_payload_from_text("garbage\n").is_none());
    let bad_pid = parse_capture_lock_payload("owner_pid=notanumber\nsession_id=  \n");
    assert_eq!(bad_pid.owner_pid, None);
    assert_eq!(bad_pid.session_id, None);
    assert!(lock_payload_from_text("session_id=x\n").is_some());
}

#[test]
fn parse_single_pid_reads_first_non_empty_line() {
    assert_eq!(parse_single_pid("  \n1234\n"), Some(1234));
    assert_eq!(parse_single_pid("not-a-pid\n"), None);
}
