use rewinder::log_tail::{
    capture_log_tail, capture_startup_log_tails, drop_partial_first_line, log_lines, tail_join,
    tail_window_start,
};

#[test]
fn log_tail_keeps_last_non_empty_trimmed_lines() {
    let content = "  first  \n\nsecond\r\n   \nthird\nfourth\n";
    assert_eq!(log_lines(content), vec!["first", "second", "third", "fourth"]);
    assert_eq!(capture_log_tail(content, 2).as_deref(), Some("third | fourth"));
    assert_eq!(
        capture_log_tail(content, 10).as_deref(),
        Some("first | second | third | fourth")
    );
    assert_eq!(capture_log_tail(" \n\n", 3), None);
}

#[test]
fn tail_join_says_none_without_lines() {
    assert_eq!(tail_join(&Vec::new(), 3), "none");
    let lines = vec!["a".to_string(), "b".to_string(), "c".to_string()];
    assert_eq!(tail_join(&lines, 2), "b | c");
}

#[test]
fn startup_tails_split_helper_and_ffmpeg_lines() {
    let content = "=== backend: ScreenCaptureKit bridge ===\n\
                   sck helper args: --fps 60\n\
                   stream started\n\
                   phase: ffmpeg_spawned\n\
                   Input #0, rawvideo\n\
                   frame=  10 fps=60\n";
    let (helper, ffmpeg, combined) = capture_startup_log_tails(content, 60);
    assert_eq!(helper, "=== backend: ScreenCaptureKit bridge === | sck helper args: --fps 60 | stream started");
    assert_eq!(ffmpeg, "Input #0, rawvideo | frame=  10 fps=60");
    assert!(combined.starts_with("=== backend"));
    assert_eq!(
        capture_startup_log_tails("", 5),
        (
            "no helper log lines".to_string(),
            "no ffmpeg log lines".to_string(),
            String::new()
        )
    );
}

#[test]
fn tail_windows_start_inside_the_file() {
    assert_eq!(tail_window_start(10_000, 4_096, 0), 5_904);
    assert_eq!(tail_window_start(10_000, 4_096, 7_000), 7_000);
    assert_eq!(tail_window_start(1_000, 4_096, 0), 0);
    assert_eq!(tail_window_start(1_000, 4_096, 5_000), 1_000);
    assert_eq!(drop_partial_first_line("tial line\nnext\n"), "next\n");
    assert_eq!(drop_partial_first_line("no newline"), "no newline");
}
