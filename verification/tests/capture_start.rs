use rewinder::capture_start::{
    capture_owner_exists_error, is_stale_lock_owner,
    all_modes_failed_error, audio_start_timeout_error, fallback_cause_code,
    ffmpeg_startup_exit_error, helper_runtime_exit_error, helper_startup_exit_error,
    mode_error_entry, prune_failure_step, ready_log_lines, stale_lock_reclaimed_line,
    startup_fallback_error, startup_timeout_error, StartupProbeReadings, StartupProbeState,
    StartupProbeVerdict,
};
use rewinder::startup::AudioMode;

fn probe_readings(elapsed_ms: u64) -> StartupProbeReadings {
    StartupProbeReadings {
        stable_segment_ready: false,
        segment_progress_ready: false,
        system_audio_marker_ready: false,
        soft_ready_markers_present: false,
        ffmpeg_exited: false,
        helper_exited: false,
        mic_frames_flowing: false,
        elapsed_ms,
    }
}

#[test]
fn startup_probe_waits_extends_and_times_out() {
    let mut probe = StartupProbeState::new(8_000);
    assert_eq!(probe.step(&probe_readings(100), true), StartupProbeVerdict::Waiting);
    let mut growing = probe_readings(8_000);
    growing.segment_progress_ready = true;
    assert_eq!(probe.step(&growing, true), StartupProbeVerdict::ExtendedSoftReady);
    assert_eq!(probe.timeout_limit_ms, 10_000);
    let mut mic = probe_readings(10_000);
    mic.segment_progress_ready = true;
    mic.mic_frames_flowing = true;
    assert_eq!(probe.step(&mic, true), StartupProbeVerdict::ExtendedMicFrames);
    assert_eq!(probe.timeout_limit_ms, 12_000);
    let mut late = probe_readings(12_000);
    late.segment_progress_ready = true;
    assert_eq!(probe.step(&late, true), StartupProbeVerdict::TimeoutNoAudio);
    assert_eq!(probe.step(&probe_readings(12_000), true), StartupProbeVerdict::TimeoutNoSegments);
}

#[test]
fn startup_probe_reports_readiness_and_exits() {
    let mut probe = StartupProbeState::new(8_000);
    let mut ready = probe_readings(10);
    ready.stable_segment_ready = true;
    ready.system_audio_marker_ready = true;
    assert_eq!(
        probe.step(&ready, true),
        StartupProbeVerdict::Ready { stable_segment: true }
    );
    let mut soft = probe_readings(10);
    soft.soft_ready_markers_present = true;
    assert_eq!(
        probe.step(&soft, true),
        StartupProbeVerdict::Ready { stable_segment: false }
    );
    let mut exited = probe_readings(10);
    exited.ffmpeg_exited = true;
    exited.helper_exited = true;
    assert_eq!(probe.step(&exited, false), StartupProbeVerdict::FfmpegExited);
    assert_eq!(
        ready_log_lines(false, true),
        vec![
            "phase: first_audio_path_ready",
            "phase: startup_soft_ready_no_stable_segment_yet",
            "phase: first_segment_closed"
        ]
    );
}

#[test]
fn failed_attempts_are_explained() {
    assert_eq!(
        ffmpeg_startup_exit_error("exit status: 1", AudioMode::SystemOnly, "tail"),
        "ffmpeg encoder exited during startup with status exit status: 1 (mode=system_only). log: tail"
    );
    assert!(helper_startup_exit_error(
        Some(73),
        "exit status: 73",
        AudioMode::SystemOnly,
        "phase: stream_stopped_error domain=x code=-3805"
    )
    .starts_with("user_stopped_sharing: "));
    assert!(helper_startup_exit_error(
        Some(70),
        "exit status: 70",
        AudioMode::SystemOnly,
        "stream started | phase: stream_stopped_error domain=com.apple.ScreenCaptureKit.SCStreamErrorDomain code=-3805"
    )
    .starts_with("capture_start_interrupted: "));
    assert_eq!(
        helper_startup_exit_error(Some(1), "exit status: 1", AudioMode::VideoOnly, "x"),
        "ScreenCaptureKit helper exited during startup with status exit status: 1 (mode=video_only). log: x"
    );
    let timeout = startup_timeout_error("8s", AudioMode::SystemOnly, "h", "f", "nothing");
    assert_eq!(
        timeout,
        "capture_start_timeout: reason_code=helper_startup_stalled ScreenCaptureKit pipeline \
         produced no stable segments within 8s (mode=system_only). guidance: no first video frame \
         marker; helper startup likely stalled. helper_tail: h. ffmpeg_tail: f"
    );
    assert!(audio_start_timeout_error("8s", AudioMode::SystemOnly, "h", "f", "nothing")
        .starts_with("audio_start_timeout: ScreenCaptureKit produced video segments"));
}

#[test]
fn fallback_errors_name_the_microphone_stall() {
    let errors = vec![
        mode_error_entry(AudioMode::SystemPlusMic, "avcapture", "capture_start_timeout: reason_code=mic_pipe_startup_stalled"),
    ];
    assert_eq!(
        errors[0],
        "system_plus_mic [avcapture] => capture_start_timeout: reason_code=mic_pipe_startup_stalled"
    );
    assert_eq!(
        startup_fallback_error(AudioMode::SystemOnly, "system_plus_mic", &errors).as_deref(),
        Some("mic_pipe_startup_stalled: mixed microphone pipe startup stalled before stable segments; continuing with system audio only.")
    );
    assert_eq!(startup_fallback_error(AudioMode::SystemPlusMic, "system_plus_mic", &errors), None);
    let plain = vec!["a".to_string(), "b".to_string()];
    assert_eq!(
        startup_fallback_error(AudioMode::VideoOnly, "system_only", &plain).as_deref(),
        Some("b")
    );
    assert_eq!(fallback_cause_code("x mic_first_frame_startup_stalled"), Some("mic_first_frame_startup_stalled"));
    assert_eq!(fallback_cause_code("other"), None);
    assert_eq!(
        all_modes_failed_error(&plain, "tail"),
        "failed to start capture after trying all audio modes: a || b. ffmpeg log: tail"
    );
}

#[test]
fn running_capture_watch() {
    let denied = "output_dir_permission_required: failed to read live segment directory: denied";
    assert_eq!(prune_failure_step(0, Some(denied)), (1, None));
    assert_eq!(prune_failure_step(1, Some(denied)), (2, None));
    assert_eq!(
        prune_failure_step(2, Some(denied)),
        (
            3,
            Some("output_dir_permission_required: failed to read live segment directory: denied".to_string())
        )
    );
    assert_eq!(prune_failure_step(2, Some("disk hiccup")), (0, None));
    assert_eq!(prune_failure_step(2, None), (0, None));
    assert!(helper_runtime_exit_error(Some(73), "exit status: 73", "")
        .starts_with("user_stopped_sharing: ScreenCaptureKit capture was stopped"));
    assert_eq!(
        helper_runtime_exit_error(Some(1), "exit status: 1", ""),
        "ScreenCaptureKit helper exited unexpectedly with status exit status: 1"
    );
    assert_eq!(
        stale_lock_reclaimed_line(Some(42), None),
        "phase: stale_capture_lock_reclaimed owner_pid=42 session_id=unknown_session"
    );
}

#[test]
fn lock_conflicts_name_the_owner() {
    assert_eq!(
        capture_owner_exists_error(Some(1234), Some("abc"), "/x/capture.lock", "busy"),
        "capture_owner_exists: Another Rewinder instance is already capturing. owner_pid=1234 session_id=abc lock_path=/x/capture.lock lock_err=busy"
    );
    assert_eq!(
        capture_owner_exists_error(None, None, "/x/capture.lock", "busy"),
        "capture_owner_exists: Another Rewinder instance is already capturing. lock_path=/x/capture.lock lock_err=busy"
    );
    assert!(is_stale_lock_owner(Some(5), 9, false));
    assert!(!is_stale_lock_owner(Some(9), 9, false));
    assert!(!is_stale_lock_owner(Some(5), 9, true));
    assert!(!is_stale_lock_owner(None, 9, false));
}

#[test]
fn pruning_keeps_the_buffer_and_two_margins() {
    assert_eq!(rewinder::capture_start::keep_segment_count_for_duration(60, 500), 132);
    assert_eq!(rewinder::capture_start::keep_segment_count_for_duration(0, 500), 13);
    assert_eq!(rewinder::capture_start::keep_segment_count_for_duration(1, 300), 16);
    assert_eq!(rewinder::capture_start::segments_to_prune(150, 60, 500), 6);
    assert_eq!(rewinder::capture_start::segments_to_prune(144, 60, 500), 0);
    assert_eq!(rewinder::capture_start::segments_to_prune(200, 60, 100), 0);
}

#[test]
fn reaped_workers_are_logged() {
    assert_eq!(
        rewinder::capture_start::reap_log_lines("ffmpeg", 42, false, Some("exit status: 0"), false),
        vec!["phase: process_reaped name=ffmpeg pid=42 forced_kill=false status=exit status: 0"]
    );
    assert_eq!(
        rewinder::capture_start::reap_log_lines("sck_helper", 7, true, None, false),
        vec![
            "phase: process_reaped name=sck_helper pid=7 forced_kill=true status=unknown",
            "phase: process_reap_incomplete name=sck_helper pid=7 forced_kill=true status_known=false"
        ]
    );
}

#[test]
fn pruning_deletes_the_oldest_segments_by_write_time() {
    prune_listing_scenario();
}

fn listed(modified_ms: u64) -> rewinder::replay_window::SegmentEntry {
    rewinder::replay_window::SegmentEntry {
        modified_ms,
        session_id: Some(vec!['a']),
        segment_index: None,
        size_bytes: 1,
    }
}

fn prune_listing_scenario() {
    // keep = ceil(1 s / 500 ms) + 12 + 12 = 26; listed newest first
    let entries: Vec<_> = (0..30_u64).rev().map(|i| listed(i * 500)).collect();
    let deleted = rewinder::capture_start::segments_to_delete(&entries, 1, 500);
    assert_eq!(deleted, vec![29, 28, 27, 26]);
    let few: Vec<_> = (0..5_u64).map(|i| listed(i * 500)).collect();
    assert!(rewinder::capture_start::segments_to_delete(&few, 1, 500).is_empty());
    assert_eq!(
        rewinder::capture_start::prune_old_segments(Ok(&entries), 1, 500),
        Ok(vec![29, 28, 27, 26])
    );
    assert_eq!(
        rewinder::capture_start::prune_old_segments(Err(("Permission denied", true)), 1, 500),
        Err("output_dir_permission_required: failed to list segment dir: Permission denied".to_string())
    );
    assert_eq!(
        rewinder::capture_start::segment_dir_error("failed to list segment dir", "gone", false),
        "failed to list segment dir: gone"
    );
}
