use rewinder::capture_errors::{
    classify_capture_failure, detect_capture_start_phase, is_capture_start_interrupted_error,
    is_transient_capture_error, is_user_stopped_sharing_error,
};

#[test]
fn classify_capture_timeout_sets_specific_code() {
    let (code, action) = classify_capture_failure(
            "capture_start_timeout: ... guidance: no first video frame marker; helper startup likely stalled",
        );
    assert_eq!(code, "capture_start_timeout");
    assert!(action
        .as_deref()
        .unwrap_or_default()
        .contains("No frames reached"));
}

#[test]
fn classify_mixed_mic_pipe_startup_stall_sets_specific_code() {
    let (code, action) = classify_capture_failure(
        "capture_start_timeout: reason_code=mic_pipe_startup_stalled ScreenCaptureKit pipeline produced no stable segments within 8s (mode=system_plus_mic). guidance: first video and system audio seen but no microphone path; mixed audio pipe startup likely stalled",
    );
    assert_eq!(code, "mic_pipe_startup_stalled");
    assert!(action
        .as_deref()
        .unwrap_or_default()
        .contains("retry mixed capture"));
}

#[test]
fn classify_mixed_mic_first_frame_stall_sets_specific_code() {
    let (code, action) = classify_capture_failure(
        "capture_start_timeout: reason_code=mic_first_frame_startup_stalled ScreenCaptureKit pipeline produced no stable segments within 8s (mode=system_plus_mic). guidance: microphone backend initialized but no first microphone frame reached ffmpeg; mixed mic startup likely stalled",
    );
    assert_eq!(code, "mic_first_frame_startup_stalled");
    assert!(action
        .as_deref()
        .unwrap_or_default()
        .contains("retry mixed capture"));
}

#[test]
fn classify_overload_sets_specific_code() {
    let (code, _) = classify_capture_failure("Capture overloaded; reducing quality profile.");
    assert_eq!(code, "capture_overloaded");
}

#[test]
fn classify_warmup_sets_not_ready_code() {
    let (code, _) = classify_capture_failure("Replay buffer warming up (500ms segments).");
    assert_eq!(code, "capture_not_ready");
}

#[test]
fn classify_user_stop_sets_user_stopped_sharing_code() {
    let (code, action) = classify_capture_failure(
            "user_stopped_sharing: ScreenCaptureKit capture was stopped by macOS screen-recording controls. log: stream started | first video frame delivered | ScreenCaptureKit stopped with error: Error Domain=com.apple.ScreenCaptureKit.SCStreamErrorDomain Code=-3805",
        );
    assert_eq!(code, "user_stopped_sharing");
    assert!(action
        .as_deref()
        .unwrap_or_default()
        .contains("Restart Capture"));
}

#[test]
fn classify_startup_interruption_sets_capture_start_interrupted_code() {
    let (code, action) = classify_capture_failure(
            "capture_start_interrupted: ScreenCaptureKit startup interrupted (status exit status: 70, mode=system_only). log: stream start requested | stream started | phase: stream_stopped_error domain=com.apple.ScreenCaptureKit.SCStreamErrorDomain code=-3805",
        );
    assert_eq!(code, "capture_start_interrupted");
    assert!(action
        .as_deref()
        .unwrap_or_default()
        .contains("retry automatically"));
}

#[test]
fn classify_userstopped_3817_maps_to_user_stopped_sharing() {
    let (code, action) = classify_capture_failure(
        "ScreenCaptureKit helper exited unexpectedly. log: stream started | phase: stream_stopped_error domain=com.apple.ScreenCaptureKit.SCStreamErrorDomain code=-3817 | phase: stream_stop_user_intent code=-3817",
    );
    assert_eq!(code, "user_stopped_sharing");
    assert!(action
        .as_deref()
        .unwrap_or_default()
        .contains("Restart Capture"));
}

#[test]
fn classify_exit_73_stream_stop_prefers_user_stopped_sharing_over_startup_retry() {
    let (code, action) = classify_capture_failure(
        "capture_start_timeout: stream start requested | stream started | phase: stream_stopped_error domain=com.apple.ScreenCaptureKit.SCStreamErrorDomain code=-3805 | phase: stream_stop_classified interrupted=true exit_code=73",
    );
    assert_eq!(code, "user_stopped_sharing");
    assert!(action
        .as_deref()
        .unwrap_or_default()
        .contains("Restart Capture"));
}

#[test]
fn classify_capture_owner_exists_sets_specific_code() {
    let (code, action) = classify_capture_failure(
        "capture_owner_exists: Another Rewinder instance is already capturing. owner_pid=1234",
    );
    assert_eq!(code, "capture_owner_exists");
    assert!(action
        .as_deref()
        .unwrap_or_default()
        .contains("Another Rewinder instance is already capturing"));
}

#[test]
fn classify_permission_denied_wins_over_interruption_markers() {
    let (code, action) = classify_capture_failure(
            "permission_required: screen recording permission is not granted. phase: stream_stopped_error domain=com.apple.ScreenCaptureKit.SCStreamErrorDomain code=-3805",
        );
    assert_eq!(code, "permission_required");
    assert!(action
        .as_deref()
        .unwrap_or_default()
        .contains("Screen Recording permission"));
}

#[test]
fn output_folder_permission_outranks_everything() {
    let (code, action) = classify_capture_failure(
        "output_dir_permission_required: user_stopped_sharing capture_start_timeout",
    );
    assert_eq!(code, "output_dir_permission_required");
    assert!(action.is_some());
}

#[test]
fn start_phase_reports_furthest_stage() {
    assert_eq!(detect_capture_start_phase(None), None);
    assert_eq!(detect_capture_start_phase(Some("nothing here")), None);
    assert_eq!(
        detect_capture_start_phase(Some("stream start requested | stream started")).as_deref(),
        Some("stream_started")
    );
    assert_eq!(
        detect_capture_start_phase(Some(
            "stream started | first video frame delivered | phase: first_segment_closed"
        ))
        .as_deref(),
        Some("first_segment")
    );
}

#[test]
fn error_predicates_follow_their_markers() {
    assert!(is_user_stopped_sharing_error("user_stopped_sharing: stopped"));
    assert!(!is_user_stopped_sharing_error("capture_start_timeout"));
    assert!(is_capture_start_interrupted_error("capture_start_interrupted: startup"));
    assert!(!is_capture_start_interrupted_error("capture_overloaded"));
    assert!(!is_transient_capture_error("permission_required: screen recording"));
}
