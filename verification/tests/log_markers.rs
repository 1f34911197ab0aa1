use rewinder::log_markers::{
    has_first_audio_frame_marker, has_first_system_audio_frame_marker, has_mic_path_ready_marker,
    has_startup_soft_ready_markers, helper_exit_indicates_user_stopped_sharing,
    is_startup_interrupted_log, is_user_stopped_sharing_log, startup_timeout_guidance,
    startup_timeout_reason_code,
};

#[test]
fn detects_first_audio_marker_from_system_audio_line() {
    assert!(has_first_audio_frame_marker(
        "stream started\nfirst system audio frame delivered\n"
    ));
}

#[test]
fn detects_first_audio_marker_from_mic_line() {
    assert!(has_first_audio_frame_marker(
        "stream started\nfirst microphone audio frame delivered\n"
    ));
}

#[test]
fn detects_system_audio_ready_from_pipe_connected_marker() {
    assert!(has_first_system_audio_frame_marker(
        "stream started\nphase: system_audio_pipe_connected\n"
    ));
}

#[test]
fn does_not_detect_audio_marker_when_missing() {
    assert!(!has_first_audio_frame_marker(
        "stream started\nfirst video frame delivered\n"
    ));
}

#[test]
fn startup_soft_ready_detects_mux_open_with_video_and_audio_markers() {
    let log = "stream started\nfirst video frame delivered\nphase: system_audio_pipe_connected\n[segment @ 0x111] Opening '/tmp/seg_00000000.mp4' for writing\n";
    assert!(has_startup_soft_ready_markers(log, true));
}

#[test]
fn startup_soft_ready_requires_mux_open_marker() {
    let log = "stream started\nfirst video frame delivered\nphase: system_audio_pipe_connected\n";
    assert!(!has_startup_soft_ready_markers(log, true));
}

#[test]
fn detects_startup_interrupted_from_scstream_error_before_first_video() {
    let log = "stream start requested\nstream started\nphase: stream_stopped_error domain=com.apple.ScreenCaptureKit.SCStreamErrorDomain code=-3805\nScreenCaptureKit stopped with error: Error Domain=com.apple.ScreenCaptureKit.SCStreamErrorDomain Code=-3805 \"Failed during stream due to application connection being interrupted\"\n";
    assert!(is_startup_interrupted_log(log));
    assert!(!is_user_stopped_sharing_log(log));
}

#[test]
fn detects_user_stopped_sharing_from_scstream_interrupted_log() {
    let log = "stream started\nfirst video frame delivered\nScreenCaptureKit stopped with error: Error Domain=com.apple.ScreenCaptureKit.SCStreamErrorDomain Code=-3805 \"Failed during stream due to application connection being interrupted\"\n";
    assert!(is_user_stopped_sharing_log(log));
    assert!(!is_startup_interrupted_log(log));
}

#[test]
fn helper_exit_73_with_stop_markers_maps_to_user_stopped_sharing() {
    let log = "stream started\nphase: stream_stopped_error domain=com.apple.ScreenCaptureKit.SCStreamErrorDomain code=-3805\nphase: stream_stop_classified interrupted=true exit_code=73\n";
    assert!(helper_exit_indicates_user_stopped_sharing(Some(73), log));
}

#[test]
fn detects_user_stopped_sharing_from_userstopped_code_even_during_warmup() {
    let log = "stream start requested\nstream started\nphase: stream_stopped_error domain=com.apple.ScreenCaptureKit.SCStreamErrorDomain code=-3817\n";
    assert!(is_user_stopped_sharing_log(log));
    assert!(!is_startup_interrupted_log(log));
}

#[test]
fn detects_user_stopped_sharing_from_user_intent_marker() {
    let log = "stream started\nphase: stream_stop_user_intent code=-3817\nphase: stream_stop_classified interrupted=true exit_code=73\n";
    assert!(is_user_stopped_sharing_log(log));
}

#[test]
fn detects_user_stopped_sharing_from_system_stopped_code() {
    let log = "stream started\nfirst video frame delivered\nphase: stream_stopped_error domain=com.apple.ScreenCaptureKit.SCStreamErrorDomain code=-3821\n";
    assert!(is_user_stopped_sharing_log(log));
    assert!(!is_startup_interrupted_log(log));
}

#[test]
fn helper_exit_without_stop_signature_does_not_map_to_user_stopped_sharing() {
    let log = "stream started\nsome unrelated log line\n";
    assert!(!helper_exit_indicates_user_stopped_sharing(Some(73), log));
}

#[test]
fn mic_path_ready_marker_includes_silence_filler_phase() {
    assert!(has_mic_path_ready_marker(
        "stream started\nphase: mic_silence_filler_active\n"
    ));
}

#[test]
fn startup_timeout_diagnosis_detects_mixed_mic_pipe_stall() {
    let log = "=== audio mode: system_plus_mic mic_backend=sck_native ===\nstream started\nfirst video frame delivered\nfirst system audio frame delivered\n";
    assert_eq!(startup_timeout_reason_code(log), "mic_pipe_startup_stalled");
    assert_eq!(
        startup_timeout_guidance(log),
        "first video and system audio seen but no microphone path; mixed audio pipe startup likely stalled"
    );
}

#[test]
fn startup_timeout_diagnosis_detects_mixed_mic_first_frame_stall() {
    let log = "=== audio mode: system_plus_mic mic_backend=sck_native ===\nstream started\nfirst video frame delivered\nfirst system audio frame delivered\nphase: mic_audio_pipe_connected\nphase: mic_backend_ready backend=sck_native device_id=default device_name=External Microphone\nmic source format: sample_rate=48000 channels=1 float=true interleaved=true bits=32\nmic converter configured: 48000hz-1ch -> 48000hz-2ch\n";
    assert_eq!(
        startup_timeout_reason_code(log),
        "mic_first_frame_startup_stalled"
    );
    assert_eq!(
        startup_timeout_guidance(log),
        "microphone backend initialized but no first microphone frame reached ffmpeg; mixed mic startup likely stalled"
    );
}

#[test]
fn helper_exit_with_other_code_is_not_a_user_stop() {
    let log = "stream started\nphase: stream_stop_classified interrupted=true exit_code=73\n";
    assert!(!helper_exit_indicates_user_stopped_sharing(Some(1), log));
    assert!(!helper_exit_indicates_user_stopped_sharing(None, "stream started\n"));
}
