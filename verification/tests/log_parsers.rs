use rewinder::log_parsers::{
    parse_latest_helper_thermal_state, parse_latest_mic_attach_runtime_state,
    parse_latest_mic_backend_error, parse_latest_mic_recovery_state,
    parse_latest_mic_samples_per_sec, parse_latest_selected_microphone_name,
    parse_latest_system_memory_pressure_level, parse_latest_video_frame_drop_total,
    parse_latest_video_queue_overflow_count, MicAttachRuntimeState,
};

#[test]
fn parses_latest_mic_samples_per_sec_marker() {
    let log = "mic_samples_per_sec=48000\nnoise\nmic_samples_per_sec=47912\n";
    assert_eq!(parse_latest_mic_samples_per_sec(log), Some(47_912));
}

#[test]
fn parses_latest_mic_attach_runtime_state_marker() {
    let log = "phase: mic_silence_filler_active\nphase: mic_live_frames_detected\n";
    assert_eq!(
        parse_latest_mic_attach_runtime_state(log),
        Some(MicAttachRuntimeState::Live)
    );

    let degraded_log = "phase: mic_live_frames_detected\nphase: mic_live_frames_lost\n";
    assert_eq!(
        parse_latest_mic_attach_runtime_state(degraded_log),
        Some(MicAttachRuntimeState::Degraded)
    );
}

#[test]
fn parses_latest_video_counters() {
    let log = "video_output_fps=58.3\nvideo_frame_drop_total=4 reason=status_1\nvideo_queue_overflow_count=2\nvideo_output_fps=59.8\nvideo_frame_drop_total=7 reason=queue_overflow\nvideo_queue_overflow_count=3\n";
    assert_eq!(parse_latest_video_frame_drop_total(log), Some(7));
    assert_eq!(parse_latest_video_queue_overflow_count(log), Some(3));
}

#[test]
fn parses_latest_system_pressure_markers() {
    let log = "system_memory_pressure=normal\nthermal_state=fair\nsystem_memory_pressure=warning\nthermal_state=serious\n";
    assert_eq!(
        parse_latest_system_memory_pressure_level(log),
        Some("warning".to_string())
    );
    assert_eq!(
        parse_latest_helper_thermal_state(log),
        Some("serious".to_string())
    );
}

#[test]
fn parses_latest_mic_backend_retry_and_error_markers() {
    let log = "phase: mic_backend_error backend=avcapture code=mic_device_missing reason=selected microphone disconnected\nphase: mic_backend_retry_scheduled backend=avcapture reason=mic_device_missing delay_ms=15000\n";
    assert_eq!(
        parse_latest_mic_recovery_state(log),
        Some("retrying".to_string())
    );
    assert_eq!(
        parse_latest_mic_backend_error(log),
        Some((
            "mic_device_missing".to_string(),
            "selected microphone disconnected".to_string()
        ))
    );
}

#[test]
fn parses_latest_mic_backend_ready_markers() {
    let log = "phase: mic_backend_attempt backend=avcapture device_id=123 device_name=USB Mic\nphase: mic_backend_ready backend=avcapture device_id=123 device_name=USB Mic\n";
    assert_eq!(parse_latest_mic_recovery_state(log), Some("ok".to_string()));
    assert_eq!(
        parse_latest_selected_microphone_name(log),
        Some("USB Mic".to_string())
    );
}

#[test]
fn parsers_return_none_without_markers() {
    assert_eq!(parse_latest_mic_samples_per_sec("no markers here\n"), None);
    assert_eq!(parse_latest_mic_samples_per_sec("mic_samples_per_sec=bad\n"), None);
    assert_eq!(parse_latest_video_frame_drop_total(""), None);
    assert_eq!(parse_latest_mic_backend_error("phase: other\n"), None);
}
