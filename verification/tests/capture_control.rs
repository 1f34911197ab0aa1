use rewinder::capture_control::{save_blocker_with_runtime, CaptureHold};
use rewinder::settings::SettingsDto;
use rewinder::state::{
    AudioHealthDto, CaptureHealthDto, ClipperState, LifecycleState, PermissionStateDto,
};

fn sample_permission_in_capture_control() -> PermissionStateDto {
    PermissionStateDto {
        screen_recording_granted: true,
        system_audio_granted: true,
        output_dir_writable: true,
        output_dir_permission_error: None,
        reason: None,
    }
}

#[test]
fn save_blocker_with_runtime_returns_capture_paused() {
    let mut hold = CaptureHold::new();
    hold.set_paused(
        true,
        Some("Capture paused from macOS screen recording controls. Click Resume Capture.".to_string()),
    );
    let mut state = ClipperState::new(SettingsDto::default(), sample_permission_in_capture_control());
    state.lifecycle_state = LifecycleState::Armed;
    state.capture_health = CaptureHealthDto::Running;
    state.system_audio_path_ready = true;
    let blocker = save_blocker_with_runtime(&state, &hold, 0, false).expect("expected blocker");
    assert_eq!(blocker.code, "capture_paused");
    assert!(!blocker.retryable);
}

#[test]
fn save_blocker_with_runtime_returns_user_stopped_sharing_when_disarmed() {
    let mut hold = CaptureHold::new();
    hold.disarm_for_user_stop(Some(
        "Screen recording was interrupted. Click Restart Capture to resume.".to_string(),
    ));
    let mut state = ClipperState::new(SettingsDto::default(), sample_permission_in_capture_control());
    state.settings.replay_enabled = false;
    state.lifecycle_state = LifecycleState::Disabled;
    let blocker = save_blocker_with_runtime(&state, &hold, 0, false).expect("expected blocker");
    assert_eq!(blocker.code, "user_stopped_sharing");
    assert!(!blocker.retryable);
}

#[test]
fn missing_system_audio_is_retried_until_the_hard_fail_time() {
    let hold = CaptureHold::new();
    let mut state = ClipperState::new(SettingsDto::default(), sample_permission_in_capture_control());
    state.lifecycle_state = LifecycleState::Armed;
    state.capture_health = CaptureHealthDto::Running;
    state.system_audio_path_ready = false;
    let blocker = save_blocker_with_runtime(&state, &hold, 1_000, true).expect("blocker");
    assert_eq!(blocker.code, "audio_warming_up");
    assert!(blocker.retryable);
    assert_eq!(
        blocker.message,
        "System audio path is reconnecting. Try again in a moment."
    );
    let blocker = save_blocker_with_runtime(&state, &hold, 1_000, false).expect("blocker");
    assert_eq!(
        blocker.message,
        "System audio path is recovering. Replay will auto-save when ready."
    );
    let blocker = save_blocker_with_runtime(&state, &hold, 8_000, false).expect("blocker");
    assert_eq!(blocker.code, "system_audio_unavailable");
    assert!(!blocker.retryable);
    state.system_audio_path_ready = true;
    assert!(save_blocker_with_runtime(&state, &hold, 8_000, false).is_none());
}

#[test]
fn shutdown_for_app_exit_disables_replay_and_clears_capture_runtime_state() {
    let mut state = ClipperState::new(SettingsDto::default(), sample_permission_in_capture_control());
    state.settings.replay_enabled = true;
    state.lifecycle_state = LifecycleState::Armed;
    state.capture_health = CaptureHealthDto::Running;
    state.system_audio_path_ready = true;
    state.mic_path_ready = true;
    state.mic_frames_seen = true;
    state.capture_owner_pid = Some(4242);
    state.audio_path_ready = true;
    state.first_audio_frame_seen = true;
    state.save_ready = true;
    let mut hold = CaptureHold::new();
    hold.set_paused(true, None);

    hold.clear();
    state.mark_shutdown_for_app_exit("unit_test_shutdown");

    assert!(!hold.paused_by_user);
    assert!(!state.settings.replay_enabled);
    assert_eq!(state.lifecycle_state, LifecycleState::Disabled);
    assert_eq!(state.capture_health, CaptureHealthDto::Stopped);
    assert!(!state.system_audio_path_ready);
    assert!(!state.mic_path_ready);
    assert!(!state.mic_frames_seen);
    assert!(state.capture_owner_pid.is_none());
    assert!(!state.audio_path_ready);
    assert!(!state.first_audio_frame_seen);
    assert!(!state.save_ready);
    assert_eq!(
        state.last_error.as_deref(),
        Some("App exiting (unit_test_shutdown).")
    );
    assert_eq!(
        state.degrade_reason.as_deref(),
        Some("App shutdown requested (unit_test_shutdown).")
    );
}

#[test]
fn pausing_and_disarming_stop_capture() {
    let mut state = ClipperState::new(SettingsDto::default(), sample_permission_in_capture_control());
    state.capture_health = CaptureHealthDto::Running;
    state.guard_state = "protecting".to_string();
    let message = state.mark_paused_by_user(None);
    assert_eq!(message, "Capture paused. Rewinder is not recording in the background.");
    assert_eq!(state.capture_health, CaptureHealthDto::Stopped);
    assert_eq!(state.audio_health, AudioHealthDto::Unavailable);
    assert_eq!(state.guard_state, "idle");
    assert_eq!(state.last_error.as_deref(), Some(message.as_str()));

    let mut hold = CaptureHold::new();
    let disarm = hold.disarm_for_user_stop(None);
    assert_eq!(disarm, "Screen recording was interrupted. Click Restart Capture to resume.");
    state.mark_disarmed_for_user_stop(disarm.clone());
    assert!(!state.settings.replay_enabled);
    assert_eq!(state.lifecycle_state, LifecycleState::Disabled);
    assert_eq!(
        state.degrade_reason.as_deref(),
        Some("Capture stopped by user action from macOS controls.")
    );
}
