use rewinder::settings::SettingsDto;
use rewinder::settings_apply::{capture_settings_changed, hotkey_update_failure, settings_apply_failure};
use rewinder::state::{CaptureHealthDto, ClipperState, LifecycleState, PermissionStateDto, SaveStageDto};

fn granted_in_settings_apply() -> PermissionStateDto {
    PermissionStateDto {
        screen_recording_granted: true,
        system_audio_granted: true,
        output_dir_writable: true,
        output_dir_permission_error: None,
        reason: None,
    }
}

#[test]
fn replay_length_alone_does_not_change_the_capture() {
    let previous = SettingsDto::default();
    let mut candidate = previous.clone();
    candidate.replay_duration_secs = 45;
    assert!(!capture_settings_changed(&previous, &candidate));
    candidate.fps = 30;
    assert!(capture_settings_changed(&previous, &candidate));
    let mut mic = previous.clone();
    mic.selected_microphone_id = Some("usb".to_string());
    assert!(capture_settings_changed(&previous, &mic));
}

#[test]
fn new_settings_restart_a_running_capture_when_needed() {
    let mut state = ClipperState::new(SettingsDto::default(), granted_in_settings_apply());
    let mut candidate = SettingsDto::default();
    candidate.fps = 30;
    state.save_stage = SaveStageDto::Ready;
    let restart = state.apply_settings(candidate, true, true, false);
    assert!(restart);
    assert_eq!(state.lifecycle_state, LifecycleState::Armed);
    assert_eq!(state.capture_health, CaptureHealthDto::Restarting);
    assert_eq!(state.effective_fps, 30);
    assert_eq!(state.requested_fps, 30);
    assert_eq!(state.guard_state, "monitoring");
    assert_eq!(state.save_stage, SaveStageDto::Idle);
}

#[test]
fn unchanged_capture_keeps_running() {
    let mut state = ClipperState::new(SettingsDto::default(), granted_in_settings_apply());
    state.capture_health = CaptureHealthDto::Running;
    let restart = state.apply_settings(SettingsDto::default(), false, true, false);
    assert!(!restart);
    assert_eq!(state.capture_health, CaptureHealthDto::Running);
    assert_eq!(state.last_error, None);
}

#[test]
fn switching_replay_off_stops_the_capture() {
    let mut state = ClipperState::new(SettingsDto::default(), granted_in_settings_apply());
    let mut candidate = SettingsDto::default();
    candidate.replay_enabled = false;
    let restart = state.apply_settings(candidate, true, true, false);
    assert!(restart);
    assert_eq!(state.lifecycle_state, LifecycleState::Disabled);
    assert_eq!(state.capture_health, CaptureHealthDto::Stopped);
    assert_eq!(state.guard_state, "idle");
}

#[test]
fn resuming_and_failing_to_start() {
    let mut state = ClipperState::new(SettingsDto::default(), granted_in_settings_apply());
    state.last_error = Some("paused".to_string());
    state.mark_resuming();
    assert_eq!(state.last_error, None);
    assert_eq!(state.capture_health, CaptureHealthDto::Starting);
    state.mark_capture_start_failed("boom".to_string());
    assert_eq!(state.capture_health, CaptureHealthDto::Degraded);
    assert_eq!(
        settings_apply_failure("boom", Some("again")),
        "settings: apply failed: boom; rollback restart failed: again"
    );
    assert_eq!(settings_apply_failure("boom", None), "settings: apply failed: boom");
    assert_eq!(
        hotkey_update_failure("settings", "taken"),
        "settings: hotkey update failed: taken"
    );
}

#[test]
fn rollback_restores_previous_settings() {
    let mut state = ClipperState::new(SettingsDto::default(), granted_in_settings_apply());
    let mut candidate = SettingsDto::default();
    candidate.fps = 30;
    state.apply_settings(candidate, true, true, false);
    state.rollback_settings(SettingsDto::default());
    assert_eq!(state.settings.fps, 60);
    assert_eq!(state.effective_fps, 60);
    assert_eq!(state.capture_health, CaptureHealthDto::Starting);
    assert_eq!(state.audio_health, rewinder::state::AudioHealthDto::Degraded);
    assert_eq!(state.lifecycle_state, LifecycleState::Armed);
}
