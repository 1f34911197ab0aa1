use rewinder::permission_assist::{mic_grant_outcome, output_dir_grant_outcome, screen_grant_outcome};
use rewinder::permissions::{MicrophonePermissionProbe, MicrophonePermissionStatus};
use rewinder::settings::SettingsDto;
use rewinder::state::{ClipperState, LifecycleState, PermissionStateDto, SaveStageDto};

fn permission(screen: bool) -> PermissionStateDto {
    PermissionStateDto {
        screen_recording_granted: screen,
        system_audio_granted: true,
        output_dir_writable: true,
        output_dir_permission_error: None,
        reason: if screen { None } else { Some("Screen Recording is off.".to_string()) },
    }
}

fn probe(status: MicrophonePermissionStatus, error: Option<&str>) -> MicrophonePermissionProbe {
    MicrophonePermissionProbe {
        status,
        error: error.map(str::to_string),
    }
}

#[test]
fn recheck_takes_fresh_permissions() {
    let mut state = ClipperState::new(SettingsDto::default(), permission(true));
    state.save_stage = SaveStageDto::Ready;
    state.last_audio_mode_error = Some("audio failed".to_string());
    state.mark_permissions_rechecked(permission(false), "granted".to_string(), None);
    assert_eq!(state.lifecycle_state, LifecycleState::PermissionRequired);
    assert_eq!(state.save_stage, SaveStageDto::Idle);
    assert_eq!(state.last_audio_mode_error, None);
    assert_eq!(state.mic_permission_status, "granted");
}

#[test]
fn granted_microphone_clears_a_microphone_error_only() {
    let mut state = ClipperState::new(SettingsDto::default(), permission(true));
    state.last_audio_mode_error = Some("Microphone permission unavailable".to_string());
    state.mark_microphone_permission_requested(
        permission(true),
        &probe(MicrophonePermissionStatus::Granted, None),
    );
    assert_eq!(state.last_audio_mode_error, None);
    assert_eq!(state.lifecycle_state, LifecycleState::Armed);

    state.last_audio_mode_error = Some("system audio stalled".to_string());
    state.mark_microphone_permission_requested(
        permission(true),
        &probe(MicrophonePermissionStatus::Granted, None),
    );
    assert_eq!(state.last_audio_mode_error.as_deref(), Some("system audio stalled"));
}

#[test]
fn denied_microphone_is_recorded() {
    let mut state = ClipperState::new(SettingsDto::default(), permission(true));
    let reported = state.mark_microphone_not_granted(&probe(
        MicrophonePermissionStatus::Denied,
        Some("Microphone permission denied"),
    ));
    assert_eq!(reported.reason.as_deref(), Some("Microphone permission denied"));
    assert_eq!(state.mic_permission_status, "denied");
    assert_eq!(
        state.last_audio_mode_error.as_deref(),
        Some("Microphone permission denied")
    );
}

#[test]
fn assistants_answer_by_outcome() {
    assert_eq!(
        output_dir_grant_outcome(true, None, "/Users/me/Downloads/Rewinder", false, false),
        (false, "Downloads access confirmed for /Users/me/Downloads/Rewinder.".to_string())
    );
    assert_eq!(
        output_dir_grant_outcome(false, None, "/d", true, false).0,
        true
    );
    assert_eq!(
        output_dir_grant_outcome(false, None, "/d", true, true),
        (false, "Access granted, capture resumed.".to_string())
    );
    assert_eq!(
        screen_grant_outcome(false, false, false).1,
        "Screen Recording access is denied. Open System Settings > Privacy & Security > Screen Recording and enable Rewinder (and Terminal in dev mode)."
    );
    assert_eq!(
        mic_grant_outcome(&probe(MicrophonePermissionStatus::NotDetermined, None), false, false, false),
        (false, "Microphone access is pending. Approve permission when prompted.".to_string())
    );
    assert_eq!(
        mic_grant_outcome(&probe(MicrophonePermissionStatus::Denied, None), true, false, false).1,
        "Microphone access is denied. Open System Settings > Privacy & Security > Microphone and enable Rewinder (and Terminal in dev mode)."
    );
    assert_eq!(
        mic_grant_outcome(&probe(MicrophonePermissionStatus::Unknown, Some("probe failed")), false, false, false).1,
        "probe failed"
    );
    assert_eq!(
        mic_grant_outcome(&probe(MicrophonePermissionStatus::Granted, None), true, false, true),
        (false, "Microphone access granted, capture resumed.".to_string())
    );
}

#[test]
fn startup_follows_the_replay_switch() {
    let mut state = ClipperState::new(SettingsDto::default(), permission(true));
    state.mark_initialized(&probe(MicrophonePermissionStatus::Denied, Some("no mic")));
    assert_eq!(state.lifecycle_state, LifecycleState::Armed);
    assert_eq!(state.capture_health, rewinder::state::CaptureHealthDto::Starting);
    assert_eq!(state.audio_health, rewinder::state::AudioHealthDto::Degraded);
    assert_eq!(state.mic_permission_status, "denied");
    let mut off = SettingsDto::default();
    off.replay_enabled = false;
    let mut state = ClipperState::new(off, permission(true));
    state.mark_initialized(&probe(MicrophonePermissionStatus::Granted, None));
    assert_eq!(state.lifecycle_state, LifecycleState::Disabled);
    assert_eq!(state.capture_health, rewinder::state::CaptureHealthDto::Stopped);
}
