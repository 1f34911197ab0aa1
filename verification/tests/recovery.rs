use rewinder::guard::CaptureRestartReason;
use rewinder::recovery::{
    audio_mode_change_reason, guard_state_after_transition, guard_transition_action,
    is_audio_failure_code, is_hard_guard_reason_code, next_retry_delay_secs, pause_message,
    recovery_sleep_ms, restart_failure_plan, RestartFailurePlan,
};
use rewinder::settings::SettingsDto;
use rewinder::state::{
    boot_state, AudioHealthDto, CaptureHealthDto, ClipperState, LifecycleState,
    PermissionStateDto,
};

fn granted_in_recovery() -> PermissionStateDto {
    PermissionStateDto {
        screen_recording_granted: true,
        system_audio_granted: true,
        output_dir_writable: true,
        output_dir_permission_error: None,
        reason: None,
    }
}

#[test]
fn retry_backoff_doubles_up_to_fifteen_seconds() {
    assert_eq!(next_retry_delay_secs(1), 2);
    assert_eq!(next_retry_delay_secs(4), 8);
    assert_eq!(next_retry_delay_secs(8), 15);
    assert_eq!(next_retry_delay_secs(15), 15);
}

#[test]
fn recovery_loop_wakes_sooner_for_pending_work() {
    assert_eq!(recovery_sleep_ms(1_000, false, false), 1_000);
    assert_eq!(recovery_sleep_ms(1_000, true, false), 500);
    assert_eq!(recovery_sleep_ms(1_000, true, true), 250);
    assert_eq!(recovery_sleep_ms(100, true, true), 100);
}

#[test]
fn hard_reasons_and_guard_transitions() {
    assert!(is_hard_guard_reason_code(Some("thermal_critical")));
    assert!(!is_hard_guard_reason_code(Some("thermal_serious")));
    assert!(!is_hard_guard_reason_code(None));
    assert_eq!(guard_state_after_transition(CaptureRestartReason::Overloaded, 0), "protecting");
    assert_eq!(
        guard_state_after_transition(CaptureRestartReason::ProfileRecovered, 0),
        "monitoring"
    );
    assert_eq!(
        guard_state_after_transition(CaptureRestartReason::ProfileRecovered, 1),
        "protecting"
    );
    assert_eq!(guard_transition_action(CaptureRestartReason::Overloaded), "step_down");
    assert_eq!(guard_transition_action(CaptureRestartReason::ProfileRecovered), "step_up");
}

#[test]
fn audio_mode_change_explains_mic_stalls() {
    assert_eq!(
        audio_mode_change_reason(Some("reason_code=mic_pipe_startup_stalled")),
        "Microphone startup stalled; continuing with system audio only."
    );
    assert_eq!(audio_mode_change_reason(None), "Capture auto-degraded for stability.");
    assert!(is_audio_failure_code("mic_start_timeout"));
    assert!(!is_audio_failure_code("capture_overloaded"));
}

#[test]
fn failed_restarts_are_answered_by_their_code() {
    assert_eq!(
        restart_failure_plan("capture_start_interrupted"),
        RestartFailurePlan::RetryInterrupted
    );
    assert_eq!(
        restart_failure_plan("user_stopped_sharing"),
        RestartFailurePlan::DisarmUserStopped
    );
    assert_eq!(restart_failure_plan("capture_paused"), RestartFailurePlan::PauseCapture);
    assert_eq!(
        restart_failure_plan("capture_owner_exists"),
        RestartFailurePlan::PauseForOwnerConflict
    );
    assert_eq!(
        restart_failure_plan("output_dir_permission_required"),
        RestartFailurePlan::OutputDirPermission
    );
    assert_eq!(restart_failure_plan("capture_start_timeout"), RestartFailurePlan::Degraded);
    assert!(pause_message(RestartFailurePlan::PauseCapture)
        .unwrap_or_default()
        .contains("Click Resume Capture"));
    assert_eq!(pause_message(RestartFailurePlan::Degraded), None);
}

#[test]
fn restart_state_transitions() {
    let mut state = ClipperState::new(SettingsDto::default(), granted_in_recovery());
    state.mark_restarting("Capture process exited; restarting.".to_string());
    assert_eq!(state.capture_health, CaptureHealthDto::Restarting);
    assert_eq!(state.capture_restart_count, 1);
    assert_eq!(state.capture_load_state, "recovering");
    assert!(!state.save_ready);

    state.mark_crash_loop();
    assert!(state.capture_crash_loop);
    assert_eq!(state.capture_health, CaptureHealthDto::Degraded);

    state.mark_restart_succeeded();
    assert_eq!(state.capture_health, CaptureHealthDto::Running);
    assert_eq!(state.audio_health, AudioHealthDto::Healthy);
    assert!(!state.capture_crash_loop);

    state.mark_restart_failed("mic_start_timeout", "Microphone did not start.".to_string());
    assert_eq!(state.capture_health, CaptureHealthDto::Degraded);
    assert_eq!(state.audio_health, AudioHealthDto::Unavailable);
    assert_eq!(state.last_audio_mode_error.as_deref(), Some("Microphone did not start."));
    assert_eq!(state.lifecycle_state, LifecycleState::Armed);

    state.mark_output_dir_denied("Retry later.".to_string(), "denied".to_string());
    assert!(!state.permission.output_dir_writable);
    assert_eq!(state.lifecycle_state, LifecycleState::PermissionRequired);
    assert_eq!(state.capture_health, CaptureHealthDto::Stopped);
}

#[test]
fn boot_state_follows_permissions_and_switch() {
    let mut permission = granted_in_recovery();
    assert_eq!(boot_state(&permission, true), LifecycleState::Armed);
    assert_eq!(boot_state(&permission, false), LifecycleState::Disabled);
    permission.system_audio_granted = false;
    assert_eq!(boot_state(&permission, true), LifecycleState::PermissionRequired);
}

#[test]
fn guard_transitions_are_recorded_once() {
    let mut state = ClipperState::new(SettingsDto::default(), granted_in_recovery());
    let codes = vec!["output_fps_low".to_string()];
    assert!(state.record_guard_transition(
        "protecting",
        Some("output_fps_low".to_string()),
        codes.clone(),
        None,
        1_000
    ));
    assert_eq!(state.guard_state, "protecting");
    assert_eq!(state.guard_last_transition_at_epoch_ms, Some(1_000));
    assert!(!state.record_guard_transition(
        "protecting",
        Some("output_fps_low".to_string()),
        codes,
        None,
        2_000
    ));
    assert_eq!(state.guard_last_transition_at_epoch_ms, Some(1_000));
}

#[test]
fn recovery_answers_each_restart_reason() {
    let action = rewinder::recovery::recovery_action;
    assert_eq!(
        action(CaptureRestartReason::Overloaded, true, None, false),
        rewinder::recovery::RecoveryAction::HoldPaused
    );
    assert_eq!(
        action(CaptureRestartReason::UserStoppedSharing, false, None, false),
        rewinder::recovery::RecoveryAction::DisarmUserStop
    );
    assert_eq!(
        action(CaptureRestartReason::CaptureStartInterrupted, false, None, false),
        rewinder::recovery::RecoveryAction::BackOffInterrupted
    );
    assert_eq!(
        action(CaptureRestartReason::CaptureStartInterrupted, false, Some((1, 1_000)), false),
        rewinder::recovery::RecoveryAction::Restart {
            pre_delay_ms: Some(1_000),
            profile_move: rewinder::recovery::ProfileMove::Keep
        }
    );
    assert_eq!(
        action(CaptureRestartReason::Overloaded, false, None, true),
        rewinder::recovery::RecoveryAction::Restart {
            pre_delay_ms: None,
            profile_move: rewinder::recovery::ProfileMove::Down { steps: 2 }
        }
    );
    assert_eq!(
        action(CaptureRestartReason::ProfileRecovered, false, None, true),
        rewinder::recovery::RecoveryAction::Restart {
            pre_delay_ms: None,
            profile_move: rewinder::recovery::ProfileMove::Up
        }
    );
    assert_eq!(
        rewinder::recovery::mic_restart_notice("system_plus_mic", true, false, "best_effort", "retrying"),
        Some((false, "Microphone unavailable; continuing replay and retrying mic."))
    );
    assert_eq!(
        rewinder::recovery::mic_restart_notice("system_plus_mic", true, true, "required", "ok"),
        Some((true, "Microphone path recovered."))
    );
    assert_eq!(
        rewinder::recovery::mic_restart_notice("system_only", true, false, "best_effort", "ok"),
        None
    );
}

#[test]
fn interrupted_starts_are_counted() {
    let mut state = ClipperState::new(SettingsDto::default(), granted_in_recovery());
    state.count_capture_interruption();
    state.count_capture_interruption();
    assert_eq!(state.capture_interrupt_count, 2);
    state.capture_interrupt_count = u32::MAX;
    state.count_capture_interruption();
    assert_eq!(state.capture_interrupt_count, u32::MAX);
}
