use rewinder::engine_policy::SaveBlocker;
use rewinder::save_flow::{
    capture_unavailable_message, current_warmup_message, expired_pending_save_message,
    partial_history_warning, save_result_message, PendingSaveStep,
};
use rewinder::save_queue::{PendingSaveReason, PendingSaveSlot};
use rewinder::settings::SettingsDto;
use rewinder::state::{
    AudioHealthDto, CaptureHealthDto, ClipperState, LifecycleState, PermissionStateDto,
    SaveStageDto, TriggerSourceDto, VideoSmoothStateDto,
};

fn granted_in_save_flow() -> PermissionStateDto {
    PermissionStateDto {
        screen_recording_granted: true,
        system_audio_granted: true,
        output_dir_writable: true,
        output_dir_permission_error: None,
        reason: None,
    }
}

#[test]
fn a_save_runs_through_its_states() {
    let mut state = ClipperState::new(SettingsDto::default(), granted_in_save_flow());
    state.mark_save_started();
    assert!(state.is_saving);
    assert_eq!(state.lifecycle_state, LifecycleState::SavingReplay);
    assert_eq!(state.save_stage, SaveStageDto::SavingFast);
    state.mark_save_written(Some("session_boundary".to_string()), true);
    assert_eq!(state.save_stage, SaveStageDto::Ready);
    assert_eq!(state.video_smooth_state, VideoSmoothStateDto::Complete);
    assert_eq!(state.last_contiguity_break_code.as_deref(), Some("session_boundary"));
    state.mark_save_finished(true, true);
    assert!(!state.is_saving);
    assert_eq!(state.lifecycle_state, LifecycleState::Armed);
    assert_eq!(state.save_stage, SaveStageDto::Ready);
}

#[test]
fn a_failed_save_degrades_capture_until_it_ends() {
    let mut state = ClipperState::new(SettingsDto::default(), granted_in_save_flow());
    state.mark_save_started();
    state.mark_save_write_failed("writer failed".to_string(), None);
    assert_eq!(state.capture_health, CaptureHealthDto::Degraded);
    assert_eq!(state.audio_health, AudioHealthDto::Degraded);
    assert_eq!(state.save_stage, SaveStageDto::Idle);
    state.mark_save_finished(false, true);
    assert_eq!(state.capture_health, CaptureHealthDto::Running);
    assert_eq!(state.last_error.as_deref(), Some("writer failed"));
}

#[test]
fn save_messages_mention_fallback_mode_and_partial_history() {
    assert_eq!(save_result_message("system_only", "system_only", false, "30.0", None), None);
    assert_eq!(
        save_result_message("system_only", "system_plus_mic", true, "12.5", None).as_deref(),
        Some(
            "Capture is running in system_only mode. Saved 12.5s partial replay due to \
             insufficient contiguous history at trigger time."
        )
    );
    let (message, action) = partial_history_warning(
        "12.5",
        30,
        Some("capture restart/session boundary in rolling buffer"),
        Some("session_boundary"),
    );
    assert_eq!(
        message,
        "Saved latest 12.5s (requested 30s, partial due to capture restart/session boundary in rolling buffer)."
    );
    assert_eq!(
        action,
        "reason_code=session_boundary; capture timeline was not fully contiguous near trigger time."
    );
}

#[test]
fn unavailable_capture_is_explained_with_its_log() {
    assert_eq!(
        capture_unavailable_message(
            None,
            Some("no system audio"),
            "system_only_fallback",
            "system_only",
            "/x/ffmpeg-capture.log",
            None
        )
        .as_deref(),
        Some("Required system-audio path unavailable: no system audio")
    );
    assert_eq!(
        capture_unavailable_message(
            Some("Capture overloaded"),
            None,
            "system_only_fallback",
            "system_only",
            "/x/log",
            None
        ),
        None
    );
    assert_eq!(
        capture_unavailable_message(
            Some("Failed to start capture: boom"),
            None,
            "allow_video_only",
            "system_only",
            "/x/log",
            Some("a\n\nb\n")
        )
        .as_deref(),
        Some(
            "Capture pipeline is unavailable (Failed to start capture: boom). Check Screen \
             Recording permission and source availability. log: /x/log | tail: a | b"
        )
    );
    assert!(capture_unavailable_message(
        Some("capture_start_timeout"),
        None,
        "allow_video_only",
        "system_only",
        "/x/log",
        None
    )
    .unwrap()
    .ends_with("tail: no ffmpeg capture log tail available"));
}

#[test]
fn warmup_and_timeout_messages() {
    assert_eq!(
        current_warmup_message(Some(500)),
        "Replay buffer warming up (500ms segments). Will save automatically."
    );
    assert_eq!(
        current_warmup_message(None),
        "Replay warming up, will save automatically."
    );
    assert_eq!(
        expired_pending_save_message(&TriggerSourceDto::Hotkey),
        "Replay warmup timed out for hotkey trigger. Press save again when capture is active."
    );
}

#[test]
fn queued_save_is_kept_dropped_or_released() {
    let mut state = ClipperState::new(SettingsDto::default(), granted_in_save_flow());
    let mut slot = PendingSaveSlot::new();
    assert_eq!(slot.process_pending_step(&mut state, 0, &None), PendingSaveStep::Empty);
    slot.enqueue_or_replace_pending_save_with_ttl(
        TriggerSourceDto::Manual,
        1_000,
        0,
        0,
        PendingSaveReason::Retryable,
        30,
    );
    let busy = Some(SaveBlocker {
        code: "busy",
        message: "Replay save already in progress.".to_string(),
        action: None,
        retryable: true,
    });
    assert_eq!(
        slot.process_pending_step(&mut state, 10, &busy),
        PendingSaveStep::StillBlocked
    );
    assert_eq!(state.save_stage, SaveStageDto::Queued);
    assert_eq!(slot.process_pending_step(&mut state, 20, &None), PendingSaveStep::Ready);
    assert!(slot.pending.is_some());
    assert_eq!(slot.process_pending_step(&mut state, 1_000, &None), PendingSaveStep::Expired);
    assert!(slot.pending.is_none());
    assert_eq!(state.save_stage, SaveStageDto::Idle);
}

#[test]
fn retryable_saves_are_queued_with_their_wait() {
    let mut state = ClipperState::new(SettingsDto::default(), granted_in_save_flow());
    let mut slot = PendingSaveSlot::new();
    let warming = SaveBlocker {
        code: "audio_warming_up",
        message: "System audio path is starting. Try again in a moment.".to_string(),
        action: None,
        retryable: true,
    };
    let (message, outcome) = rewinder::save_flow::queue_retryable_save(
        &mut slot,
        &mut state,
        TriggerSourceDto::Hotkey,
        &warming,
        1_000,
        77,
        3_000,
    );
    assert_eq!(message, "Replay queued, waiting for capture warmup.");
    assert_eq!(outcome, rewinder::save_queue::PendingSaveEnqueueOutcome::QueuedNew);
    let pending = slot.pending.expect("queued");
    assert_eq!(pending.expires_at_ms, 10_500);
    assert_eq!(pending.reason, PendingSaveReason::AudioWarmup);
    assert_eq!(pending.requested_replay_secs, 30);
    assert_eq!(state.save_stage, SaveStageDto::Queued);

    let busy = SaveBlocker {
        code: "busy",
        message: "Replay save already in progress.".to_string(),
        action: None,
        retryable: true,
    };
    let (message, _) = rewinder::save_flow::queue_retryable_save(
        &mut slot,
        &mut state,
        TriggerSourceDto::Manual,
        &busy,
        2_000,
        88,
        3_000,
    );
    assert_eq!(message, "Save already in progress. Updated queued replay to latest trigger.");
    assert_eq!(slot.pending.unwrap().expires_at_ms, 5_000);
}
