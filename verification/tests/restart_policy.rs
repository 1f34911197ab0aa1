use rewinder::guard::{
    push_guard_reason, restart_status_message, select_primary_guard_reason_code,
    CaptureRestartReason,
};
use rewinder::restart_policy::{
    evaluate_profile_guard_signals, should_suppress_initial_startup_fallback, RestartObservation,
    RestartPolicy, SpeedReadings,
};
use rewinder::settings::SettingsDto;
use rewinder::state::LifecycleState;

/// The threshold comparisons that the shell makes on the fractional
/// measurements before handing them to the guard.
fn readings(
    current_profile_fps: u16,
    effective_output_fps: Option<f32>,
    playback_realtime_x: Option<f32>,
    capture_speed_x: Option<f32>,
) -> SpeedReadings {
    let below = |v: Option<f32>, t: f32| v.map(|s| s < t).unwrap_or(false);
    let recovering = |v: Option<f32>| v.map(|s| s >= 0.97).unwrap_or(true);
    SpeedReadings {
        speed_sample_present: playback_realtime_x.is_some() || capture_speed_x.is_some(),
        playback_realtime_low: below(playback_realtime_x, 0.95),
        capture_speed_low: below(capture_speed_x, 0.95),
        speed_below_emergency: below(playback_realtime_x, 0.90) || below(capture_speed_x, 0.90),
        speed_recovering: recovering(playback_realtime_x) && recovering(capture_speed_x),
        output_fps_under_target: effective_output_fps
            .map(|fps| fps < f32::from(current_profile_fps.max(1)) * 0.75)
            .unwrap_or(false),
        cpu_soft_signal: false,
        cpu_hard_signal: false,
    }
}

fn armed_observation() -> RestartObservation {
    RestartObservation {
        now_ms: 100_000,
        capture_paused: false,
        lifecycle_state: LifecycleState::Armed,
        pipeline_present: true,
        display_changed: false,
        last_error: None,
        since_pipeline_start_ms: Some(60_000),
        since_save_start_ms: None,
        since_profile_change_ms: None,
        is_saving: false,
        current_profile_index: 0,
        on_battery: false,
        battery_floor_engaged: false,
        current_session_has_stable_segment: true,
        readings: readings(60, Some(60.0), Some(1.0), Some(1.0)),
        capture_dropped_frames: 0,
        capture_queue_overflows: 0,
        capture_stack_rss_delta_mb: None,
        system_memory_pressure_level: None,
        thermal_state: None,
        force_stepdown: false,
        segment_age_ms: Some(400),
    }
}

#[test]
fn restart_reason_is_suppressed_while_capture_is_paused() {
    let mut policy = RestartPolicy::new();
    let mut obs = armed_observation();
    obs.capture_paused = true;
    obs.pipeline_present = false;
    let decision = policy.restart_reason_if_needed(&SettingsDto::default(), &obs);
    assert!(decision.reason.is_none());
}

#[test]
fn missing_pipeline_and_capture_errors_restart() {
    let settings = SettingsDto::default();
    let mut policy = RestartPolicy::new();
    let mut obs = armed_observation();
    obs.pipeline_present = false;
    let decision = policy.restart_reason_if_needed(&settings, &obs);
    assert_eq!(decision.reason, Some(CaptureRestartReason::MissingPipeline));

    let mut obs = armed_observation();
    obs.last_error = Some("user_stopped_sharing: stopped by macOS".to_string());
    let decision = policy.restart_reason_if_needed(&settings, &obs);
    assert_eq!(decision.reason, Some(CaptureRestartReason::UserStoppedSharing));

    let mut obs = armed_observation();
    obs.last_error = Some("ffmpeg exited".to_string());
    let decision = policy.restart_reason_if_needed(&settings, &obs);
    assert_eq!(decision.reason, Some(CaptureRestartReason::CaptureProcessExited));
}

#[test]
fn healthy_tick_does_not_restart() {
    let mut policy = RestartPolicy::new();
    let decision = policy.restart_reason_if_needed(&SettingsDto::default(), &armed_observation());
    assert!(decision.reason.is_none());
}

#[test]
fn recovery_uses_current_effective_profile_fps_not_requested_fps() {
    let signals = evaluate_profile_guard_signals(
        &readings(30, Some(29.8), Some(1.01), Some(1.01)),
        0,
        0,
        false,
        false,
        None,
        None,
        "prefer_quality",
    );

    assert!(!signals.output_fps_under_target);
    assert!(signals.recovery_signal);
}

#[test]
fn startup_initial_fallback_is_suppressed_for_default_profile_without_hard_pressure() {
    assert!(should_suppress_initial_startup_fallback(true, false, 0, false));
}

#[test]
fn startup_initial_fallback_is_allowed_under_hard_pressure() {
    assert!(!should_suppress_initial_startup_fallback(true, false, 0, true));
}

#[test]
fn startup_initial_fallback_is_not_suppressed_after_already_degraded_profile() {
    assert!(!should_suppress_initial_startup_fallback(true, false, 1, false));
}

#[test]
fn single_overflow_packet_does_not_count_as_overload_signal() {
    let signals = evaluate_profile_guard_signals(
        &readings(60, Some(60.0), Some(1.0), Some(1.0)),
        0,
        1,
        false,
        false,
        None,
        None,
        "prefer_quality",
    );

    assert!(!signals.overflow_trigger);
    assert_eq!(signals.overload_signal_count, 0);
}

#[test]
fn small_transient_noise_does_not_block_recovery() {
    let signals = evaluate_profile_guard_signals(
        &readings(30, Some(29.5), Some(0.98), Some(0.99)),
        3,
        1,
        false,
        false,
        None,
        None,
        "prefer_quality",
    );

    assert!(signals.recovery_signal);
}

#[test]
fn prefer_quality_requires_three_sustained_signals() {
    let signals = evaluate_profile_guard_signals(
        &readings(60, Some(40.0), Some(0.94), Some(0.94)),
        20,
        4,
        false,
        false,
        None,
        None,
        "prefer_quality",
    );

    assert_eq!(signals.overload_signal_count, 4);
    assert_eq!(signals.overload_signal_requirement, 3);
    assert_eq!(signals.sustained_overload_signal_requirement, 3);
}

#[test]
fn system_memory_pressure_warning_blocks_recovery_without_hard_stepdown() {
    let signals = evaluate_profile_guard_signals(
        &readings(60, Some(60.0), Some(1.0), Some(1.0)),
        0,
        0,
        false,
        false,
        Some("warning"),
        None,
        "prefer_quality",
    );

    assert!(signals.system_memory_pressure_warning);
    assert!(!signals.system_memory_pressure_critical);
    assert!(!signals.recovery_signal);
    assert_eq!(signals.overload_signal_count, 0);
}

#[test]
fn thermal_critical_is_reported_as_hard_guard_reason() {
    let signals = evaluate_profile_guard_signals(
        &readings(60, Some(60.0), Some(1.0), Some(1.0)),
        0,
        0,
        false,
        false,
        None,
        Some("critical"),
        "prefer_quality",
    );

    assert!(signals.thermal_critical);
    assert!(!signals.recovery_signal);
}

#[test]
fn guard_reasons_are_listed_once_and_ranked() {
    let mut codes: Vec<String> = Vec::new();
    push_guard_reason(&mut codes, true, "on_battery");
    push_guard_reason(&mut codes, true, "output_fps_low");
    push_guard_reason(&mut codes, true, "on_battery");
    push_guard_reason(&mut codes, false, "thermal_critical");
    assert_eq!(codes, vec!["on_battery".to_string(), "output_fps_low".to_string()]);
    assert_eq!(
        select_primary_guard_reason_code(&codes).as_deref(),
        Some("output_fps_low")
    );
    assert_eq!(select_primary_guard_reason_code(&Vec::new()), None);
    let other = vec!["custom".to_string()];
    assert_eq!(select_primary_guard_reason_code(&other).as_deref(), Some("custom"));
}

#[test]
fn restart_messages_carry_transition_or_detail() {
    let transition = Some(("1080p60".to_string(), "1080p30".to_string()));
    assert_eq!(
        restart_status_message(CaptureRestartReason::Overloaded, &transition),
        "Capture overloaded; reducing quality profile. (1080p60 -> 1080p30)"
    );
    let stall = CaptureRestartReason::NoSegments {
        segment_age_ms: Some(3_000),
        threshold_ms: 2_500,
        miss_count: 2,
    };
    assert_eq!(stall.as_code(), "no_segments");
    assert_eq!(
        restart_status_message(stall, &None),
        "Capture stalled (no recent segments); restarting. (segment_age_ms=3000 threshold_ms=2500 miss_count=2)"
    );
    assert_eq!(
        restart_status_message(CaptureRestartReason::DisplayChanged, &transition),
        "Display source changed; restarting capture."
    );
}
