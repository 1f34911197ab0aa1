use rewinder::engine_policy::{
    battery_floor_index, capture_stack_rss_delta_hard_budget_mb,
    capture_stack_rss_delta_soft_budget_mb, derive_mic_recovery_state,
    derive_operator_health_state, effective_profile_for_index, is_audio_path_blocker_code,
    parse_power_source, parse_thermal_state, required_overload_signal_count, save_blocker,
    segment_stall_threshold_ms, should_apply_startup_bootstrap, trigger_source_label,
};
use rewinder::settings::SettingsDto;
use rewinder::state::{
    AudioHealthDto, CaptureHealthDto, ClipperState, LifecycleState, PermissionStateDto,
    TriggerSourceDto,
};

fn sample_permission_in_engine_policy() -> PermissionStateDto {
    PermissionStateDto {
        screen_recording_granted: true,
        system_audio_granted: true,
        output_dir_writable: true,
        output_dir_permission_error: None,
        reason: None,
    }
}

fn settings_with_video(fps: u16, video_resolution: u16) -> SettingsDto {
    let mut settings = SettingsDto::default();
    settings.fps = fps;
    settings.video_resolution = video_resolution;
    settings.video_bitrate_kbps = 10_000;
    settings
}

#[test]
fn save_blocker_none_when_armed() {
    let mut state = ClipperState::new(SettingsDto::default(), sample_permission_in_engine_policy());
    state.lifecycle_state = LifecycleState::Armed;
    state.capture_health = CaptureHealthDto::Running;
    state.system_audio_path_ready = true;
    assert!(save_blocker(&state).is_none());
}

#[test]
fn save_blocker_disabled() {
    let mut state = ClipperState::new(SettingsDto::default(), sample_permission_in_engine_policy());
    state.lifecycle_state = LifecycleState::Disabled;
    let blocker = save_blocker(&state).expect("expected blocker");
    assert_eq!(blocker.code, "disabled");
    assert_eq!(
        blocker.message,
        "Replay is disabled. Enable replay to save clips."
    );
}

#[test]
fn save_blocker_permission_required_uses_reason() {
    let mut permission = sample_permission_in_engine_policy();
    permission.reason = Some("Screen Recording permission missing".to_string());
    let mut state = ClipperState::new(SettingsDto::default(), permission);
    state.lifecycle_state = LifecycleState::PermissionRequired;
    let blocker = save_blocker(&state).expect("expected blocker");
    assert_eq!(blocker.code, "permission_required");
    assert_eq!(blocker.message, "Screen Recording permission missing");
}

#[test]
fn save_blocker_output_dir_permission_required() {
    let mut permission = sample_permission_in_engine_policy();
    permission.output_dir_writable = false;
    permission.output_dir_permission_error = Some(
        "Downloads folder access is denied for Rewinder (/Users/test/Downloads/Rewinder)."
            .to_string(),
    );
    let state = ClipperState::new(SettingsDto::default(), permission);
    let blocker = save_blocker(&state).expect("expected blocker");
    assert_eq!(blocker.code, "output_dir_permission_required");
    assert!(blocker
        .message
        .contains("Downloads folder access is denied"));
}

#[test]
fn save_blocker_busy_when_saving() {
    let mut state = ClipperState::new(SettingsDto::default(), sample_permission_in_engine_policy());
    state.lifecycle_state = LifecycleState::Armed;
    state.is_saving = true;
    let blocker = save_blocker(&state).expect("expected blocker");
    assert_eq!(blocker.code, "busy");
    assert!(blocker.retryable);
}

#[test]
fn save_blocker_system_audio_warming_when_starting() {
    let mut state = ClipperState::new(SettingsDto::default(), sample_permission_in_engine_policy());
    state.lifecycle_state = LifecycleState::Armed;
    state.capture_health = CaptureHealthDto::Starting;
    state.system_audio_path_ready = false;
    let blocker = save_blocker(&state).expect("expected blocker");
    assert_eq!(blocker.code, "audio_warming_up");
}

#[test]
fn save_blocker_system_audio_required_when_running_and_not_ready() {
    let mut state = ClipperState::new(SettingsDto::default(), sample_permission_in_engine_policy());
    state.lifecycle_state = LifecycleState::Armed;
    state.capture_health = CaptureHealthDto::Running;
    state.system_audio_path_ready = false;
    let blocker = save_blocker(&state).expect("expected blocker");
    assert_eq!(blocker.code, "system_audio_unavailable");
}

#[test]
fn save_blocker_mic_required_unavailable_when_running() {
    let mut state = ClipperState::new(SettingsDto::default(), sample_permission_in_engine_policy());
    state.lifecycle_state = LifecycleState::Armed;
    state.capture_health = CaptureHealthDto::Running;
    state.system_audio_path_ready = true;
    state.settings.audio_mode = "system_plus_mic".to_string();
    state.settings.mic_enabled = true;
    state.settings.mic_failure_policy = "required".to_string();
    state.mic_path_ready = false;
    let blocker = save_blocker(&state).expect("expected blocker");
    assert_eq!(blocker.code, "mic_required_unavailable");
}

#[test]
fn save_blocker_none_when_system_audio_required_and_ready() {
    let mut state = ClipperState::new(SettingsDto::default(), sample_permission_in_engine_policy());
    state.lifecycle_state = LifecycleState::Armed;
    state.capture_health = CaptureHealthDto::Running;
    state.system_audio_path_ready = true;
    state.audio_health = AudioHealthDto::Healthy;
    state.active_audio_mode = "system_only".to_string();
    assert!(save_blocker(&state).is_none());
}

#[test]
fn mic_recovery_state_reports_retrying_for_best_effort_mic_loss() {
    let mut settings = SettingsDto::default();
    settings.audio_mode = "system_plus_mic".to_string();
    settings.mic_enabled = true;
    settings.mic_failure_policy = "best_effort".to_string();
    assert_eq!(
        derive_mic_recovery_state(&settings, "system_plus_mic", false, Some("retrying")),
        "retrying"
    );
}

#[test]
fn mic_recovery_state_reports_blocked_for_required_mic_loss() {
    let mut settings = SettingsDto::default();
    settings.audio_mode = "system_plus_mic".to_string();
    settings.mic_enabled = true;
    settings.mic_failure_policy = "required".to_string();
    assert_eq!(
        derive_mic_recovery_state(&settings, "system_plus_mic", false, None),
        "blocked_required"
    );
}

#[test]
fn operator_health_uses_retrying_mic_message() {
    let (state, message) = derive_operator_health_state(
        LifecycleState::Armed,
        CaptureHealthDto::Running,
        AudioHealthDto::Degraded,
        None,
        None,
        "monitoring",
        true,
        1080,
        1080,
        60,
        60,
        "stable",
        "retrying",
        Some("ignored"),
    );
    assert_eq!(state, "attention");
    assert_eq!(
        message,
        "Microphone unavailable; continuing replay and retrying mic."
    );
}

#[test]
fn segment_stall_threshold_uses_balanced_clamp() {
    assert_eq!(segment_stall_threshold_ms(500), 2_500);
    assert_eq!(segment_stall_threshold_ms(250), 2_500);
    assert_eq!(segment_stall_threshold_ms(1_500), 6_000);
    assert_eq!(segment_stall_threshold_ms(2_000), 6_000);
}

#[test]
fn runtime_profile_step_down_order_is_locked() {
    let settings = SettingsDto {
        video_resolution: 1080,
        fps: 60,
        video_bitrate_kbps: 10_000,
        ..SettingsDto::default()
    };

    let p0 = effective_profile_for_index(&settings, 0);
    let p1 = effective_profile_for_index(&settings, 1);
    let p2 = effective_profile_for_index(&settings, 2);
    let p3 = effective_profile_for_index(&settings, 3);
    let p4 = effective_profile_for_index(&settings, 4);

    assert_eq!((p0.video_resolution, p0.fps), (1080, 60));
    assert_eq!((p1.video_resolution, p1.fps), (1080, 30));
    assert_eq!((p2.video_resolution, p2.fps), (1080, 30));
    assert_eq!((p3.video_resolution, p3.fps), (720, 30));
    assert_eq!((p4.video_resolution, p4.fps), (720, 30));
}

#[test]
fn profile_labels_and_bitrates() {
    let settings = settings_with_video(60, 1080);
    assert_eq!(effective_profile_for_index(&settings, 0).label(), "1080p60fps-10000k");
    assert_eq!(effective_profile_for_index(&settings, 1).video_bitrate_kbps, 8_000);
    assert_eq!(effective_profile_for_index(&settings, 2).video_bitrate_kbps, 5_500);
    assert_eq!(effective_profile_for_index(&settings, 3).label(), "720p30fps-4800k");
}

#[test]
fn startup_bootstrap_respects_quality_preference() {
    let mut settings = SettingsDto {
        quality_policy: "adaptive_recover".to_string(),
        performance_guard_enabled: true,
        performance_guard_level: "balanced".to_string(),
        video_resolution: 1080,
        fps: 60,
        ..SettingsDto::default()
    };

    settings.quality_preference = "prefer_quality".to_string();
    assert!(!should_apply_startup_bootstrap(&settings, 0));

    settings.quality_preference = "prefer_smoothness".to_string();
    assert!(should_apply_startup_bootstrap(&settings, 0));
}

#[test]
fn overload_signal_requirement_depends_on_quality_preference() {
    assert_eq!(required_overload_signal_count("prefer_quality"), 3);
    assert_eq!(required_overload_signal_count("prefer_smoothness"), 2);
    assert_eq!(required_overload_signal_count("unknown"), 2);
}

#[test]
fn operator_health_treats_audio_warmup_as_warming_up() {
    let (state, message) = derive_operator_health_state(
        LifecycleState::Armed,
        CaptureHealthDto::Starting,
        AudioHealthDto::Degraded,
        Some("audio_warming_up"),
        Some("System audio path is starting. Try again in a moment."),
        "monitoring",
        false,
        1080,
        1080,
        60,
        60,
        "steady",
        "ok",
        Some("Capture pipeline missing; attempting restart."),
    );

    assert_eq!(state, "warming_up");
    assert_eq!(
        message,
        "System audio path is starting. Try again in a moment."
    );
}

#[test]
fn operator_health_treats_engine_starting_as_warming_up() {
    let (state, message) = derive_operator_health_state(
        LifecycleState::Booting,
        CaptureHealthDto::Starting,
        AudioHealthDto::Unavailable,
        Some("engine_starting"),
        Some("Replay engine is starting. Try again in a moment."),
        "idle",
        false,
        1080,
        1080,
        60,
        60,
        "steady",
        "ok",
        None,
    );

    assert_eq!(state, "warming_up");
    assert_eq!(message, "Replay engine is starting. Try again in a moment.");
}

#[test]
fn operator_health_treats_capture_paused_as_blocked() {
    let (state, message) = derive_operator_health_state(
        LifecycleState::Armed,
        CaptureHealthDto::Stopped,
        AudioHealthDto::Unavailable,
        Some("capture_paused"),
        Some("Capture paused. Rewinder is not recording in the background."),
        "idle",
        false,
        1080,
        1080,
        60,
        60,
        "steady",
        "ok",
        None,
    );

    assert_eq!(state, "blocked");
    assert_eq!(
        message,
        "Capture paused. Rewinder is not recording in the background."
    );
}

#[test]
fn operator_health_treats_user_stopped_sharing_as_blocked() {
    let (state, message) = derive_operator_health_state(
        LifecycleState::Disabled,
        CaptureHealthDto::Stopped,
        AudioHealthDto::Unavailable,
        Some("user_stopped_sharing"),
        Some("Capture stopped from macOS controls. Rewinder is not recording."),
        "idle",
        false,
        1080,
        1080,
        60,
        60,
        "steady",
        "ok",
        None,
    );

    assert_eq!(state, "blocked");
    assert_eq!(
        message,
        "Capture stopped from macOS controls. Rewinder is not recording."
    );
}

#[test]
fn operator_health_treats_audio_device_failures_as_blocked() {
    for code in ["system_audio_unavailable", "mic_required_unavailable"] {
        let (state, message) = derive_operator_health_state(
            LifecycleState::Armed,
            CaptureHealthDto::Running,
            AudioHealthDto::Unavailable,
            Some(code),
            Some("Audio device unavailable."),
            "monitoring",
            false,
            1080,
            1080,
            60,
            60,
            "steady",
            "ok",
            None,
        );

        assert_eq!(state, "blocked");
        assert_eq!(message, "Audio device unavailable.");
    }
}

#[test]
fn capture_stack_rss_budgets_follow_perf_profile_targets() {
    assert_eq!(capture_stack_rss_delta_soft_budget_mb(1080, 60), 300);
    assert_eq!(capture_stack_rss_delta_soft_budget_mb(1080, 30), 200);
    assert_eq!(capture_stack_rss_delta_hard_budget_mb(1080, 60), 440);
    assert_eq!(capture_stack_rss_delta_hard_budget_mb(1080, 30), 300);
}

#[test]
fn parse_power_source_reads_ac() {
    let stdout = "Now drawing from 'AC Power'\n -InternalBattery-0 (id=123)\t100%; charged; 0:00 remaining present: true\n";
    assert_eq!(parse_power_source(stdout), Some("ac"));
}

#[test]
fn parse_power_source_reads_battery() {
    let stdout = "Now drawing from 'Battery Power'\n -InternalBattery-0 (id=123)\t98%; discharging; 3:21 remaining present: true\n";
    assert_eq!(parse_power_source(stdout), Some("battery"));
}

#[test]
fn parse_power_source_desktop_without_battery_reads_ac() {
    let stdout = "Now drawing from 'AC Power'\n";
    assert_eq!(parse_power_source(stdout), Some("ac"));
}

#[test]
fn parse_power_source_unknown_is_none() {
    assert_eq!(parse_power_source(""), None);
    assert_eq!(parse_power_source("unexpected pmset output"), None);
}

#[test]
fn battery_floor_index_zero_on_ac() {
    let settings = settings_with_video(60, 1080);
    assert_eq!(battery_floor_index(&settings, false, true, 30), 0);
}

#[test]
fn battery_floor_index_zero_when_guard_disabled() {
    let settings = settings_with_video(60, 1080);
    assert_eq!(battery_floor_index(&settings, true, false, 30), 0);
}

#[test]
fn battery_floor_index_caps_1080p60_to_index_one() {
    let settings = settings_with_video(60, 1080);
    assert_eq!(battery_floor_index(&settings, true, true, 30), 1);
    assert_eq!(effective_profile_for_index(&settings, 1).fps, 30);
}

#[test]
fn battery_floor_index_no_penalty_when_already_at_or_below_cap() {
    let settings = settings_with_video(30, 1080);
    assert_eq!(battery_floor_index(&settings, true, true, 30), 0);
}

#[test]
fn battery_floor_index_respects_higher_cap() {
    let settings = settings_with_video(60, 1080);
    assert_eq!(battery_floor_index(&settings, true, true, 60), 0);
}

#[test]
fn audio_path_blockers_and_labels() {
    assert!(is_audio_path_blocker_code("system_audio_unavailable"));
    assert!(!is_audio_path_blocker_code("busy"));
    assert_eq!(trigger_source_label(&TriggerSourceDto::Hotkey), "hotkey");
    assert_eq!(trigger_source_label(&TriggerSourceDto::Manual), "manual");
}

#[test]
fn thermal_state_is_read_from_pmset_levels() {
    assert_eq!(parse_thermal_state(""), None);
    assert_eq!(
        parse_thermal_state("CPU_Scheduler_Limit = 100\n ThermalLevel = 2\n").as_deref(),
        Some("serious")
    );
    assert_eq!(parse_thermal_state("ThermalLevel = 1").as_deref(), Some("fair"));
    assert_eq!(parse_thermal_state("ThermalLevel = 7").as_deref(), Some("critical"));
    assert_eq!(parse_thermal_state("ThermalLevel = -1").as_deref(), Some("nominal"));
    assert_eq!(parse_thermal_state("ThermalLevel = hot\nThermalLevel = 1"), None);
    assert_eq!(
        parse_thermal_state("Note: No thermal warning level has been recorded\n").as_deref(),
        Some("nominal")
    );
}
