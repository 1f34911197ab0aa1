use rewinder::permissions::MicrophonePermissionStatus;
use rewinder::pipeline::{
    mic_permission_gate, select_startup_profile, startup_audio_outcome, StartupAudio,
};
use rewinder::settings::SettingsDto;
use rewinder::pipeline::{pipeline_action_for_state, PipelineAction};
use rewinder::state::{
    AudioHealthDto, CaptureHealthDto, ClipperState, LifecycleState, PermissionStateDto,
};

fn audio(requested: &str, active: &str) -> StartupAudio {
    StartupAudio {
        requested_audio_mode: requested.to_string(),
        active_audio_mode: active.to_string(),
        audio_fallback_policy: "system_only_fallback".to_string(),
        mic_failure_policy: "best_effort".to_string(),
        mic_enabled: true,
        system_audio_path_ready: true,
        mic_path_ready: true,
        startup_fallback_error: None,
    }
}

#[test]
fn high_end_capture_starts_on_bootstrap_step() {
    let settings = SettingsDto::default();
    let choice = select_startup_profile(&settings, 0, 0, false);
    assert!(choice.apply_bootstrap);
    assert_eq!(choice.profile_index, 2);
    assert!(!choice.battery_floor_engaged);

    let mut quality = SettingsDto::default();
    quality.quality_preference = "prefer_quality".to_string();
    let choice = select_startup_profile(&quality, 0, 0, true);
    assert!(!choice.apply_bootstrap);
    assert_eq!(choice.profile_index, 0);
    assert!(choice.battery_floor_engaged);
}

#[test]
fn battery_floor_raises_the_starting_profile() {
    let mut settings = SettingsDto::default();
    settings.quality_preference = "prefer_quality".to_string();
    let choice = select_startup_profile(&settings, 0, 1, false);
    assert_eq!(choice.profile_index, 1);
    assert!(choice.battery_floor_engaged);
    let choice = select_startup_profile(&settings, 2, 1, true);
    assert_eq!(choice.profile_index, 2);
    assert!(!choice.battery_floor_engaged);
    let choice = select_startup_profile(&settings, 0, 9, false);
    assert_eq!(choice.profile_index, 3);
}

#[test]
fn mic_permission_blocks_only_required_mic() {
    assert!(mic_permission_gate(MicrophonePermissionStatus::Denied, &None, "best_effort").is_ok());
    assert!(mic_permission_gate(MicrophonePermissionStatus::Granted, &None, "required").is_ok());
    assert_eq!(
        mic_permission_gate(MicrophonePermissionStatus::Denied, &None, "required"),
        Err("mic_required_unavailable: Microphone permission unavailable for capture.".to_string())
    );
    assert_eq!(
        mic_permission_gate(
            MicrophonePermissionStatus::Restricted,
            &Some("blocked by policy".to_string()),
            "required"
        ),
        Err("mic_required_unavailable: blocked by policy".to_string())
    );
}

#[test]
fn startup_audio_is_judged_by_paths_and_fallback() {
    let (health, reason) = startup_audio_outcome(&audio("system_plus_mic", "system_plus_mic"));
    assert_eq!(health, AudioHealthDto::Healthy);
    assert_eq!(reason, None);

    let mut fell_back = audio("system_plus_mic", "system_only");
    fell_back.startup_fallback_error =
        Some("reason_code=mic_pipe_startup_stalled".to_string());
    let (health, reason) = startup_audio_outcome(&fell_back);
    assert_eq!(health, AudioHealthDto::Degraded);
    assert_eq!(
        reason.as_deref(),
        Some(
            "audio mode degraded from system_plus_mic to system_only; \
             mixed microphone startup stalled; continuing with system audio only"
        )
    );

    let mut no_system = audio("system_only", "system_only");
    no_system.system_audio_path_ready = false;
    let (health, reason) = startup_audio_outcome(&no_system);
    assert_eq!(health, AudioHealthDto::Unavailable);
    assert_eq!(reason.as_deref(), Some("required system-audio path unavailable"));
}

#[test]
fn pipeline_follows_pause_and_lifecycle() {
    assert_eq!(pipeline_action_for_state(true, LifecycleState::Armed), PipelineAction::StopPaused);
    assert_eq!(pipeline_action_for_state(false, LifecycleState::SavingReplay), PipelineAction::Start);
    assert_eq!(pipeline_action_for_state(false, LifecycleState::Disabled), PipelineAction::StopIdle);

    let permission = PermissionStateDto {
        screen_recording_granted: true,
        system_audio_granted: true,
        output_dir_writable: true,
        output_dir_permission_error: None,
        reason: None,
    };
    let mut state = ClipperState::new(SettingsDto::default(), permission);
    state.effective_fps = 30;
    state.capture_dropped_frames = 9;
    state.mark_pipeline_stopped_idle();
    assert_eq!(state.capture_health, CaptureHealthDto::Stopped);
    assert_eq!(state.effective_fps, 60);
    assert_eq!(state.capture_dropped_frames, 0);
}

#[test]
fn output_folder_gates_the_pipeline_start() {
    let permission = PermissionStateDto {
        screen_recording_granted: true,
        system_audio_granted: true,
        output_dir_writable: true,
        output_dir_permission_error: None,
        reason: None,
    };
    let mut state = ClipperState::new(SettingsDto::default(), permission);
    let message = state.mark_pipeline_blocked_by_output_dir("denied".to_string());
    assert_eq!(message, "output_dir_permission_required: denied");
    assert!(!state.permission.output_dir_writable);
    assert_eq!(state.permission.reason.as_deref(), Some("denied"));
    assert_eq!(state.lifecycle_state, LifecycleState::PermissionRequired);
    assert_eq!(state.capture_health, CaptureHealthDto::Stopped);
    assert!(state.mark_output_dir_granted());
    assert!(!state.mark_output_dir_granted());
    assert_eq!(state.permission.reason, None);
    assert_eq!(state.lifecycle_state, LifecycleState::Armed);
    state.mark_pipeline_starting(true, rewinder::startup::LiveQueueProfile::Elevated);
    assert_eq!(state.capture_health, CaptureHealthDto::Starting);
    assert_eq!(state.capture_load_state, "recovering");
    assert_eq!(state.live_queue_profile, "elevated");
}

#[test]
fn capture_runs_on_the_chosen_ladder_step() {
    let settings = SettingsDto::default();
    let capture = rewinder::pipeline::capture_settings_for_profile(&settings, 0);
    assert_eq!(capture.fps, settings.fps);
    assert_eq!(capture.video_resolution, settings.video_resolution);
    let step = rewinder::engine_policy::effective_profile_for_index(&settings, 2);
    let capture = rewinder::pipeline::capture_settings_for_profile(&settings, 2);
    assert_eq!(capture.fps, step.fps);
    assert_eq!(capture.video_resolution, step.video_resolution);
    assert_eq!(capture.video_bitrate_kbps, step.video_bitrate_kbps);
    assert_eq!(capture.audio_mode, settings.audio_mode);
}

#[test]
fn started_pipeline_explains_its_fallbacks() {
    let permission = PermissionStateDto {
        screen_recording_granted: true,
        system_audio_granted: true,
        output_dir_writable: true,
        output_dir_permission_error: None,
        reason: None,
    };
    let mut state = ClipperState::new(SettingsDto::default(), permission);
    let mut fell_back = audio("system_plus_mic", "system_only");
    fell_back.startup_fallback_error = Some("mic_pipe_startup_stalled: stalled".to_string());
    state.apply_startup_outcome(&fell_back, true, "720p30fps-6000k", None);
    assert_eq!(state.audio_health, AudioHealthDto::Degraded);
    assert_eq!(
        state.last_error.as_deref(),
        Some("Microphone startup stalled; continuing with system audio only.")
    );
    assert_eq!(
        state.degrade_reason.as_deref(),
        Some("Runtime fallback active (720p30fps-6000k) to keep capture realtime.; audio degraded to system_only")
    );

    let mut state2 = ClipperState::new(SettingsDto::default(), state.permission.clone());
    state2.last_error = Some("capture initialization failed: boom".to_string());
    state2.apply_startup_outcome(&audio("system_only", "system_only"), false, "1080p60fps-10000k", None);
    assert_eq!(state2.audio_health, AudioHealthDto::Healthy);
    assert_eq!(state2.last_error, None);
    assert_eq!(state2.degrade_reason, None);

    let mut no_mic = audio("system_plus_mic", "system_plus_mic");
    no_mic.mic_path_ready = false;
    state2.apply_startup_outcome(&no_mic, false, "x", Some("mic backend failed".to_string()));
    assert_eq!(state2.last_error.as_deref(), Some("mic backend failed"));
    assert_eq!(state2.degrade_reason, None);
    assert_eq!(
        state2.audio_degrade_reason.as_deref(),
        Some("microphone unavailable; continuing replay and retrying mic")
    );
}

#[test]
fn started_pipeline_records_its_readings() {
    let permission = PermissionStateDto {
        screen_recording_granted: true,
        system_audio_granted: true,
        output_dir_writable: true,
        output_dir_permission_error: None,
        reason: None,
    };
    let mut state = ClipperState::new(SettingsDto::default(), permission);
    let readings = rewinder::pipeline::PipelineStartReadings {
        load: rewinder::projection::LoadReadings {
            queue_starvation_detected: false,
            playback_outside_realtime_band: false,
            capture_speed_low: false,
            output_fps_low: false,
            below_realtime: false,
        },
        live_queue_profile: rewinder::startup::LiveQueueProfile::Small,
        save_ready: true,
        system_audio_path_ready: true,
        mic_path_ready: false,
        mic_frames_seen: false,
        mic_capture_session_running: false,
        mic_samples_per_sec: None,
        mic_attach_runtime_state: None,
        mic_recovery_state: None,
        selected_microphone_name: None,
        last_mic_backend_error: Some(("mic_open_failed".to_string(), "no device".to_string())),
        first_audio_frame_seen: true,
        capture_dropped_frames: 3,
        capture_queue_overflows: 1,
        concurrent_session_count: Some(1),
        capture_owner_pid: Some(77),
        active_audio_mode: "system_only".to_string(),
        mic_backend_in_use: "avcapture".to_string(),
        startup_fallback_error: None,
    };
    let settings = SettingsDto::default();
    let requested = rewinder::engine_policy::effective_profile_for_index(&settings, 0);
    let effective = rewinder::engine_policy::effective_profile_for_index(&settings, 2);
    state.mark_pipeline_started(
        readings,
        effective,
        requested,
        Some(rewinder::permissions::MicrophonePermissionProbe {
            status: MicrophonePermissionStatus::Denied,
            error: Some("mic denied".to_string()),
        }),
    );
    assert_eq!(state.capture_health, CaptureHealthDto::Running);
    assert_eq!(state.capture_load_state, "recovering");
    assert_eq!(state.effective_fps, effective.fps);
    assert_eq!(state.last_mic_error_code.as_deref(), Some("mic_open_failed"));
    assert_eq!(state.last_audio_mode_error.as_deref(), Some("mic denied"));
    assert_eq!(state.mic_permission_status, "denied");
    assert_eq!(state.capture_owner_pid, Some(77));
}

#[test]
fn starting_a_pipeline_keeps_the_rest_of_the_state() {
    let permission = PermissionStateDto {
        screen_recording_granted: true,
        system_audio_granted: true,
        output_dir_writable: true,
        output_dir_permission_error: None,
        reason: None,
    };
    let mut state = ClipperState::new(SettingsDto::default(), permission);
    state.last_error = Some("previous".to_string());
    state.first_audio_frame_seen = true;
    state.video_smooth_state = rewinder::state::VideoSmoothStateDto::Complete;
    state.capture_restart_count = 4;
    state.mark_pipeline_starting(false, rewinder::startup::LiveQueueProfile::Small);
    assert_eq!(state.last_error.as_deref(), Some("previous"));
    assert!(!state.first_audio_frame_seen);
    assert_eq!(state.video_smooth_state, rewinder::state::VideoSmoothStateDto::Idle);
    assert_eq!(state.capture_restart_count, 4);
    assert_eq!(state.mic_recovery_state, "ok");
}
