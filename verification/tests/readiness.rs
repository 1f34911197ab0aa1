use rewinder::readiness::{
    concurrent_sessions_to_report, next_queue_profile, ReadinessNote, SystemAudioReadiness,
};
use rewinder::startup::LiveQueueProfile;
use rewinder::state::CaptureHealthDto;

#[test]
fn system_audio_loss_is_reported_once_per_gap() {
    let mut readiness = SystemAudioReadiness::new();
    assert!(readiness
        .observe(true, true, CaptureHealthDto::Running, 1_000)
        .is_empty());
    assert_eq!(
        readiness.observe(true, false, CaptureHealthDto::Running, 2_000),
        vec![ReadinessNote::SystemAudioNotReadyStart]
    );
    assert_eq!(
        readiness.audio_warmup_grace_ms(true, false, 5_000),
        Some(5_000)
    );
    assert_eq!(
        readiness.observe(true, false, CaptureHealthDto::Running, 10_000),
        vec![ReadinessNote::SystemAudioHardUnavailable { elapsed_ms: 8_000 }]
    );
    assert!(readiness
        .observe(true, false, CaptureHealthDto::Running, 12_000)
        .is_empty());
    assert_eq!(
        readiness.observe(true, true, CaptureHealthDto::Running, 13_000),
        vec![ReadinessNote::SystemAudioRecovered]
    );
    assert_eq!(readiness.last_ready_at_ms, Some(13_000));
}

#[test]
fn audio_loss_is_not_reported_while_capture_restarts() {
    let mut readiness = SystemAudioReadiness::new();
    readiness.observe(true, false, CaptureHealthDto::Restarting, 0);
    assert!(readiness
        .observe(true, false, CaptureHealthDto::Restarting, 9_000)
        .is_empty());
    assert_eq!(readiness.audio_warmup_grace_ms(true, false, 9_000), Some(0));
    assert_eq!(readiness.audio_warmup_grace_ms(false, false, 9_000), None);
    readiness.reset();
    assert_eq!(readiness.not_ready_since_ms, None);
}

#[test]
fn starved_small_queues_are_elevated_once() {
    assert_eq!(
        next_queue_profile(true, "small", LiveQueueProfile::Small),
        (LiveQueueProfile::Elevated, true)
    );
    assert_eq!(
        next_queue_profile(true, "elevated", LiveQueueProfile::Small),
        (LiveQueueProfile::Small, false)
    );
    assert_eq!(
        next_queue_profile(false, "small", LiveQueueProfile::Small),
        (LiveQueueProfile::Small, false)
    );
}

#[test]
fn new_concurrent_session_counts_are_reported() {
    assert_eq!(concurrent_sessions_to_report(None, Some(2)), Some(2));
    assert_eq!(concurrent_sessions_to_report(Some(2), Some(2)), None);
    assert_eq!(concurrent_sessions_to_report(Some(2), Some(1)), None);
    assert_eq!(concurrent_sessions_to_report(Some(2), None), None);
}

#[test]
fn runtime_readings_are_recorded_each_tick() {
    let permission = rewinder::state::PermissionStateDto {
        screen_recording_granted: true,
        system_audio_granted: true,
        output_dir_writable: true,
        output_dir_permission_error: None,
        reason: None,
    };
    let mut state =
        rewinder::state::ClipperState::new(rewinder::settings::SettingsDto::default(), permission);
    let readings = |sessions: Option<u8>, starved: bool| rewinder::readiness::RuntimeReadings {
        load: rewinder::projection::LoadReadings {
            queue_starvation_detected: starved,
            playback_outside_realtime_band: false,
            capture_speed_low: false,
            output_fps_low: false,
            below_realtime: false,
        },
        save_ready: true,
        system_audio_path_ready: true,
        mic_path_ready: false,
        mic_frames_seen: false,
        mic_capture_session_running: false,
        mic_samples_per_sec: None,
        mic_attach_runtime_state: None,
        audio_path_ready: true,
        first_audio_frame_seen: true,
        live_queue_profile: LiveQueueProfile::Small,
        capture_dropped_frames: 4,
        capture_queue_overflows: 0,
        concurrent_session_count: sessions,
        capture_owner_pid: Some(9),
    };
    assert_eq!(state.refresh_runtime_readings(readings(Some(2), false)), Some(2));
    assert_eq!(state.refresh_runtime_readings(readings(Some(2), true)), None);
    assert_eq!(state.capture_load_state, "stressed");
    assert!(state.save_ready);
    assert_eq!(state.capture_dropped_frames, 4);
}
