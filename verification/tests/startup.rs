use rewinder::settings::SettingsDto;
use rewinder::startup::{
    capture_dimensions, is_output_dir_permission_error, max_replay_history_age,
    normalize_mic_backend_label, parse_segment_identity, parse_segment_index,
    parse_segment_session_id, requested_audio_attempts, requested_audio_modes,
    startup_probe_timeout_for_mode, strip_output_dir_permission_prefix, AudioMode,
    AudioStartupStrategy, LiveQueueProfile,
};

#[test]
fn system_only_fallback_policy_does_not_append_video_only_mode() {
    let mut settings = SettingsDto::default();
    settings.audio_mode = "system_only".to_string();
    settings.audio_fallback_policy = "system_only_fallback".to_string();
    let modes = requested_audio_modes(&settings, AudioStartupStrategy::SystemFirst);
    assert_eq!(modes.len(), 1);
    assert_eq!(modes[0].as_str(), "system_only");
}

#[test]
fn required_mic_policy_keeps_only_mic_mode() {
    let mut settings = SettingsDto::default();
    settings.audio_mode = "system_plus_mic".to_string();
    settings.mic_enabled = true;
    settings.mic_failure_policy = "required".to_string();
    let modes = requested_audio_modes(&settings, AudioStartupStrategy::SystemFirst);
    assert_eq!(modes.len(), 1);
    assert_eq!(modes[0].as_str(), "system_plus_mic");
}

#[test]
fn best_effort_mic_starts_with_mixed_mode_on_system_first_strategy() {
    let mut settings = SettingsDto::default();
    settings.audio_mode = "system_plus_mic".to_string();
    settings.mic_enabled = true;
    settings.mic_failure_policy = "best_effort".to_string();
    let modes = requested_audio_modes(&settings, AudioStartupStrategy::SystemFirst);
    assert_eq!(modes.len(), 2);
    assert_eq!(modes[0].as_str(), "system_plus_mic");
    assert_eq!(modes[1].as_str(), "system_only");
}

#[test]
fn best_effort_mic_prefers_mic_when_upgrade_strategy_requested() {
    let mut settings = SettingsDto::default();
    settings.audio_mode = "system_plus_mic".to_string();
    settings.mic_enabled = true;
    settings.mic_failure_policy = "best_effort".to_string();
    let modes = requested_audio_modes(&settings, AudioStartupStrategy::PreferMic);
    assert_eq!(modes.len(), 2);
    assert_eq!(modes[0].as_str(), "system_plus_mic");
    assert_eq!(modes[1].as_str(), "system_only");
}

#[test]
fn capture_dimensions_supports_runtime_540p_profile() {
    assert_eq!(capture_dimensions(540), (960, 540));
}

#[test]
fn capture_dimensions_of_common_heights() {
    assert_eq!(capture_dimensions(1080), (1920, 1080));
    assert_eq!(capture_dimensions(720), (1280, 720));
}

#[test]
fn audio_mode_names_and_inputs() {
    assert_eq!(AudioMode::VideoOnly.as_str(), "video_only");
    assert!(!AudioMode::VideoOnly.has_audio());
    assert!(AudioMode::SystemPlusMic.has_mic());
    assert!(!AudioMode::SystemOnly.has_mic());
    assert_eq!(LiveQueueProfile::Small.as_str(), "small");
    assert_eq!(LiveQueueProfile::Elevated.video_thread_queue_size(), 32);
    assert_eq!(LiveQueueProfile::Small.audio_thread_queue_size(), 64);
}

#[test]
fn attempts_cover_each_mode() {
    let settings = SettingsDto::default();
    let attempts = requested_audio_attempts(&settings, AudioStartupStrategy::SystemFirst);
    assert_eq!(attempts.len(), 1);
    assert_eq!(attempts[0].mode, AudioMode::SystemOnly);
}

#[test]
fn segment_names_give_session_and_index() {
    assert_eq!(
        parse_segment_identity("seg_abc_00000012.mp4"),
        Some(("abc".to_string(), 12))
    );
    assert_eq!(parse_segment_session_id("seg_a_b_00000003.mp4"), Some("a_b".to_string()));
    assert_eq!(parse_segment_index("seg_x_00000007.mp4"), Some(7));
    assert_eq!(parse_segment_index("notes.txt"), None);
}

#[test]
fn output_dir_permission_errors_are_recognised() {
    assert!(is_output_dir_permission_error("output_dir_permission_required: denied"));
    assert!(!is_output_dir_permission_error("other failure"));
    assert_eq!(
        strip_output_dir_permission_prefix("output_dir_permission_required: denied"),
        "denied"
    );
}

#[test]
fn history_age_and_probe_timeouts() {
    assert_eq!(max_replay_history_age(60), 75);
    let settings = SettingsDto::default();
    assert_eq!(startup_probe_timeout_for_mode(AudioMode::SystemOnly, &settings, 0), 10_000);
    assert_eq!(startup_probe_timeout_for_mode(AudioMode::SystemOnly, &settings, 1), 8_000);
    assert_eq!(startup_probe_timeout_for_mode(AudioMode::SystemPlusMic, &settings, 1), 14_000);
    assert_eq!(startup_probe_timeout_for_mode(AudioMode::VideoOnly, &settings, 0), 8_000);
    assert_eq!(normalize_mic_backend_label("sck_experimental"), "sck_native");
    assert_eq!(normalize_mic_backend_label("bogus"), "auto");
}
