//! Capture settings that the engine's decisions read.
use vstd::prelude::*;

verus! {

/// User settings of the replay engine.
///
/// The microphone mix gain, a decibel value with a fractional part, is held
/// next to these settings by the application shell, which builds the audio
/// mix graph.
#[derive(Debug, Clone)]
pub struct SettingsDto {
    pub replay_enabled: bool,
    pub output_dir: String,
    pub replay_duration_secs: u16,
    pub buffer_duration_secs: u16,
    pub video_resolution: u16,
    pub fps: u16,
    pub video_bitrate_kbps: u32,
    pub segment_time_ms: u16,
    pub audio_mode: String,
    pub audio_fallback_policy: String,
    pub audio_bitrate_kbps: u32,
    pub audio_sample_rate_hz: u32,
    pub audio_channels: u16,
    pub audio_startup_timeout_ms: u32,
    pub exclude_current_process_audio: bool,
    pub system_volume_percent: u8,
    pub mic_enabled: bool,
    pub mic_failure_policy: String,
    pub mic_capture_backend: String,
    pub mic_retry_interval_secs: u32,
    pub mic_auto_boost_volume: bool,
    pub mic_noise_suppression: bool,
    pub selected_microphone_id: Option<String>,
    pub quality_policy: String,
    pub quality_preference: String,
    pub performance_guard_enabled: bool,
    pub performance_guard_level: String,
    pub battery_guard_enabled: bool,
    pub battery_max_fps: u16,
    /// Seconds of stable capture before a step back up; 0 for the default.
    pub profile_recover_hold_secs: u16,
}

impl Default for SettingsDto {
    fn default() -> (r: Self)
        ensures
            r.replay_enabled,
            r.audio_mode@ == "system_only"@,
            r.audio_fallback_policy@ == "system_only_fallback"@,
            !r.mic_enabled,
            r.mic_failure_policy@ == "best_effort"@,
            r.mic_capture_backend@ == "auto"@,
            r.video_resolution == 1080,
            r.fps == 60,
            r.video_bitrate_kbps == 10_000,
            r.segment_time_ms == 500,
            r.replay_duration_secs == 30,
            r.buffer_duration_secs == 60,
            r.quality_policy@ == "adaptive_recover"@,
            r.quality_preference@ == "prefer_smoothness"@,
            r.performance_guard_enabled,
            r.performance_guard_level@ == "balanced"@,
            !r.battery_guard_enabled,
            r.battery_max_fps == 30,
            r.selected_microphone_id is None,
            r.profile_recover_hold_secs == 0,
            r.output_dir@ == "~/Downloads/Rewinder"@,
            r.audio_bitrate_kbps == 192,
            r.audio_sample_rate_hz == 48_000,
            r.audio_channels == 2,
            r.audio_startup_timeout_ms == 8_000,
            r.exclude_current_process_audio,
            r.system_volume_percent == 100,
            r.mic_retry_interval_secs == 15,
            !r.mic_auto_boost_volume,
            !r.mic_noise_suppression,
    {
        SettingsDto {
            replay_enabled: true,
            output_dir: "~/Downloads/Rewinder".to_string(),
            replay_duration_secs: 30,
            buffer_duration_secs: 60,
            video_resolution: 1080,
            fps: 60,
            video_bitrate_kbps: 10_000,
            segment_time_ms: 500,
            audio_mode: "system_only".to_string(),
            audio_fallback_policy: "system_only_fallback".to_string(),
            audio_bitrate_kbps: 192,
            audio_sample_rate_hz: 48_000,
            audio_channels: 2,
            audio_startup_timeout_ms: 8_000,
            exclude_current_process_audio: true,
            system_volume_percent: 100,
            mic_enabled: false,
            mic_failure_policy: "best_effort".to_string(),
            mic_capture_backend: "auto".to_string(),
            mic_retry_interval_secs: 15,
            mic_auto_boost_volume: false,
            mic_noise_suppression: false,
            selected_microphone_id: None,
            quality_policy: "adaptive_recover".to_string(),
            quality_preference: "prefer_smoothness".to_string(),
            performance_guard_enabled: true,
            performance_guard_level: "balanced".to_string(),
            battery_guard_enabled: false,
            battery_max_fps: 30,
            profile_recover_hold_secs: 0,
        }
    }
}

} // verus!
