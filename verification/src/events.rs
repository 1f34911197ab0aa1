//! Names and payloads of the events the engine announces to its host.
use vstd::prelude::*;

verus! {

pub const ENGINE_STATE_CHANGED: &'static str = "rewinder://engine-state-changed";
pub const CLIP_SAVED: &'static str = "rewinder://clip-saved";
pub const SAVE_FAILED: &'static str = "rewinder://save-failed";
pub const SAVE_DEFERRED: &'static str = "rewinder://save-deferred";
pub const SAVE_WARNING: &'static str = "rewinder://save-warning";
pub const PERMISSION_REQUIRED: &'static str = "rewinder://permission-required";
pub const HOTKEY_TRIGGERED: &'static str = "rewinder://hotkey-triggered";
pub const SETTINGS_UPDATED: &'static str = "rewinder://settings-updated";
pub const CAPTURE_HEALTH_CHANGED: &'static str = "rewinder://capture-health-changed";
pub const HOTKEY_CONFLICT: &'static str = "rewinder://hotkey-conflict";
pub const CAPTURE_RESTARTED: &'static str = "rewinder://capture-restarted";
pub const AUDIO_MODE_CHANGED: &'static str = "rewinder://audio-mode-changed";
pub const CAPTURE_DEGRADED: &'static str = "rewinder://capture-degraded";
pub const CAPTURE_PROFILE_CHANGED: &'static str = "rewinder://capture-profile-changed";
pub const CAPTURE_PROFILE_RECOVERED: &'static str = "rewinder://capture-profile-recovered";
pub const CAPTURE_PAUSED: &'static str = "rewinder://capture-paused";
pub const CAPTURE_RESUMED: &'static str = "rewinder://capture-resumed";
pub const AUDIO_PATH_FAILED: &'static str = "rewinder://audio-path-failed";
pub const AUDIO_PATH_READY: &'static str = "rewinder://audio-path-ready";
pub const MIC_PATH_DEGRADED: &'static str = "rewinder://mic-path-degraded";
pub const MIC_PATH_RECOVERED: &'static str = "rewinder://mic-path-recovered";
pub const MIC_PERMISSION_CHANGED: &'static str = "rewinder://mic-permission-changed";
pub const PERF_GUARD_TRANSITION: &'static str = "rewinder://perf-guard-transition";

/// A failure, with its machine code and a suggested action when known.
#[derive(Debug, Clone)]
pub struct ErrorPayload {
    pub message: String,
    pub code: Option<String>,
    pub action: Option<String>,
}

#[derive(Debug, Clone)]
pub struct HotkeyPayload {
    pub hotkey: String,
}

#[derive(Debug, Clone)]
pub struct SettingsUpdatedPayload {
    pub message: String,
}

#[derive(Debug, Clone)]
pub struct CaptureHealthPayload {
    pub health: String,
    pub reason: Option<String>,
}

#[derive(Debug, Clone)]
pub struct CaptureRestartedPayload {
    pub reason: String,
}

#[derive(Debug, Clone)]
pub struct AudioModePayload {
    pub mode: String,
    pub reason: Option<String>,
}

#[derive(Debug, Clone)]
pub struct AudioPathReadyPayload {
    pub mode: String,
}

#[derive(Debug, Clone)]
pub struct MicPermissionPayload {
    pub status: String,
    pub message: Option<String>,
}

#[derive(Debug, Clone)]
pub struct CaptureProfilePayload {
    pub from: String,
    pub to: String,
    pub reason: String,
}

/// A step of the performance guard: a step down or up between capture
/// profiles, or a transition it held back, with the reasons behind it.
#[derive(Debug, Clone)]
pub struct PerfGuardTransitionPayload {
    pub action: String,
    pub guard_state: String,
    pub hard: bool,
    pub primary_reason_code: Option<String>,
    pub contributing_reason_codes: Vec<String>,
    pub suppressed_reason_code: Option<String>,
    pub from_profile: Option<String>,
    pub to_profile: Option<String>,
    pub sampled_at_epoch_ms: i64,
}

} // verus!
