//! Engine state enumerations, permission and device records, the engine's
//! mutable state, and the lifecycle state that permissions and the replay
//! switch select.
use vstd::prelude::*;
use crate::settings::SettingsDto;

verus! {

pub const MAX_RECENT_CLIPS: usize = 50;

#[derive(Debug, Clone, Copy, PartialEq, Eq, Structural)]
pub enum LifecycleState {
    Booting,
    PermissionRequired,
    Armed,
    SavingReplay,
    Disabled,
}

#[derive(Debug, Clone, Copy, PartialEq, Eq, Structural)]
pub enum CaptureHealthDto {
    Starting,
    Running,
    Restarting,
    Degraded,
    Stopped,
}

#[derive(Debug, Clone, Copy, PartialEq, Eq, Structural)]
pub enum HotkeyStatusDto {
    Registered,
    Conflict,
    Fallback,
    Invalid,
}

#[derive(Debug, Clone, Copy, PartialEq, Eq, Structural)]
pub enum AudioHealthDto {
    Healthy,
    Degraded,
    Unavailable,
}

#[derive(Debug, Clone, Copy, PartialEq, Eq, Structural)]
pub enum SaveStageDto {
    Idle,
    Queued,
    SavingFast,
    Ready,
}

#[derive(Debug, Clone, Copy, PartialEq, Eq, Structural)]
pub enum VideoSmoothStateDto {
    Idle,
    Pending,
    Processing,
    Complete,
    Failed,
}

#[derive(Debug, Clone, Copy, PartialEq, Eq, Structural)]
pub enum MicAttachStateDto {
    Inactive,
    SilenceFiller,
    Live,
    Degraded,
}

#[derive(Debug, Clone)]
pub struct MicrophoneDeviceDto {
    pub id: String,
    pub name: String,
    pub is_default: bool,
    pub is_available: bool,
}

#[derive(Debug, Clone)]
pub struct PermissionStateDto {
    pub screen_recording_granted: bool,
    pub system_audio_granted: bool,
    pub output_dir_writable: bool,
    pub output_dir_permission_error: Option<String>,
    pub reason: Option<String>,
}

#[derive(Debug, Clone, Copy, PartialEq, Eq, Structural)]
pub enum TriggerSourceDto {
    Manual,
    Hotkey,
}

#[derive(Debug, Clone)]
pub struct GrantOutputDirAccessResultDto {
    pub permission: PermissionStateDto,
    pub opened_settings: bool,
    pub message: String,
}

#[derive(Debug, Clone)]
pub struct GrantScreenRecordingAccessResultDto {
    pub permission: PermissionStateDto,
    pub opened_settings: bool,
    pub message: String,
}

#[derive(Debug, Clone)]
pub struct GrantMicrophoneAccessResultDto {
    pub permission: PermissionStateDto,
    pub mic_permission_status: String,
    pub mic_permission_error: Option<String>,
    pub opened_settings: bool,
    pub message: String,
}

/// The engine's mutable state.
///
/// Measurements with a fractional part (microphone level, capture speed,
/// output frame rate, mix gain) and the recent-clip list are kept next to it
/// by the application shell.
#[derive(Debug, Clone)]
pub struct ClipperState {
    pub lifecycle_state: LifecycleState,
    pub capture_health: CaptureHealthDto,
    pub audio_health: AudioHealthDto,
    pub save_stage: SaveStageDto,
    pub system_audio_path_ready: bool,
    pub mic_path_ready: bool,
    pub mic_frames_seen: bool,
    pub mic_permission_status: String,
    pub mic_permission_error: Option<String>,
    pub mic_capture_session_running: bool,
    pub mic_samples_per_sec: Option<u32>,
    pub mic_attach_state: MicAttachStateDto,
    pub mic_recovery_state: String,
    pub mic_signal_silent: bool,
    pub selected_microphone_name: Option<String>,
    pub last_mic_error_code: Option<String>,
    pub last_mic_error_message: Option<String>,
    pub audio_path_ready: bool,
    pub first_audio_frame_seen: bool,
    pub capture_load_state: String,
    pub guard_state: String,
    pub guard_primary_reason_code: Option<String>,
    pub guard_contributing_reason_codes: Vec<String>,
    pub guard_suppressed_reason_code: Option<String>,
    pub guard_last_transition_at_epoch_ms: Option<i64>,
    pub live_queue_profile: String,
    pub save_ready: bool,
    pub hotkey_status: HotkeyStatusDto,
    pub active_audio_mode: String,
    pub effective_audio_mode: String,
    pub capture_backend: String,
    pub mic_backend_in_use: String,
    pub requested_video_resolution: u16,
    pub requested_fps: u16,
    pub requested_video_bitrate_kbps: u32,
    pub effective_video_resolution: u16,
    pub effective_fps: u16,
    pub effective_video_bitrate_kbps: u32,
    pub audio_fallback_policy: String,
    pub degrade_reason: Option<String>,
    pub audio_degrade_reason: Option<String>,
    pub last_audio_mode_error: Option<String>,
    pub capture_restart_count: u32,
    pub capture_interrupt_count: u32,
    pub video_smooth_state: VideoSmoothStateDto,
    pub capture_dropped_frames: u64,
    pub capture_queue_overflows: u64,
    pub concurrent_session_count: Option<u8>,
    pub capture_owner_pid: Option<u32>,
    pub system_memory_pressure_level: Option<String>,
    pub capture_crash_loop: bool,
    pub permission: PermissionStateDto,
    pub settings: SettingsDto,
    pub is_saving: bool,
    pub arm_blocker: Option<String>,
    pub arm_blocker_code: Option<String>,
    pub arm_blocker_action: Option<String>,
    pub last_error: Option<String>,
    pub dropped_video_packets: u64,
    pub dropped_audio_packets: u64,
    pub last_contiguity_break_code: Option<String>,
}

impl ClipperState {
    /// The state of a freshly built engine: booting, capture starting, no
    /// audio yet, and the requested profile as the effective one.
    pub fn new(settings: SettingsDto, permission: PermissionStateDto) -> (r: Self)
        ensures
            r.lifecycle_state == LifecycleState::Booting,
            r.capture_health == CaptureHealthDto::Starting,
            r.audio_health == AudioHealthDto::Unavailable,
            r.save_stage == SaveStageDto::Idle,
            !r.system_audio_path_ready,
            !r.mic_path_ready,
            !r.is_saving,
            !r.save_ready,
            r.mic_attach_state == MicAttachStateDto::Inactive,
            r.mic_recovery_state@ == "ok"@,
            r.active_audio_mode@ == settings.audio_mode@,
            r.effective_audio_mode@ == settings.audio_mode@,
            r.mic_backend_in_use@ == settings.mic_capture_backend@,
            r.requested_video_resolution == settings.video_resolution,
            r.requested_fps == settings.fps,
            r.requested_video_bitrate_kbps == settings.video_bitrate_kbps,
            r.effective_video_resolution == settings.video_resolution,
            r.effective_fps == settings.fps,
            r.effective_video_bitrate_kbps == settings.video_bitrate_kbps,
            r.audio_fallback_policy@ == settings.audio_fallback_policy@,
            r.capture_restart_count == 0,
            r.capture_interrupt_count == 0,
            r.permission == permission,
            r.settings == settings,
            r.last_error is None,
    {
        let active_audio_mode = settings.audio_mode.clone();
        let effective_audio_mode = settings.audio_mode.clone();
        let mic_backend_in_use = settings.mic_capture_backend.clone();
        let audio_fallback_policy = settings.audio_fallback_policy.clone();
        let requested_video_resolution = settings.video_resolution;
        let requested_fps = settings.fps;
        let requested_video_bitrate_kbps = settings.video_bitrate_kbps;
        ClipperState {
            lifecycle_state: LifecycleState::Booting,
            capture_health: CaptureHealthDto::Starting,
            audio_health: AudioHealthDto::Unavailable,
            save_stage: SaveStageDto::Idle,
            system_audio_path_ready: false,
            mic_path_ready: false,
            mic_frames_seen: false,
            mic_permission_status: "unknown".to_string(),
            mic_permission_error: None,
            mic_capture_session_running: false,
            mic_samples_per_sec: None,
            mic_attach_state: MicAttachStateDto::Inactive,
            mic_recovery_state: "ok".to_string(),
            mic_signal_silent: false,
            selected_microphone_name: None,
            last_mic_error_code: None,
            last_mic_error_message: None,
            audio_path_ready: false,
            first_audio_frame_seen: false,
            capture_load_state: "normal".to_string(),
            guard_state: "idle".to_string(),
            guard_primary_reason_code: None,
            guard_contributing_reason_codes: Vec::new(),
            guard_suppressed_reason_code: None,
            guard_last_transition_at_epoch_ms: None,
            live_queue_profile: "small".to_string(),
            save_ready: false,
            hotkey_status: HotkeyStatusDto::Registered,
            active_audio_mode,
            effective_audio_mode,
            capture_backend: "screencapturekit-swift".to_string(),
            mic_backend_in_use,
            requested_video_resolution,
            requested_fps,
            requested_video_bitrate_kbps,
            effective_video_resolution: requested_video_resolution,
            effective_fps: requested_fps,
            effective_video_bitrate_kbps: requested_video_bitrate_kbps,
            audio_fallback_policy,
            degrade_reason: None,
            audio_degrade_reason: None,
            last_audio_mode_error: None,
            capture_restart_count: 0,
            capture_interrupt_count: 0,
            video_smooth_state: VideoSmoothStateDto::Idle,
            capture_dropped_frames: 0,
            capture_queue_overflows: 0,
            concurrent_session_count: None,
            capture_owner_pid: None,
            system_memory_pressure_level: None,
            capture_crash_loop: false,
            permission,
            settings,
            is_saving: false,
            arm_blocker: None,
            arm_blocker_code: None,
            arm_blocker_action: None,
            last_error: None,
            dropped_video_packets: 0,
            dropped_audio_packets: 0,
            last_contiguity_break_code: None,
        }
    }

    pub fn is_armed(&self) -> (r: bool)
        ensures
            r == (self.lifecycle_state == LifecycleState::Armed),
    {
        self.lifecycle_state == LifecycleState::Armed
    }
}

/// Lifecycle selected by the permissions and the replay switch: disabled when
/// replay is off, armed when screen recording, system audio and the output
/// folder are all granted, otherwise waiting for permission.
pub open spec fn spec_boot_state(permission: PermissionStateDto, replay_enabled: bool) -> LifecycleState {
    if !replay_enabled {
        LifecycleState::Disabled
    } else if permission.screen_recording_granted && permission.system_audio_granted
        && permission.output_dir_writable {
        LifecycleState::Armed
    } else {
        LifecycleState::PermissionRequired
    }
}

pub fn boot_state(permission: &PermissionStateDto, replay_enabled: bool) -> (r: LifecycleState)
    ensures
        r == spec_boot_state(*permission, replay_enabled),
{
    if !replay_enabled {
        return LifecycleState::Disabled;
    }
    if permission.screen_recording_granted && permission.system_audio_granted
        && permission.output_dir_writable {
        LifecycleState::Armed
    } else {
        LifecycleState::PermissionRequired
    }
}

/// The idle lifecycle (after a stop or a rollback) is the one that booting
/// would select.
pub fn idle_state(permission: &PermissionStateDto, replay_enabled: bool) -> (r: LifecycleState)
    ensures
        r == spec_boot_state(*permission, replay_enabled),
{
    boot_state(permission, replay_enabled)
}

/// The lifecycle never selects the transient states (booting, saving): it is
/// always one of disabled, armed or waiting for permission.
pub proof fn boot_state_is_settled(permission: PermissionStateDto, replay_enabled: bool)
    ensures
        spec_boot_state(permission, replay_enabled) != LifecycleState::Booting,
        spec_boot_state(permission, replay_enabled) != LifecycleState::SavingReplay,
        (spec_boot_state(permission, replay_enabled) == LifecycleState::Armed) <==> (replay_enabled
            && permission.screen_recording_granted && permission.system_audio_granted
            && permission.output_dir_writable),
{
}

} // verus!
