//! Decisions of the replay engine that depend only on settings, state and
//! sampled measurements: the runtime quality ladder, the battery floor, save
//! blockers, microphone attach/recovery state, operator health, and the
//! resource budgets of the capture stack.
use vstd::prelude::*;
use crate::text::{
    chars_to_string, contains, contains_str, decimal, find, find_exec, lines, lower, lower_chars,
    opt_str, opt_string, parse_i32, parse_i32_range, push_decimal, split_lines, str_chars, str_eq,
    sub_chars, trim, trim_chars, views,
};
use crate::log_parsers::MicAttachRuntimeState;
use crate::settings::SettingsDto;
use crate::state::{
    AudioHealthDto, CaptureHealthDto, ClipperState, LifecycleState, MicAttachStateDto,
    TriggerSourceDto,
};

verus! {

pub const MAX_RUNTIME_PROFILE_INDEX: usize = 3;

pub const NO_SEGMENTS_MIN_STALL_MS: u64 = 2_500;

pub const NO_SEGMENTS_MAX_STALL_MS: u64 = 6_000;

/// Resolution, frame rate and bitrate that the capture runs with.
#[derive(Debug, Clone, Copy, PartialEq, Eq, Structural)]
pub struct EffectiveCaptureProfile {
    pub video_resolution: u16,
    pub fps: u16,
    pub video_bitrate_kbps: u32,
}

pub open spec fn spec_profile_label(p: EffectiveCaptureProfile) -> Seq<char> {
    decimal(p.video_resolution as nat) + "p"@ + decimal(p.fps as nat) + "fps-"@ + decimal(
        p.video_bitrate_kbps as nat,
    ) + "k"@
}

impl EffectiveCaptureProfile {
    /// `"{resolution}p{fps}fps-{bitrate}k"`.
    pub fn label(self) -> (r: String)
        ensures
            r@ == spec_profile_label(self),
    {
        let mut v: Vec<char> = Vec::new();
        push_decimal(&mut v, self.video_resolution as u64);
        v.push('p');
        push_decimal(&mut v, self.fps as u64);
        crate::text::append_str(&mut v, "fps-");
        push_decimal(&mut v, self.video_bitrate_kbps as u64);
        v.push('k');
        proof {
            reveal_strlit("p");
            reveal_strlit("k");
        }
        assert(v@ =~= spec_profile_label(self));
        chars_to_string(&v)
    }
}

pub open spec fn spec_profile_from_settings(s: SettingsDto) -> EffectiveCaptureProfile {
    EffectiveCaptureProfile {
        video_resolution: s.video_resolution,
        fps: s.fps,
        video_bitrate_kbps: s.video_bitrate_kbps,
    }
}

pub fn profile_from_settings(settings: &SettingsDto) -> (r: EffectiveCaptureProfile)
    ensures
        r == spec_profile_from_settings(*settings),
{
    EffectiveCaptureProfile {
        video_resolution: settings.video_resolution,
        fps: settings.fps,
        video_bitrate_kbps: settings.video_bitrate_kbps,
    }
}

pub open spec fn min_u16(a: u16, b: u16) -> u16 {
    if a <= b {
        a
    } else {
        b
    }
}

pub open spec fn min_u32(a: u32, b: u32) -> u32 {
    if a <= b {
        a
    } else {
        b
    }
}

pub open spec fn max_u16(a: u16, b: u16) -> u16 {
    if a >= b {
        a
    } else {
        b
    }
}

/// The quality ladder: step 0 is the requested profile; steps 1 and 2 cap the
/// frame rate at 30 and the bitrate at 8000 and 5500 kbps; step 3 and beyond
/// also cap the resolution at 720 lines and the bitrate at 4800 kbps. From
/// step 1 on, the frame rate is at least 1 and the resolution at least 360.
pub open spec fn spec_effective_profile_for_index(s: SettingsDto, index: int) -> EffectiveCaptureProfile {
    let requested = spec_profile_from_settings(s);
    let requested_fps = max_u16(requested.fps, 1);
    let requested_res = max_u16(requested.video_resolution, 360);
    if index == 0 {
        requested
    } else if index == 1 {
        EffectiveCaptureProfile {
            video_resolution: requested_res,
            fps: min_u16(requested_fps, 30),
            video_bitrate_kbps: min_u32(requested.video_bitrate_kbps, 8_000),
        }
    } else if index == 2 {
        EffectiveCaptureProfile {
            video_resolution: requested_res,
            fps: min_u16(requested_fps, 30),
            video_bitrate_kbps: min_u32(requested.video_bitrate_kbps, 5_500),
        }
    } else {
        EffectiveCaptureProfile {
            video_resolution: min_u16(requested_res, 720),
            fps: min_u16(requested_fps, 30),
            video_bitrate_kbps: min_u32(requested.video_bitrate_kbps, 4_800),
        }
    }
}

pub fn effective_profile_for_index(settings: &SettingsDto, index: usize) -> (r:
    EffectiveCaptureProfile)
    ensures
        r == spec_effective_profile_for_index(*settings, index as int),
{
    let requested = profile_from_settings(settings);
    let requested_fps = if requested.fps >= 1 {
        requested.fps
    } else {
        1
    };
    let requested_res = if requested.video_resolution >= 360 {
        requested.video_resolution
    } else {
        360
    };
    let capped_fps = if requested_fps <= 30 {
        requested_fps
    } else {
        30
    };
    match index {
        0 => requested,
        1 => EffectiveCaptureProfile {
            video_resolution: requested_res,
            fps: capped_fps,
            video_bitrate_kbps: if requested.video_bitrate_kbps <= 8_000 {
                requested.video_bitrate_kbps
            } else {
                8_000
            },
        },
        2 => EffectiveCaptureProfile {
            video_resolution: requested_res,
            fps: capped_fps,
            video_bitrate_kbps: if requested.video_bitrate_kbps <= 5_500 {
                requested.video_bitrate_kbps
            } else {
                5_500
            },
        },
        _ => EffectiveCaptureProfile {
            video_resolution: if requested_res <= 720 {
                requested_res
            } else {
                720
            },
            fps: capped_fps,
            video_bitrate_kbps: if requested.video_bitrate_kbps <= 4_800 {
                requested.video_bitrate_kbps
            } else {
                4_800
            },
        },
    }
}

/// Beyond the first step, each further step of the ladder never raises the
/// frame rate, the bitrate or the resolution.
pub proof fn ladder_steps_never_raise_quality(s: SettingsDto, i: int, j: int)
    requires
        1 <= i <= j,
    ensures
        spec_effective_profile_for_index(s, j).fps <= spec_effective_profile_for_index(s, i).fps,
        spec_effective_profile_for_index(s, j).video_bitrate_kbps
            <= spec_effective_profile_for_index(s, i).video_bitrate_kbps,
        spec_effective_profile_for_index(s, j).video_resolution
            <= spec_effective_profile_for_index(s, i).video_resolution,
{
}

/// Every step past the last one is the same as the last one.
pub proof fn ladder_is_flat_past_last_step(s: SettingsDto, i: int)
    requires
        i >= MAX_RUNTIME_PROFILE_INDEX,
    ensures
        spec_effective_profile_for_index(s, i) == spec_effective_profile_for_index(
            s,
            MAX_RUNTIME_PROFILE_INDEX as int,
        ),
{
}

/// The lowest step of the ladder whose frame rate is within the battery cap;
/// 0 when on AC power or with the battery guard off; the last step when none
/// is within the cap.
pub open spec fn spec_battery_floor_index(
    s: SettingsDto,
    on_battery: bool,
    battery_guard_enabled: bool,
    battery_max_fps: u16,
) -> int {
    if !on_battery || !battery_guard_enabled {
        0
    } else if spec_effective_profile_for_index(s, 0).fps <= battery_max_fps {
        0
    } else if spec_effective_profile_for_index(s, 1).fps <= battery_max_fps {
        1
    } else if spec_effective_profile_for_index(s, 2).fps <= battery_max_fps {
        2
    } else {
        MAX_RUNTIME_PROFILE_INDEX as int
    }
}

pub fn battery_floor_index(
    settings: &SettingsDto,
    on_battery: bool,
    battery_guard_enabled: bool,
    battery_max_fps: u16,
) -> (r: usize)
    ensures
        r as int == spec_battery_floor_index(
            *settings,
            on_battery,
            battery_guard_enabled,
            battery_max_fps,
        ),
        r <= MAX_RUNTIME_PROFILE_INDEX,
{
    if !on_battery || !battery_guard_enabled {
        return 0;
    }
    let mut index: usize = 0;
    while index <= MAX_RUNTIME_PROFILE_INDEX
        invariant
            index <= MAX_RUNTIME_PROFILE_INDEX + 1,
            on_battery && battery_guard_enabled,
            forall|k: int|
                0 <= k < index ==> spec_effective_profile_for_index(*settings, k).fps
                    > battery_max_fps,
        decreases MAX_RUNTIME_PROFILE_INDEX + 1 - index,
    {
        if effective_profile_for_index(settings, index).fps <= battery_max_fps {
            return index;
        }
        index = index + 1;
    }
    MAX_RUNTIME_PROFILE_INDEX
}

/// The battery floor is the first step of the ladder within the cap: no
/// lower step is within it.
pub proof fn battery_floor_is_first_step_within_cap(s: SettingsDto, cap: u16, k: int)
    requires
        0 <= k < spec_battery_floor_index(s, true, true, cap),
    ensures
        spec_effective_profile_for_index(s, k).fps > cap,
{
}

pub open spec fn spec_mic_attach_state(
    s: SettingsDto,
    active_audio_mode: Seq<char>,
    mic_path_ready: bool,
    mic_frames_seen: bool,
    runtime_state: Option<MicAttachRuntimeState>,
    current_state: MicAttachStateDto,
) -> MicAttachStateDto {
    if !s.mic_enabled || s.audio_mode@ != "system_plus_mic"@ {
        MicAttachStateDto::Inactive
    } else if active_audio_mode != "system_plus_mic"@ {
        MicAttachStateDto::Degraded
    } else if runtime_state is Some {
        match runtime_state->0 {
            MicAttachRuntimeState::SilenceFiller => MicAttachStateDto::SilenceFiller,
            MicAttachRuntimeState::Live => MicAttachStateDto::Live,
            MicAttachRuntimeState::Degraded => MicAttachStateDto::Degraded,
        }
    } else if mic_path_ready && mic_frames_seen {
        MicAttachStateDto::Live
    } else if mic_path_ready {
        MicAttachStateDto::SilenceFiller
    } else if current_state == MicAttachStateDto::Live {
        MicAttachStateDto::Degraded
    } else {
        MicAttachStateDto::SilenceFiller
    }
}

/// How the microphone is attached to the running capture.
pub fn derive_mic_attach_state(
    settings: &SettingsDto,
    active_audio_mode: &str,
    mic_path_ready: bool,
    mic_frames_seen: bool,
    runtime_state: Option<MicAttachRuntimeState>,
    current_state: MicAttachStateDto,
) -> (r: MicAttachStateDto)
    ensures
        r == spec_mic_attach_state(
            *settings,
            active_audio_mode@,
            mic_path_ready,
            mic_frames_seen,
            runtime_state,
            current_state,
        ),
{
    if !settings.mic_enabled || !str_eq(settings.audio_mode.as_str(), "system_plus_mic") {
        return MicAttachStateDto::Inactive;
    }
    if !str_eq(active_audio_mode, "system_plus_mic") {
        return MicAttachStateDto::Degraded;
    }
    if let Some(state) = runtime_state {
        return match state {
            MicAttachRuntimeState::SilenceFiller => MicAttachStateDto::SilenceFiller,
            MicAttachRuntimeState::Live => MicAttachStateDto::Live,
            MicAttachRuntimeState::Degraded => MicAttachStateDto::Degraded,
        };
    }
    if mic_path_ready && mic_frames_seen {
        return MicAttachStateDto::Live;
    }
    if mic_path_ready {
        return MicAttachStateDto::SilenceFiller;
    }
    if current_state == MicAttachStateDto::Live {
        return MicAttachStateDto::Degraded;
    }
    MicAttachStateDto::SilenceFiller
}

/// Why a save cannot start now.
#[derive(Debug, Clone)]
pub struct SaveBlocker {
    pub code: &'static str,
    pub message: String,
    pub action: Option<String>,
    pub retryable: bool,
}

/// Save blocker classes, in order of precedence.
#[derive(Debug, Clone, Copy, PartialEq, Eq, Structural)]
pub enum SaveBlockerKind {
    Busy,
    OutputDirPermissionRequired,
    PermissionRequired,
    Disabled,
    EngineStarting,
    SystemAudioWarmingUp,
    SystemAudioUnavailable,
    MicWarmingUp,
    MicRequiredUnavailable,
}

pub open spec fn capture_warming(h: CaptureHealthDto) -> bool {
    h == CaptureHealthDto::Starting || h == CaptureHealthDto::Restarting || h
        == CaptureHealthDto::Stopped
}

pub open spec fn spec_requires_system_audio(s: SettingsDto) -> bool {
    s.audio_fallback_policy@ == "system_only_fallback"@ && s.audio_mode@ != "video_only"@
}

pub open spec fn spec_mic_required(s: SettingsDto) -> bool {
    s.audio_mode@ == "system_plus_mic"@ && s.mic_enabled && s.mic_failure_policy@ == "required"@
}

pub open spec fn spec_save_blocker_kind(st: ClipperState) -> Option<SaveBlockerKind> {
    if st.is_saving || st.lifecycle_state == LifecycleState::SavingReplay {
        Some(SaveBlockerKind::Busy)
    } else if !st.permission.output_dir_writable {
        Some(SaveBlockerKind::OutputDirPermissionRequired)
    } else if st.lifecycle_state == LifecycleState::PermissionRequired {
        Some(SaveBlockerKind::PermissionRequired)
    } else if st.lifecycle_state == LifecycleState::Disabled {
        Some(SaveBlockerKind::Disabled)
    } else if st.lifecycle_state == LifecycleState::Booting {
        Some(SaveBlockerKind::EngineStarting)
    } else if spec_requires_system_audio(st.settings) && !st.system_audio_path_ready {
        if capture_warming(st.capture_health) {
            Some(SaveBlockerKind::SystemAudioWarmingUp)
        } else {
            Some(SaveBlockerKind::SystemAudioUnavailable)
        }
    } else if spec_mic_required(st.settings) && !st.mic_path_ready {
        if capture_warming(st.capture_health) {
            Some(SaveBlockerKind::MicWarmingUp)
        } else {
            Some(SaveBlockerKind::MicRequiredUnavailable)
        }
    } else {
        None
    }
}

pub open spec fn blocker_code(k: SaveBlockerKind) -> Seq<char> {
    match k {
        SaveBlockerKind::Busy => "busy"@,
        SaveBlockerKind::OutputDirPermissionRequired => "output_dir_permission_required"@,
        SaveBlockerKind::PermissionRequired => "permission_required"@,
        SaveBlockerKind::Disabled => "disabled"@,
        SaveBlockerKind::EngineStarting => "engine_starting"@,
        SaveBlockerKind::SystemAudioWarmingUp => "audio_warming_up"@,
        SaveBlockerKind::SystemAudioUnavailable => "system_audio_unavailable"@,
        SaveBlockerKind::MicWarmingUp => "audio_warming_up"@,
        SaveBlockerKind::MicRequiredUnavailable => "mic_required_unavailable"@,
    }
}

pub open spec fn blocker_retryable(k: SaveBlockerKind) -> bool {
    k == SaveBlockerKind::Busy || k == SaveBlockerKind::EngineStarting || k
        == SaveBlockerKind::SystemAudioWarmingUp || k == SaveBlockerKind::MicWarmingUp
}

/// The message of a blocker: the recorded permission error or reason where
/// there is one, a fixed text otherwise.
pub open spec fn blocker_message(k: SaveBlockerKind, st: ClipperState) -> Seq<char> {
    match k {
        SaveBlockerKind::Busy => "Replay save already in progress."@,
        SaveBlockerKind::OutputDirPermissionRequired => match st.permission.output_dir_permission_error {
            Some(e) => e@,
            None => "Downloads folder access is denied for Rewinder."@,
        },
        SaveBlockerKind::PermissionRequired => match st.permission.reason {
            Some(e) => e@,
            None => "Screen Recording permission is denied. Enable it in System Settings."@,
        },
        SaveBlockerKind::Disabled => "Replay is disabled. Enable replay to save clips."@,
        SaveBlockerKind::EngineStarting => "Replay engine is starting. Try again in a moment."@,
        SaveBlockerKind::SystemAudioWarmingUp =>
            "System audio path is starting. Try again in a moment."@,
        SaveBlockerKind::SystemAudioUnavailable =>
            "System audio path unavailable for current source."@,
        SaveBlockerKind::MicWarmingUp => "Microphone path is starting. Try again in a moment."@,
        SaveBlockerKind::MicRequiredUnavailable => "Microphone required but unavailable."@,
    }
}

pub open spec fn blocker_action(k: SaveBlockerKind) -> Option<Seq<char>> {
    match k {
        SaveBlockerKind::Busy => Some("Wait for the current save to finish."@),
        SaveBlockerKind::OutputDirPermissionRequired => Some(
            "Enable Rewinder in System Settings > Privacy & Security > Files and Folders (Downloads)."@,
        ),
        SaveBlockerKind::PermissionRequired => Some(
            "Open System Settings > Privacy & Security and grant required permissions."@,
        ),
        SaveBlockerKind::Disabled => Some("Enable replay from tray or settings."@),
        SaveBlockerKind::EngineStarting => None,
        SaveBlockerKind::SystemAudioWarmingUp => None,
        SaveBlockerKind::SystemAudioUnavailable => Some(
            "Check source availability or switch audio fallback policy to allow_video_only."@,
        ),
        SaveBlockerKind::MicWarmingUp => None,
        SaveBlockerKind::MicRequiredUnavailable => Some(
            "Grant microphone permission, choose a microphone device, or set mic policy to best_effort."@,
        ),
    }
}

pub open spec fn blocker_matches(b: SaveBlocker, k: SaveBlockerKind, st: ClipperState) -> bool {
    &&& b.code@ == blocker_code(k)
    &&& b.message@ == blocker_message(k, st)
    &&& opt_string(b.action) == blocker_action(k)
    &&& b.retryable == blocker_retryable(k)
}

fn some_string(s: &str) -> (r: Option<String>)
    ensures
        opt_string(r) == Some(s@),
{
    Some(s.to_string())
}

fn requires_system_audio(s: &SettingsDto) -> (r: bool)
    ensures
        r == spec_requires_system_audio(*s),
{
    str_eq(s.audio_fallback_policy.as_str(), "system_only_fallback") && !str_eq(
        s.audio_mode.as_str(),
        "video_only",
    )
}

fn mic_required(s: &SettingsDto) -> (r: bool)
    ensures
        r == spec_mic_required(*s),
{
    str_eq(s.audio_mode.as_str(), "system_plus_mic") && s.mic_enabled && str_eq(
        s.mic_failure_policy.as_str(),
        "required",
    )
}

/// What keeps a save from starting, if anything, in order of precedence:
/// a save in progress, the output folder, screen-recording permission,
/// replay disabled, engine booting, then the required audio paths (warming
/// up while capture is starting, unavailable otherwise).
pub fn save_blocker(state: &ClipperState) -> (r: Option<SaveBlocker>)
    ensures
        match spec_save_blocker_kind(*state) {
            None => r is None,
            Some(k) => r is Some && blocker_matches(r->0, k, *state),
        },
{
    if state.is_saving || state.lifecycle_state == LifecycleState::SavingReplay {
        return Some(
            SaveBlocker {
                code: "busy",
                message: "Replay save already in progress.".to_string(),
                action: some_string("Wait for the current save to finish."),
                retryable: true,
            },
        );
    }
    if !state.permission.output_dir_writable {
        let message = match &state.permission.output_dir_permission_error {
            Some(e) => e.clone(),
            None => "Downloads folder access is denied for Rewinder.".to_string(),
        };
        return Some(
            SaveBlocker {
                code: "output_dir_permission_required",
                message,
                action: some_string(
                    "Enable Rewinder in System Settings > Privacy & Security > Files and Folders (Downloads).",
                ),
                retryable: false,
            },
        );
    }
    if state.lifecycle_state == LifecycleState::PermissionRequired {
        let message = match &state.permission.reason {
            Some(e) => e.clone(),
            None => "Screen Recording permission is denied. Enable it in System Settings.".to_string(),
        };
        return Some(
            SaveBlocker {
                code: "permission_required",
                message,
                action: some_string(
                    "Open System Settings > Privacy & Security and grant required permissions.",
                ),
                retryable: false,
            },
        );
    }
    if state.lifecycle_state == LifecycleState::Disabled {
        return Some(
            SaveBlocker {
                code: "disabled",
                message: "Replay is disabled. Enable replay to save clips.".to_string(),
                action: some_string("Enable replay from tray or settings."),
                retryable: false,
            },
        );
    }
    if state.lifecycle_state == LifecycleState::Booting {
        return Some(
            SaveBlocker {
                code: "engine_starting",
                message: "Replay engine is starting. Try again in a moment.".to_string(),
                action: None,
                retryable: true,
            },
        );
    }
    let warming = state.capture_health == CaptureHealthDto::Starting || state.capture_health
        == CaptureHealthDto::Restarting || state.capture_health == CaptureHealthDto::Stopped;
    if requires_system_audio(&state.settings) && !state.system_audio_path_ready {
        if warming {
            return Some(
                SaveBlocker {
                    code: "audio_warming_up",
                    message: "System audio path is starting. Try again in a moment.".to_string(),
                    action: None,
                    retryable: true,
                },
            );
        }
        return Some(
            SaveBlocker {
                code: "system_audio_unavailable",
                message: "System audio path unavailable for current source.".to_string(),
                action: some_string(
                    "Check source availability or switch audio fallback policy to allow_video_only.",
                ),
                retryable: false,
            },
        );
    }
    if mic_required(&state.settings) && !state.mic_path_ready {
        if warming {
            return Some(
                SaveBlocker {
                    code: "audio_warming_up",
                    message: "Microphone path is starting. Try again in a moment.".to_string(),
                    action: None,
                    retryable: true,
                },
            );
        }
        return Some(
            SaveBlocker {
                code: "mic_required_unavailable",
                message: "Microphone required but unavailable.".to_string(),
                action: some_string(
                    "Grant microphone permission, choose a microphone device, or set mic policy to best_effort.",
                ),
                retryable: false,
            },
        );
    }
    None
}

/// A save is never blocked on an armed engine whose required audio paths are
/// ready and whose output folder is writable.
pub proof fn armed_and_ready_engine_is_never_blocked(st: ClipperState)
    requires
        st.lifecycle_state == LifecycleState::Armed,
        !st.is_saving,
        st.permission.output_dir_writable,
        st.system_audio_path_ready,
        st.mic_path_ready,
    ensures
        spec_save_blocker_kind(st) is None,
{
}

pub open spec fn spec_is_audio_path_blocker_code(code: Seq<char>) -> bool {
    code == "audio_warming_up"@ || code == "system_audio_unavailable"@ || code
        == "mic_required_unavailable"@
}

pub fn is_audio_path_blocker_code(code: &str) -> (r: bool)
    ensures
        r == spec_is_audio_path_blocker_code(code@),
{
    str_eq(code, "audio_warming_up") || str_eq(code, "system_audio_unavailable") || str_eq(
        code,
        "mic_required_unavailable",
    )
}

/// Five segment durations, kept within 2.5 s and 6 s.
pub open spec fn spec_segment_stall_threshold_ms(segment_time_ms: u16) -> int {
    let raw = segment_time_ms * 5;
    if raw < NO_SEGMENTS_MIN_STALL_MS {
        NO_SEGMENTS_MIN_STALL_MS as int
    } else if raw > NO_SEGMENTS_MAX_STALL_MS {
        NO_SEGMENTS_MAX_STALL_MS as int
    } else {
        raw
    }
}

pub fn segment_stall_threshold_ms(segment_time_ms: u16) -> (r: u64)
    ensures
        r as int == spec_segment_stall_threshold_ms(segment_time_ms),
        NO_SEGMENTS_MIN_STALL_MS <= r <= NO_SEGMENTS_MAX_STALL_MS,
{
    let raw = (segment_time_ms as u64) * 5;
    if raw < NO_SEGMENTS_MIN_STALL_MS {
        NO_SEGMENTS_MIN_STALL_MS
    } else if raw > NO_SEGMENTS_MAX_STALL_MS {
        NO_SEGMENTS_MAX_STALL_MS
    } else {
        raw
    }
}

pub open spec fn spec_should_apply_startup_bootstrap(s: SettingsDto, current_profile_index: int) -> bool {
    &&& s.performance_guard_enabled
    &&& s.performance_guard_level@ == "balanced"@
    &&& s.quality_policy@ == "adaptive_recover"@
    &&& s.quality_preference@ == "prefer_smoothness"@
    &&& current_profile_index == 0
    &&& s.video_resolution >= 1080
    &&& s.fps > 30
}

/// Whether to start a high-end capture on a lower step while it stabilises.
pub fn should_apply_startup_bootstrap(settings: &SettingsDto, current_profile_index: usize) -> (r:
    bool)
    ensures
        r == spec_should_apply_startup_bootstrap(*settings, current_profile_index as int),
{
    settings.performance_guard_enabled && str_eq(
        settings.performance_guard_level.as_str(),
        "balanced",
    ) && str_eq(settings.quality_policy.as_str(), "adaptive_recover") && str_eq(
        settings.quality_preference.as_str(),
        "prefer_smoothness",
    ) && current_profile_index == 0 && settings.video_resolution >= 1080 && settings.fps > 30
}

/// Number of overload signals that trigger a step down: 3 when quality is
/// preferred, 2 otherwise.
pub fn required_overload_signal_count(quality_preference: &str) -> (r: u8)
    ensures
        r == (if quality_preference@ == "prefer_quality"@ {
            3u8
        } else {
            2u8
        }),
{
    if str_eq(quality_preference, "prefer_quality") {
        3
    } else {
        2
    }
}

pub open spec fn spec_is_retryable_operator_health_blocker_code(code: Seq<char>) -> bool {
    code == "engine_starting"@ || code == "audio_warming_up"@
}

pub fn is_retryable_operator_health_blocker_code(code: &str) -> (r: bool)
    ensures
        r == spec_is_retryable_operator_health_blocker_code(code@),
{
    str_eq(code, "engine_starting") || str_eq(code, "audio_warming_up")
}

pub open spec fn spec_mic_recovery_state(
    s: SettingsDto,
    active_audio_mode: Seq<char>,
    mic_path_ready: bool,
    runtime_state: Option<Seq<char>>,
) -> Seq<char> {
    if !s.mic_enabled || s.audio_mode@ != "system_plus_mic"@ {
        "ok"@
    } else if s.mic_failure_policy@ == "required"@ && !mic_path_ready {
        "blocked_required"@
    } else if active_audio_mode == "system_only"@ {
        "fallback_system_only"@
    } else if runtime_state == Some("retrying"@) || !mic_path_ready {
        "retrying"@
    } else {
        "ok"@
    }
}

/// Microphone recovery state shown to the operator.
pub fn derive_mic_recovery_state(
    settings: &SettingsDto,
    active_audio_mode: &str,
    mic_path_ready: bool,
    runtime_state: Option<&str>,
) -> (r: String)
    ensures
        r@ == spec_mic_recovery_state(
            *settings,
            active_audio_mode@,
            mic_path_ready,
            opt_str(runtime_state),
        ),
{
    if !settings.mic_enabled || !str_eq(settings.audio_mode.as_str(), "system_plus_mic") {
        return "ok".to_string();
    }
    if str_eq(settings.mic_failure_policy.as_str(), "required") && !mic_path_ready {
        return "blocked_required".to_string();
    }
    if str_eq(active_audio_mode, "system_only") {
        return "fallback_system_only".to_string();
    }
    let retrying = match runtime_state {
        Some(s) => str_eq(s, "retrying"),
        None => false,
    };
    if retrying || !mic_path_ready {
        return "retrying".to_string();
    }
    "ok".to_string()
}

/// Operator health: a retryable blocker means warming up, `busy` is normal,
/// any other blocker means blocked; then warming up until the buffer is
/// save-ready, protecting while the profile is reduced, attention for mic
/// problems and degraded signals, normal otherwise.
pub open spec fn spec_operator_health(
    lifecycle_state: LifecycleState,
    capture_health: CaptureHealthDto,
    audio_health: AudioHealthDto,
    arm_blocker_code: Option<Seq<char>>,
    arm_blocker: Option<Seq<char>>,
    guard_state: Seq<char>,
    save_ready: bool,
    effective_video_resolution: u16,
    requested_video_resolution: u16,
    effective_fps: u16,
    requested_fps: u16,
    playback_stability: Seq<char>,
    mic_recovery_state: Seq<char>,
    last_error: Option<Seq<char>>,
) -> (Seq<char>, Seq<char>) {
    let or_else = |o: Option<Seq<char>>, d: Seq<char>|
        match o {
            Some(v) => v,
            None => d,
        };
    if arm_blocker_code is Some {
        let code = arm_blocker_code->0;
        if spec_is_retryable_operator_health_blocker_code(code) {
            if code == "engine_starting"@ {
                ("warming_up"@, "Replay engine is starting. Try again in a moment."@)
            } else {
                ("warming_up"@, or_else(arm_blocker, "System audio path is starting. Try again in a moment."@))
            }
        } else if code == "busy"@ {
            ("normal"@, "Replay capture is stable."@)
        } else if code == "permission_required"@ {
            ("blocked"@, "Screen Recording permission is required before capture can start."@)
        } else if code == "output_dir_permission_required"@ {
            ("blocked"@, "Downloads permission is required before clips can be saved."@)
        } else if code == "capture_paused"@ {
            ("blocked"@, or_else(arm_blocker, "Capture paused. Rewinder is not recording in the background."@))
        } else if code == "user_stopped_sharing"@ {
            ("blocked"@, "Capture stopped from macOS controls. Rewinder is not recording."@)
        } else {
            ("blocked"@, or_else(arm_blocker, "Replay is blocked until the current issue is resolved."@))
        }
    } else if lifecycle_state == LifecycleState::Booting || lifecycle_state
        == LifecycleState::PermissionRequired || capture_health == CaptureHealthDto::Starting
        || capture_health == CaptureHealthDto::Restarting || !save_ready {
        ("warming_up"@, "Capture is starting and building a stable replay buffer."@)
    } else if guard_state == "protecting"@ || effective_video_resolution < requested_video_resolution
        || effective_fps < requested_fps {
        (
            "protecting"@,
            "Capture protection is active. Rewinder reduced quality to keep replay stable."@,
        )
    } else if mic_recovery_state == "retrying"@ {
        ("attention"@, "Microphone unavailable; continuing replay and retrying mic."@)
    } else if mic_recovery_state == "fallback_system_only"@ {
        ("attention"@, "Microphone unavailable; continuing replay with system audio only."@)
    } else if playback_stability == "drifting"@ || capture_health == CaptureHealthDto::Degraded
        || audio_health != AudioHealthDto::Healthy {
        ("attention"@, or_else(last_error, "Capture is running, but some diagnostics need attention."@))
    } else {
        ("normal"@, "Replay capture is stable."@)
    }
}

fn or_default(o: Option<&str>, d: &str) -> (r: String)
    ensures
        r@ == match opt_str(o) {
            Some(v) => v,
            None => d@,
        },
{
    match o {
        Some(v) => v.to_string(),
        None => d.to_string(),
    }
}

fn pair(a: &str, b: &str) -> (r: (String, String))
    ensures
        r.0@ == a@,
        r.1@ == b@,
{
    (a.to_string(), b.to_string())
}

/// Operator health state and message; see `spec_operator_health`.
pub fn derive_operator_health_state(
    lifecycle_state: LifecycleState,
    capture_health: CaptureHealthDto,
    audio_health: AudioHealthDto,
    arm_blocker_code: Option<&str>,
    arm_blocker: Option<&str>,
    guard_state: &str,
    save_ready: bool,
    effective_video_resolution: u16,
    requested_video_resolution: u16,
    effective_fps: u16,
    requested_fps: u16,
    playback_stability: &str,
    mic_recovery_state: &str,
    last_error: Option<&str>,
) -> (r: (String, String))
    ensures
        (r.0@, r.1@) == spec_operator_health(
            lifecycle_state,
            capture_health,
            audio_health,
            opt_str(arm_blocker_code),
            opt_str(arm_blocker),
            guard_state@,
            save_ready,
            effective_video_resolution,
            requested_video_resolution,
            effective_fps,
            requested_fps,
            playback_stability@,
            mic_recovery_state@,
            opt_str(last_error),
        ),
{
    if let Some(code) = arm_blocker_code {
        if is_retryable_operator_health_blocker_code(code) {
            if str_eq(code, "engine_starting") {
                return pair("warming_up", "Replay engine is starting. Try again in a moment.");
            }
            return (
                "warming_up".to_string(),
                or_default(arm_blocker, "System audio path is starting. Try again in a moment."),
            );
        }
        if str_eq(code, "busy") {
            return pair("normal", "Replay capture is stable.");
        }
        if str_eq(code, "permission_required") {
            return pair(
                "blocked",
                "Screen Recording permission is required before capture can start.",
            );
        }
        if str_eq(code, "output_dir_permission_required") {
            return pair("blocked", "Downloads permission is required before clips can be saved.");
        }
        if str_eq(code, "capture_paused") {
            return (
                "blocked".to_string(),
                or_default(
                    arm_blocker,
                    "Capture paused. Rewinder is not recording in the background.",
                ),
            );
        }
        if str_eq(code, "user_stopped_sharing") {
            return pair(
                "blocked",
                "Capture stopped from macOS controls. Rewinder is not recording.",
            );
        }
        return (
            "blocked".to_string(),
            or_default(arm_blocker, "Replay is blocked until the current issue is resolved."),
        );
    }
    if lifecycle_state == LifecycleState::Booting || lifecycle_state
        == LifecycleState::PermissionRequired || capture_health == CaptureHealthDto::Starting
        || capture_health == CaptureHealthDto::Restarting || !save_ready {
        return pair("warming_up", "Capture is starting and building a stable replay buffer.");
    }
    if str_eq(guard_state, "protecting") || effective_video_resolution < requested_video_resolution
        || effective_fps < requested_fps {
        return pair(
            "protecting",
            "Capture protection is active. Rewinder reduced quality to keep replay stable.",
        );
    }
    if str_eq(mic_recovery_state, "retrying") {
        return pair("attention", "Microphone unavailable; continuing replay and retrying mic.");
    }
    if str_eq(mic_recovery_state, "fallback_system_only") {
        return pair(
            "attention",
            "Microphone unavailable; continuing replay with system audio only.",
        );
    }
    if str_eq(playback_stability, "drifting") || capture_health == CaptureHealthDto::Degraded
        || audio_health != AudioHealthDto::Healthy {
        return (
            "attention".to_string(),
            or_default(last_error, "Capture is running, but some diagnostics need attention."),
        );
    }
    pair("normal", "Replay capture is stable.")
}

/// Soft budget (MB) for the growth of the capture stack's resident memory.
pub open spec fn spec_rss_soft_budget(res: u16, fps: u16) -> u32 {
    if res >= 1080 && fps >= 60 {
        300
    } else if res >= 1080 && fps >= 30 {
        200
    } else if fps >= 60 {
        240
    } else {
        180
    }
}

pub fn capture_stack_rss_delta_soft_budget_mb(effective_video_resolution: u16, effective_fps: u16) -> (r:
    u32)
    ensures
        r == spec_rss_soft_budget(effective_video_resolution, effective_fps),
{
    if effective_video_resolution >= 1080 && effective_fps >= 60 {
        300
    } else if effective_video_resolution >= 1080 && effective_fps >= 30 {
        200
    } else if effective_fps >= 60 {
        240
    } else {
        180
    }
}

/// Hard budget: the soft budget plus 140 MB at 60 fps and above, 100 MB below.
pub fn capture_stack_rss_delta_hard_budget_mb(effective_video_resolution: u16, effective_fps: u16) -> (r:
    u32)
    ensures
        r == spec_rss_soft_budget(effective_video_resolution, effective_fps) + (if effective_fps
            >= 60 {
            140u32
        } else {
            100u32
        }),
        r > spec_rss_soft_budget(effective_video_resolution, effective_fps),
{
    let soft = capture_stack_rss_delta_soft_budget_mb(effective_video_resolution, effective_fps);
    soft + if effective_fps >= 60 {
        140
    } else {
        100
    }
}

pub open spec fn power_source_line(line: Seq<char>) -> Option<Option<Seq<char>>> {
    let lw = lower(line);
    if contains(lw, "now drawing from"@) {
        if contains(lw, "battery power"@) {
            Some(Some("battery"@))
        } else if contains(lw, "ac power"@) {
            Some(Some("ac"@))
        } else {
            None
        }
    } else {
        None
    }
}

pub open spec fn first_decision<T>(ls: Seq<Seq<char>>, f: spec_fn(Seq<char>) -> Option<Option<T>>, i: int) -> Option<T>
    decreases ls.len() - i,
{
    if i < 0 || i >= ls.len() {
        None
    } else {
        match f(ls[i]) {
            Some(d) => d,
            None => first_decision(ls, f, i + 1),
        }
    }
}

pub open spec fn power_source_decider() -> spec_fn(Seq<char>) -> Option<Option<Seq<char>>> {
    |l: Seq<char>| power_source_line(l)
}

/// The power source named by the first `Now drawing from` line of `pmset -g
/// batt` that names battery or AC power.
pub fn parse_power_source(stdout: &str) -> (r: Option<&'static str>)
    ensures
        opt_str(r) == first_decision(lines(stdout@), power_source_decider(), 0),
{
    let ls = split_lines(&str_chars(stdout));
    let ghost l = lines(stdout@);
    let ghost f = power_source_decider();
    let mut i: usize = 0;
    while i < ls.len()
        invariant
            i <= ls.len(),
            views(ls@) == l,
            l == lines(stdout@),
            f == power_source_decider(),
            first_decision(l, f, i as int) == first_decision(l, f, 0),
        decreases ls.len() - i,
    {
        proof {
            assert(ls@[i as int]@ == l[i as int]);
        }
        let lw = lower_chars(&ls[i]);
        if contains_str(&lw, "now drawing from") {
            if contains_str(&lw, "battery power") {
                return Some("battery");
            }
            if contains_str(&lw, "ac power") {
                return Some("ac");
            }
        }
        i = i + 1;
    }
    None
}

/// The text between the first and the second `=` of a line (or to its end).
pub open spec fn second_eq_field(t: Seq<char>) -> Option<Seq<char>> {
    match find(t, "="@) {
        None => None,
        Some(i) => {
            let rest = t.skip(i + 1);
            match find(rest, "="@) {
                Some(j) => Some(rest.take(j)),
                None => Some(rest),
            }
        },
    }
}

pub open spec fn thermal_label(level: i32) -> Seq<char> {
    if level <= 0 {
        "nominal"@
    } else if level == 1 {
        "fair"@
    } else if level == 2 {
        "serious"@
    } else {
        "critical"@
    }
}

pub open spec fn thermal_level_line(line: Seq<char>) -> Option<Option<Seq<char>>> {
    let t = trim(line);
    if !contains(lower(t), "thermallevel"@) {
        None
    } else {
        match second_eq_field(t) {
            None => Some(None),
            Some(v) => match parse_i32(trim(v)) {
                None => Some(None),
                Some(level) => Some(Some(thermal_label(level))),
            },
        }
    }
}

pub open spec fn thermal_level_decider() -> spec_fn(Seq<char>) -> Option<Option<Seq<char>>> {
    |l: Seq<char>| thermal_level_line(l)
}

pub open spec fn spec_parse_thermal_state(out: Seq<char>) -> Option<Seq<char>> {
    let ls = lines(out);
    if exists|i: int| 0 <= i < ls.len() && #[trigger] thermal_level_line(ls[i]) is Some {
        first_decision(ls, thermal_level_decider(), 0)
    } else if contains(lower(out), "no thermal warning level"@) {
        Some("nominal"@)
    } else {
        None
    }
}

fn thermal_level_line_exec(line: &Vec<char>) -> (r: Option<Option<&'static str>>)
    ensures
        match r {
            None => thermal_level_line(line@) is None,
            Some(None) => thermal_level_line(line@) == Some(None::<Seq<char>>),
            Some(Some(s)) => thermal_level_line(line@) == Some(Some(s@)),
        },
{
    let t = trim_chars(line);
    let lw = lower_chars(&t);
    if !contains_str(&lw, "thermallevel") {
        return None;
    }
    let eq = str_chars("=");
    let i = match find_exec(&t, &eq) {
        None => {
            return Some(None);
        },
        Some(i) => i,
    };
    proof {
        reveal_strlit("=");
        crate::text::lemma_find_from_props(t@, eq@, 0);
        assert(crate::text::matches_at(t@, eq@, i as int));
        assert(t@.len() == t.len());
        assert(eq@.len() == 1);
    }
    let rest = sub_chars(&t, i + 1, t.len());
    proof {
        reveal_strlit("=");
        assert(rest@ =~= t@.skip(i + 1));
    }
    let field = match find_exec(&rest, &eq) {
        Some(j) => {
            proof {
                crate::text::lemma_find_from_props(rest@, eq@, 0);
                assert(crate::text::matches_at(rest@, eq@, j as int));
            }
            let f = sub_chars(&rest, 0, j);
            proof {
                assert(f@ =~= rest@.take(j as int));
            }
            f
        },
        None => rest,
    };
    let v = trim_chars(&field);
    proof {
        assert(v@.subrange(0, v@.len() as int) =~= v@);
    }
    match parse_i32_range(&v, 0, v.len()) {
        None => Some(None),
        Some(level) => {
            let label = if level <= 0 {
                "nominal"
            } else if level == 1 {
                "fair"
            } else if level == 2 {
                "serious"
            } else {
                "critical"
            };
            Some(Some(label))
        },
    }
}

/// Thermal state from `pmset -g therm`: the `ThermalLevel` of the first line
/// that names it (0 or less nominal, 1 fair, 2 serious, more critical; no
/// state when its value does not parse), else nominal when no warning level
/// is recorded.
pub fn parse_thermal_state(stdout: &str) -> (r: Option<String>)
    ensures
        opt_string(r) == spec_parse_thermal_state(stdout@),
{
    let all = str_chars(stdout);
    let ls = split_lines(&all);
    let ghost l = lines(stdout@);
    let ghost f = thermal_level_decider();
    let mut i: usize = 0;
    while i < ls.len()
        invariant
            i <= ls.len(),
            views(ls@) == l,
            l == lines(stdout@),
            f == thermal_level_decider(),
            first_decision(l, f, i as int) == first_decision(l, f, 0),
            forall|k: int| 0 <= k < i ==> #[trigger] thermal_level_line(l[k]) is None,
        decreases ls.len() - i,
    {
        proof {
            assert(ls@[i as int]@ == l[i as int]);
        }
        match thermal_level_line_exec(&ls[i]) {
            Some(d) => {
                return match d {
                    Some(s) => Some(s.to_string()),
                    None => None,
                };
            },
            None => {},
        }
        i = i + 1;
    }
    let lw = lower_chars(&all);
    if contains_str(&lw, "no thermal warning level") {
        Some("nominal".to_string())
    } else {
        None
    }
}

pub open spec fn spec_trigger_source_label(s: TriggerSourceDto) -> Seq<char> {
    match s {
        TriggerSourceDto::Manual => "manual"@,
        TriggerSourceDto::Hotkey => "hotkey"@,
    }
}

pub fn trigger_source_label(source: &TriggerSourceDto) -> (r: &'static str)
    ensures
        r@ == spec_trigger_source_label(*source),
{
    match source {
        TriggerSourceDto::Manual => "manual",
        TriggerSourceDto::Hotkey => "hotkey",
    }
}

/// A booting engine blocks every save, unless a save is already running or
/// the output folder is not writable: the blocker is the engine start, and
/// it is retried.
pub proof fn booting_engine_blocks_saves(st: ClipperState)
    requires
        st.lifecycle_state == LifecycleState::Booting,
        !st.is_saving,
        st.permission.output_dir_writable,
    ensures
        spec_save_blocker_kind(st) matches Some(k) && blocker_code(k) == "engine_starting"@
            && blocker_retryable(k) && blocker_message(k, st)
            == "Replay engine is starting. Try again in a moment."@,
{
}

} // verus!
