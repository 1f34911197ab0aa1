//! Starting the capture pipeline: the profile it starts on, whether the
//! microphone permission lets it start, and how the audio that came up is
//! judged.
use vstd::prelude::*;
use crate::engine_policy::{
    derive_mic_attach_state, derive_mic_recovery_state, effective_profile_for_index,
    spec_mic_attach_state, spec_mic_recovery_state, EffectiveCaptureProfile, should_apply_startup_bootstrap,
    spec_effective_profile_for_index, spec_should_apply_startup_bootstrap,
    MAX_RUNTIME_PROFILE_INDEX,
};
use crate::log_parsers::MicAttachRuntimeState;
use crate::permissions::{permission_status_text, MicrophonePermissionProbe, MicrophonePermissionStatus};
use crate::projection::{derive_capture_load_state, spec_capture_load_state, LoadReadings};
use crate::recovery::{
    is_mic_startup_stall, restart_clears_error, spec_is_mic_startup_stall,
    spec_restart_clears_error,
};
use crate::seqs::{join, join_strings};
use crate::settings::SettingsDto;
use crate::startup::LiveQueueProfile;
use crate::state::{
    idle_state, spec_boot_state, AudioHealthDto, CaptureHealthDto, ClipperState, LifecycleState,
    MicAttachStateDto, PermissionStateDto, SaveStageDto, VideoSmoothStateDto,
};
use crate::text::{append_str, chars_to_string, opt_string, str_eq, texts};

verus! {

pub const STARTUP_BOOTSTRAP_PROFILE_INDEX: usize = 2;

/// The profile a pipeline starts on.
#[derive(Debug, Clone, Copy, PartialEq, Eq, Structural)]
pub struct StartupProfileChoice {
    /// Index on the quality ladder.
    pub profile_index: usize,
    /// A high-end capture starts on the bootstrap step while it stabilises.
    pub apply_bootstrap: bool,
    /// Whether the battery floor is now engaged.
    pub battery_floor_engaged: bool,
}

pub open spec fn spec_select_startup_profile(
    s: SettingsDto,
    current_index: int,
    battery_floor: int,
    engaged: bool,
) -> StartupProfileChoice {
    let apply = spec_should_apply_startup_bootstrap(s, current_index);
    let selected = if apply {
        STARTUP_BOOTSTRAP_PROFILE_INDEX as int
    } else {
        current_index
    };
    let binding = battery_floor > selected;
    let final_index = if binding {
        if battery_floor < MAX_RUNTIME_PROFILE_INDEX {
            battery_floor
        } else {
            MAX_RUNTIME_PROFILE_INDEX as int
        }
    } else {
        selected
    };
    StartupProfileChoice {
        profile_index: final_index as usize,
        apply_bootstrap: apply,
        battery_floor_engaged: if binding {
            true
        } else if battery_floor < selected {
            false
        } else {
            engaged
        },
    }
}

/// Chooses the starting profile: the bootstrap step when it applies, raised
/// to the battery floor (capped at the last step) when the floor is higher;
/// the floor counts as engaged when it binds and is released when the
/// profile is above it.
pub fn select_startup_profile(
    settings: &SettingsDto,
    current_index: usize,
    battery_floor: usize,
    battery_floor_engaged: bool,
) -> (r: StartupProfileChoice)
    ensures
        r == spec_select_startup_profile(
            *settings,
            current_index as int,
            battery_floor as int,
            battery_floor_engaged,
        ),
{
    let apply = should_apply_startup_bootstrap(settings, current_index);
    let mut selected = current_index;
    if apply {
        selected = STARTUP_BOOTSTRAP_PROFILE_INDEX;
    }
    let binding = battery_floor > selected;
    let profile_index = if binding {
        if battery_floor < MAX_RUNTIME_PROFILE_INDEX {
            battery_floor
        } else {
            MAX_RUNTIME_PROFILE_INDEX
        }
    } else {
        selected
    };
    let engaged = if binding {
        true
    } else if battery_floor < selected {
        false
    } else {
        battery_floor_engaged
    };
    StartupProfileChoice { profile_index, apply_bootstrap: apply, battery_floor_engaged: engaged }
}

/// A microphone that is not granted stops the start only when the
/// microphone is required.
pub fn mic_permission_gate(
    status: MicrophonePermissionStatus,
    error: &Option<String>,
    mic_failure_policy: &str,
) -> (r: Result<(), String>)
    ensures
        status == MicrophonePermissionStatus::Granted || mic_failure_policy@ == "best_effort"@
            ==> r is Ok,
        !(status == MicrophonePermissionStatus::Granted || mic_failure_policy@ == "best_effort"@)
            ==> r is Err && r->Err_0@ == "mic_required_unavailable: "@ + match error {
            Some(e) => e@,
            None => "Microphone permission unavailable for capture."@,
        },
{
    if status == MicrophonePermissionStatus::Granted || str_eq(mic_failure_policy, "best_effort") {
        return Ok(());
    }
    let mut v: Vec<char> = Vec::new();
    append_str(&mut v, "mic_required_unavailable: ");
    match error {
        Some(e) => append_str(&mut v, e.as_str()),
        None => append_str(&mut v, "Microphone permission unavailable for capture."),
    }
    Err(chars_to_string(&v))
}

/// What the pipeline reported about its audio right after it started.
pub struct StartupAudio {
    pub requested_audio_mode: String,
    pub active_audio_mode: String,
    pub audio_fallback_policy: String,
    pub mic_failure_policy: String,
    pub mic_enabled: bool,
    pub system_audio_path_ready: bool,
    pub mic_path_ready: bool,
    pub startup_fallback_error: Option<String>,
}

pub open spec fn required_system_audio_unavailable(a: StartupAudio) -> bool {
    a.audio_fallback_policy@ == "system_only_fallback"@ && a.requested_audio_mode@ != "video_only"@
        && !a.system_audio_path_ready
}

pub open spec fn required_mic_unavailable(a: StartupAudio) -> bool {
    a.requested_audio_mode@ == "system_plus_mic"@ && a.mic_enabled && a.mic_failure_policy@
        == "required"@ && !a.mic_path_ready
}

pub open spec fn best_effort_mic_degraded(a: StartupAudio) -> bool {
    a.requested_audio_mode@ == "system_plus_mic"@ && a.mic_enabled && a.mic_failure_policy@
        == "best_effort"@ && !a.mic_path_ready
}

pub open spec fn fallback_system_only(a: StartupAudio) -> bool {
    a.requested_audio_mode@ == "system_plus_mic"@ && a.mic_enabled && a.active_audio_mode@
        == "system_only"@
}

pub open spec fn audio_mode_degraded(a: StartupAudio) -> bool {
    a.requested_audio_mode@ != a.active_audio_mode@
}

pub open spec fn fallback_error_is_mic_stall(a: StartupAudio) -> bool {
    match a.startup_fallback_error {
        Some(e) => spec_is_mic_startup_stall(e@),
        None => false,
    }
}

/// Audio is unavailable when a required path is missing (or capture fell to
/// video only under a policy that needs audio), degraded when it fell back,
/// healthy otherwise.
pub open spec fn spec_startup_audio_health(a: StartupAudio) -> AudioHealthDto {
    if required_system_audio_unavailable(a) || required_mic_unavailable(a) || (
    a.active_audio_mode@ == "video_only"@ && a.audio_fallback_policy@
        == "system_only_fallback"@) {
        AudioHealthDto::Unavailable
    } else if audio_mode_degraded(a) || best_effort_mic_degraded(a) || fallback_system_only(a) {
        AudioHealthDto::Degraded
    } else {
        AudioHealthDto::Healthy
    }
}

/// The parts of the audio degrade reason, in order.
pub open spec fn spec_audio_degrade_parts(a: StartupAudio) -> Seq<Seq<char>> {
    let p1 = if audio_mode_degraded(a) {
        seq![
            "audio mode degraded from "@ + a.requested_audio_mode@ + " to "@
                + a.active_audio_mode@,
        ]
    } else {
        Seq::empty()
    };
    let p2 = if best_effort_mic_degraded(a) {
        seq!["microphone unavailable; continuing replay and retrying mic"@]
    } else {
        Seq::empty()
    };
    let p3 = if fallback_system_only(a) {
        seq![
            if fallback_error_is_mic_stall(a) {
                "mixed microphone startup stalled; continuing with system audio only"@
            } else {
                "microphone unavailable; continuing with system audio only"@
            },
        ]
    } else {
        Seq::empty()
    };
    let p4 = if required_mic_unavailable(a) {
        seq!["required microphone path unavailable"@]
    } else {
        Seq::empty()
    };
    let p5 = if required_system_audio_unavailable(a) {
        seq!["required system-audio path unavailable"@]
    } else {
        Seq::empty()
    };
    p1 + p2 + p3 + p4 + p5
}

/// How the audio came up: its health, and the degrade reason (the parts
/// joined with `; `, none when there is no part).
pub fn startup_audio_outcome(a: &StartupAudio) -> (r: (AudioHealthDto, Option<String>))
    ensures
        r.0 == spec_startup_audio_health(*a),
        spec_audio_degrade_parts(*a).len() == 0 ==> r.1 is None,
        spec_audio_degrade_parts(*a).len() > 0 ==> (r.1 matches Some(s) && s@ == join(
            spec_audio_degrade_parts(*a),
            "; "@,
        )),
{
    let req = a.requested_audio_mode.as_str();
    let active = a.active_audio_mode.as_str();
    let system_only_fallback = str_eq(a.audio_fallback_policy.as_str(), "system_only_fallback");
    let req_sys = system_only_fallback && !str_eq(req, "video_only") && !a.system_audio_path_ready;
    let wants_mic = str_eq(req, "system_plus_mic") && a.mic_enabled;
    let req_mic = wants_mic && str_eq(a.mic_failure_policy.as_str(), "required")
        && !a.mic_path_ready;
    let best_effort = wants_mic && str_eq(a.mic_failure_policy.as_str(), "best_effort")
        && !a.mic_path_ready;
    let fell_back = wants_mic && str_eq(active, "system_only");
    let degraded = !str_eq(req, active);
    let health = if req_sys || req_mic || (str_eq(active, "video_only") && system_only_fallback) {
        AudioHealthDto::Unavailable
    } else if degraded || best_effort || fell_back {
        AudioHealthDto::Degraded
    } else {
        AudioHealthDto::Healthy
    };
    let mut parts: Vec<String> = Vec::new();
    if degraded {
        let mut v: Vec<char> = Vec::new();
        append_str(&mut v, "audio mode degraded from ");
        append_str(&mut v, req);
        append_str(&mut v, " to ");
        append_str(&mut v, active);
        parts.push(chars_to_string(&v));
    }
    if best_effort {
        parts.push("microphone unavailable; continuing replay and retrying mic".to_string());
    }
    if fell_back {
        let stall = match &a.startup_fallback_error {
            Some(e) => is_mic_startup_stall(e.as_str()),
            None => false,
        };
        if stall {
            parts.push(
                "mixed microphone startup stalled; continuing with system audio only".to_string(),
            );
        } else {
            parts.push("microphone unavailable; continuing with system audio only".to_string());
        }
    }
    if req_mic {
        parts.push("required microphone path unavailable".to_string());
    }
    if req_sys {
        parts.push("required system-audio path unavailable".to_string());
    }
    assert(texts(parts@) =~= spec_audio_degrade_parts(*a));
    if parts.len() == 0 {
        (health, None)
    } else {
        (health, Some(join_strings(&parts, "; ")))
    }
}

/// What keeping the pipeline in line with the state asks for.
#[derive(Debug, Clone, Copy, PartialEq, Eq, Structural)]
pub enum PipelineAction {
    /// Paused by the user: stop it and show capture stopped.
    StopPaused,
    /// Armed or saving: start it when it is not running.
    Start,
    /// Otherwise: stop it and reset the capture readings.
    StopIdle,
}

pub fn pipeline_action_for_state(paused_by_user: bool, lifecycle: LifecycleState) -> (r:
    PipelineAction)
    ensures
        r == if paused_by_user {
            PipelineAction::StopPaused
        } else if lifecycle == LifecycleState::Armed || lifecycle == LifecycleState::SavingReplay {
            PipelineAction::Start
        } else {
            PipelineAction::StopIdle
        },
{
    if paused_by_user {
        PipelineAction::StopPaused
    } else if lifecycle == LifecycleState::Armed || lifecycle == LifecycleState::SavingReplay {
        PipelineAction::Start
    } else {
        PipelineAction::StopIdle
    }
}

pub open spec fn stopped_readings(s: ClipperState) -> bool {
    &&& s.capture_health == CaptureHealthDto::Stopped
    &&& s.audio_health == AudioHealthDto::Unavailable
    &&& !s.save_ready
    &&& !s.system_audio_path_ready
    &&& !s.mic_path_ready
    &&& !s.audio_path_ready
    &&& !s.first_audio_frame_seen
    &&& s.save_stage == SaveStageDto::Idle
    &&& s.video_smooth_state == VideoSmoothStateDto::Idle
    &&& s.capture_load_state@ == "normal"@
}

impl ClipperState {
    /// The pipeline was stopped for a pause: capture shows stopped.
    pub fn mark_pipeline_stopped_for_pause(&mut self)
        ensures
            stopped_readings(*final(self)),
            final(self).settings == old(self).settings,
            final(self).permission == old(self).permission,
            final(self).lifecycle_state == old(self).lifecycle_state,
            final(self).last_error == old(self).last_error,
            *final(self) == (ClipperState {
                audio_health: final(self).audio_health,
                audio_path_ready: final(self).audio_path_ready,
                capture_health: final(self).capture_health,
                capture_load_state: final(self).capture_load_state,
                first_audio_frame_seen: final(self).first_audio_frame_seen,
                mic_path_ready: final(self).mic_path_ready,
                save_ready: final(self).save_ready,
                save_stage: final(self).save_stage,
                system_audio_path_ready: final(self).system_audio_path_ready,
                video_smooth_state: final(self).video_smooth_state,
                ..*old(self)
            }),
    {
        self.capture_health = CaptureHealthDto::Stopped;
        self.audio_health = AudioHealthDto::Unavailable;
        self.save_ready = false;
        self.system_audio_path_ready = false;
        self.mic_path_ready = false;
        self.audio_path_ready = false;
        self.first_audio_frame_seen = false;
        self.save_stage = SaveStageDto::Idle;
        self.video_smooth_state = VideoSmoothStateDto::Idle;
        self.capture_load_state = "normal".to_string();
    }

    /// The pipeline was stopped because capture should not run: every
    /// reading is reset, the requested profile is the effective one again
    /// and the audio settings are the configured ones.
    #[verifier::rlimit(80)]
    pub fn mark_pipeline_stopped_idle(&mut self)
        ensures
            stopped_readings(*final(self)),
            final(self).active_audio_mode@ == old(self).settings.audio_mode@,
            final(self).effective_audio_mode@ == old(self).settings.audio_mode@,
            final(self).audio_fallback_policy@ == old(self).settings.audio_fallback_policy@,
            final(self).live_queue_profile@ == "small"@,
            !final(self).mic_frames_seen,
            !final(self).mic_capture_session_running,
            final(self).mic_samples_per_sec is None,
            final(self).mic_attach_state == MicAttachStateDto::Inactive,
            final(self).mic_recovery_state@ == "ok"@,
            final(self).selected_microphone_name is None,
            final(self).last_mic_error_code is None,
            final(self).last_mic_error_message is None,
            final(self).concurrent_session_count is None,
            final(self).capture_owner_pid is None,
            final(self).capture_dropped_frames == 0,
            final(self).capture_queue_overflows == 0,
            final(self).mic_backend_in_use@ == old(self).settings.mic_capture_backend@,
            final(self).requested_video_resolution == old(self).settings.video_resolution,
            final(self).requested_fps == old(self).settings.fps,
            final(self).requested_video_bitrate_kbps == old(self).settings.video_bitrate_kbps,
            final(self).effective_video_resolution == old(self).settings.video_resolution,
            final(self).effective_fps == old(self).settings.fps,
            final(self).effective_video_bitrate_kbps == old(self).settings.video_bitrate_kbps,
            final(self).degrade_reason is None,
            final(self).audio_degrade_reason is None,
            final(self).last_audio_mode_error is None,
            final(self).settings == old(self).settings,
            final(self).lifecycle_state == old(self).lifecycle_state,
            final(self).last_error == old(self).last_error,
            *final(self) == (ClipperState {
                active_audio_mode: final(self).active_audio_mode,
                audio_degrade_reason: final(self).audio_degrade_reason,
                audio_fallback_policy: final(self).audio_fallback_policy,
                audio_health: final(self).audio_health,
                audio_path_ready: final(self).audio_path_ready,
                capture_dropped_frames: final(self).capture_dropped_frames,
                capture_health: final(self).capture_health,
                capture_load_state: final(self).capture_load_state,
                capture_owner_pid: final(self).capture_owner_pid,
                capture_queue_overflows: final(self).capture_queue_overflows,
                concurrent_session_count: final(self).concurrent_session_count,
                degrade_reason: final(self).degrade_reason,
                effective_audio_mode: final(self).effective_audio_mode,
                effective_fps: final(self).effective_fps,
                effective_video_bitrate_kbps: final(self).effective_video_bitrate_kbps,
                effective_video_resolution: final(self).effective_video_resolution,
                first_audio_frame_seen: final(self).first_audio_frame_seen,
                last_audio_mode_error: final(self).last_audio_mode_error,
                last_mic_error_code: final(self).last_mic_error_code,
                last_mic_error_message: final(self).last_mic_error_message,
                live_queue_profile: final(self).live_queue_profile,
                mic_attach_state: final(self).mic_attach_state,
                mic_backend_in_use: final(self).mic_backend_in_use,
                mic_capture_session_running: final(self).mic_capture_session_running,
                mic_frames_seen: final(self).mic_frames_seen,
                mic_path_ready: final(self).mic_path_ready,
                mic_recovery_state: final(self).mic_recovery_state,
                mic_samples_per_sec: final(self).mic_samples_per_sec,
                requested_fps: final(self).requested_fps,
                requested_video_bitrate_kbps: final(self).requested_video_bitrate_kbps,
                requested_video_resolution: final(self).requested_video_resolution,
                save_ready: final(self).save_ready,
                save_stage: final(self).save_stage,
                selected_microphone_name: final(self).selected_microphone_name,
                system_audio_path_ready: final(self).system_audio_path_ready,
                video_smooth_state: final(self).video_smooth_state,
                ..*old(self)
            }),
    {
        self.mark_pipeline_stopped_for_pause();
        self.active_audio_mode = self.settings.audio_mode.clone();
        self.effective_audio_mode = self.settings.audio_mode.clone();
        self.audio_fallback_policy = self.settings.audio_fallback_policy.clone();
        self.live_queue_profile = "small".to_string();
        self.mic_frames_seen = false;
        self.mic_capture_session_running = false;
        self.mic_samples_per_sec = None;
        self.mic_attach_state = MicAttachStateDto::Inactive;
        self.mic_recovery_state = "ok".to_string();
        self.selected_microphone_name = None;
        self.last_mic_error_code = None;
        self.last_mic_error_message = None;
        self.concurrent_session_count = None;
        self.capture_owner_pid = None;
        self.capture_dropped_frames = 0;
        self.capture_queue_overflows = 0;
        self.mic_backend_in_use = self.settings.mic_capture_backend.clone();
        self.requested_video_resolution = self.settings.video_resolution;
        self.requested_fps = self.settings.fps;
        self.requested_video_bitrate_kbps = self.settings.video_bitrate_kbps;
        self.effective_video_resolution = self.settings.video_resolution;
        self.effective_fps = self.settings.fps;
        self.effective_video_bitrate_kbps = self.settings.video_bitrate_kbps;
        self.degrade_reason = None;
        self.audio_degrade_reason = None;
        self.last_audio_mode_error = None;
    }
}

impl ClipperState {
    /// The output folder is writable: its permission is restored (and the
    /// reason cleared while screen recording is granted) and the lifecycle
    /// follows; says whether it had been denied.
    pub fn mark_output_dir_granted(&mut self) -> (r: bool)
        ensures
            r == !old(self).permission.output_dir_writable,
            final(self).permission.output_dir_writable,
            final(self).permission.output_dir_permission_error is None,
            final(self).permission.reason == if old(self).permission.screen_recording_granted {
                None
            } else {
                old(self).permission.reason
            },
            final(self).permission.screen_recording_granted
                == old(self).permission.screen_recording_granted,
            final(self).permission.system_audio_granted
                == old(self).permission.system_audio_granted,
            final(self).lifecycle_state == spec_boot_state(
                final(self).permission,
                old(self).settings.replay_enabled,
            ),
            *final(self) == (ClipperState {
                permission: final(self).permission,
                lifecycle_state: final(self).lifecycle_state,
                ..*old(self)
            }),
    {
        let recovered = !self.permission.output_dir_writable;
        self.permission.output_dir_writable = true;
        self.permission.output_dir_permission_error = None;
        if self.permission.screen_recording_granted {
            self.permission.reason = None;
        }
        self.lifecycle_state = idle_state(&self.permission, self.settings.replay_enabled);
        recovered
    }

    /// The output folder is not writable, so no pipeline starts: the
    /// permission records why, capture stops and its readings are reset;
    /// returns the error of the start.
    #[verifier::rlimit(80)]
    pub fn mark_pipeline_blocked_by_output_dir(&mut self, err: String) -> (r: String)
        ensures
            r@ == "output_dir_permission_required: "@ + err@,
            !final(self).permission.output_dir_writable,
            opt_string(final(self).permission.output_dir_permission_error) == Some(err@),
            old(self).permission.screen_recording_granted ==> opt_string(
                final(self).permission.reason,
            ) == Some(err@),
            final(self).lifecycle_state == spec_boot_state(
                final(self).permission,
                old(self).settings.replay_enabled,
            ),
            stopped_readings(*final(self)),
            final(self).live_queue_profile@ == "small"@,
            !final(self).mic_frames_seen,
            final(self).mic_attach_state == MicAttachStateDto::Inactive,
            final(self).capture_owner_pid is None,
            final(self).capture_dropped_frames == 0,
            final(self).capture_queue_overflows == 0,
            final(self).active_audio_mode@ == old(self).settings.audio_mode@,
            final(self).effective_audio_mode@ == old(self).settings.audio_mode@,
            opt_string(final(self).last_error) == Some(r@),
            opt_string(final(self).degrade_reason) == Some(
                "Capture paused until output-folder permission is granted."@,
            ),
            final(self).settings == old(self).settings,
            final(self).permission == (PermissionStateDto {
                output_dir_writable: false,
                output_dir_permission_error: final(self).permission.output_dir_permission_error,
                reason: final(self).permission.reason,
                ..old(self).permission
            }),
            *final(self) == (ClipperState {
                active_audio_mode: final(self).active_audio_mode,
                audio_health: final(self).audio_health,
                audio_path_ready: final(self).audio_path_ready,
                capture_dropped_frames: final(self).capture_dropped_frames,
                capture_health: final(self).capture_health,
                capture_load_state: final(self).capture_load_state,
                capture_owner_pid: final(self).capture_owner_pid,
                capture_queue_overflows: final(self).capture_queue_overflows,
                concurrent_session_count: final(self).concurrent_session_count,
                degrade_reason: final(self).degrade_reason,
                effective_audio_mode: final(self).effective_audio_mode,
                first_audio_frame_seen: final(self).first_audio_frame_seen,
                last_error: final(self).last_error,
                last_mic_error_code: final(self).last_mic_error_code,
                last_mic_error_message: final(self).last_mic_error_message,
                lifecycle_state: final(self).lifecycle_state,
                live_queue_profile: final(self).live_queue_profile,
                mic_attach_state: final(self).mic_attach_state,
                mic_capture_session_running: final(self).mic_capture_session_running,
                mic_frames_seen: final(self).mic_frames_seen,
                mic_path_ready: final(self).mic_path_ready,
                mic_recovery_state: final(self).mic_recovery_state,
                mic_samples_per_sec: final(self).mic_samples_per_sec,
                permission: final(self).permission,
                save_ready: final(self).save_ready,
                save_stage: final(self).save_stage,
                selected_microphone_name: final(self).selected_microphone_name,
                system_audio_path_ready: final(self).system_audio_path_ready,
                video_smooth_state: final(self).video_smooth_state,
                ..*old(self)
            }),
    {
        let mut v: Vec<char> = Vec::new();
        append_str(&mut v, "output_dir_permission_required: ");
        append_str(&mut v, err.as_str());
        let message = chars_to_string(&v);
        self.permission.output_dir_writable = false;
        self.permission.output_dir_permission_error = Some(err.clone());
        if self.permission.screen_recording_granted {
            self.permission.reason = Some(err);
        }
        self.lifecycle_state = idle_state(&self.permission, self.settings.replay_enabled);
        self.mark_pipeline_stopped_for_pause();
        self.live_queue_profile = "small".to_string();
        self.mic_frames_seen = false;
        self.mic_capture_session_running = false;
        self.mic_samples_per_sec = None;
        self.mic_attach_state = MicAttachStateDto::Inactive;
        self.mic_recovery_state = "ok".to_string();
        self.selected_microphone_name = None;
        self.last_mic_error_code = None;
        self.last_mic_error_message = None;
        self.concurrent_session_count = None;
        self.capture_owner_pid = None;
        self.capture_dropped_frames = 0;
        self.capture_queue_overflows = 0;
        self.active_audio_mode = self.settings.audio_mode.clone();
        self.effective_audio_mode = self.settings.audio_mode.clone();
        self.last_error = Some(message.clone());
        self.degrade_reason = Some(
            "Capture paused until output-folder permission is granted.".to_string(),
        );
        message
    }

    /// A pipeline is about to start: capture is starting (recovering while
    /// the bootstrap step applies), the guard monitors, the queue profile
    /// is the chosen one, the readings are reset and the requested profile
    /// is recorded; nothing else changes.
    #[verifier::rlimit(100)]
    pub fn mark_pipeline_starting(&mut self, apply_bootstrap: bool, queue_profile: LiveQueueProfile)
        ensures
            final(self).capture_health == CaptureHealthDto::Starting,
            !final(self).capture_crash_loop,
            final(self).capture_load_state@ == if apply_bootstrap {
                "recovering"@
            } else {
                "normal"@
            },
            final(self).guard_state@ == "monitoring"@,
            final(self).guard_primary_reason_code is None,
            final(self).guard_contributing_reason_codes@.len() == 0,
            final(self).guard_suppressed_reason_code is None,
            final(self).live_queue_profile@ == match queue_profile {
                LiveQueueProfile::Small => "small"@,
                LiveQueueProfile::Elevated => "elevated"@,
            },
            !final(self).save_ready,
            !final(self).system_audio_path_ready,
            !final(self).mic_path_ready,
            !final(self).mic_frames_seen,
            final(self).mic_attach_state == MicAttachStateDto::Inactive,
            final(self).capture_owner_pid is None,
            !final(self).audio_path_ready,
            final(self).save_stage == SaveStageDto::Idle,
            final(self).capture_dropped_frames == 0,
            final(self).capture_queue_overflows == 0,
            final(self).requested_video_resolution == old(self).settings.video_resolution,
            final(self).requested_fps == old(self).settings.fps,
            final(self).requested_video_bitrate_kbps == old(self).settings.video_bitrate_kbps,
            final(self).audio_fallback_policy@ == old(self).settings.audio_fallback_policy@,
            final(self).mic_backend_in_use@ == old(self).settings.mic_capture_backend@,
            !final(self).mic_capture_session_running,
            final(self).mic_samples_per_sec is None,
            final(self).mic_recovery_state@ == "ok"@,
            final(self).selected_microphone_name is None,
            final(self).last_mic_error_code is None,
            final(self).last_mic_error_message is None,
            final(self).concurrent_session_count is None,
            !final(self).first_audio_frame_seen,
            final(self).video_smooth_state == VideoSmoothStateDto::Idle,
            *final(self) == (ClipperState {
                capture_health: final(self).capture_health,
                capture_crash_loop: final(self).capture_crash_loop,
                capture_load_state: final(self).capture_load_state,
                guard_state: final(self).guard_state,
                guard_primary_reason_code: final(self).guard_primary_reason_code,
                guard_contributing_reason_codes: final(self).guard_contributing_reason_codes,
                guard_suppressed_reason_code: final(self).guard_suppressed_reason_code,
                live_queue_profile: final(self).live_queue_profile,
                save_ready: final(self).save_ready,
                system_audio_path_ready: final(self).system_audio_path_ready,
                mic_path_ready: final(self).mic_path_ready,
                mic_frames_seen: final(self).mic_frames_seen,
                mic_capture_session_running: final(self).mic_capture_session_running,
                mic_samples_per_sec: final(self).mic_samples_per_sec,
                mic_attach_state: final(self).mic_attach_state,
                mic_recovery_state: final(self).mic_recovery_state,
                selected_microphone_name: final(self).selected_microphone_name,
                last_mic_error_code: final(self).last_mic_error_code,
                last_mic_error_message: final(self).last_mic_error_message,
                concurrent_session_count: final(self).concurrent_session_count,
                capture_owner_pid: final(self).capture_owner_pid,
                audio_path_ready: final(self).audio_path_ready,
                first_audio_frame_seen: final(self).first_audio_frame_seen,
                save_stage: final(self).save_stage,
                video_smooth_state: final(self).video_smooth_state,
                capture_dropped_frames: final(self).capture_dropped_frames,
                capture_queue_overflows: final(self).capture_queue_overflows,
                requested_video_resolution: final(self).requested_video_resolution,
                requested_fps: final(self).requested_fps,
                requested_video_bitrate_kbps: final(self).requested_video_bitrate_kbps,
                audio_fallback_policy: final(self).audio_fallback_policy,
                mic_backend_in_use: final(self).mic_backend_in_use,
                ..*old(self)
            }),
    {
        self.capture_health = CaptureHealthDto::Starting;
        self.capture_crash_loop = false;
        self.capture_load_state = if apply_bootstrap {
            "recovering".to_string()
        } else {
            "normal".to_string()
        };
        self.guard_state = "monitoring".to_string();
        self.guard_primary_reason_code = None;
        self.guard_contributing_reason_codes = Vec::new();
        self.guard_suppressed_reason_code = None;
        self.live_queue_profile = queue_profile.as_str().to_string();
        self.save_ready = false;
        self.system_audio_path_ready = false;
        self.mic_path_ready = false;
        self.mic_frames_seen = false;
        self.mic_capture_session_running = false;
        self.mic_samples_per_sec = None;
        self.mic_attach_state = MicAttachStateDto::Inactive;
        self.mic_recovery_state = "ok".to_string();
        self.selected_microphone_name = None;
        self.last_mic_error_code = None;
        self.last_mic_error_message = None;
        self.concurrent_session_count = None;
        self.capture_owner_pid = None;
        self.audio_path_ready = false;
        self.first_audio_frame_seen = false;
        self.save_stage = SaveStageDto::Idle;
        self.video_smooth_state = VideoSmoothStateDto::Idle;
        self.capture_dropped_frames = 0;
        self.capture_queue_overflows = 0;
        self.requested_video_resolution = self.settings.video_resolution;
        self.requested_fps = self.settings.fps;
        self.requested_video_bitrate_kbps = self.settings.video_bitrate_kbps;
        self.audio_fallback_policy = self.settings.audio_fallback_policy.clone();
        self.mic_backend_in_use = self.settings.mic_capture_backend.clone();
    }
}

/// The settings the capture runs with: the requested ones on the profile
/// of the ladder step.
pub fn capture_settings_for_profile(settings: &SettingsDto, profile_index: usize) -> (r: SettingsDto)
    ensures
        r == (SettingsDto {
            video_resolution: spec_effective_profile_for_index(*settings, profile_index as int).video_resolution,
            fps: spec_effective_profile_for_index(*settings, profile_index as int).fps,
            video_bitrate_kbps: spec_effective_profile_for_index(
                *settings,
                profile_index as int,
            ).video_bitrate_kbps,
            ..*settings
        }),
{
    let p = effective_profile_for_index(settings, profile_index);
    SettingsDto {
        replay_enabled: settings.replay_enabled,
        output_dir: settings.output_dir.clone(),
        replay_duration_secs: settings.replay_duration_secs,
        buffer_duration_secs: settings.buffer_duration_secs,
        video_resolution: p.video_resolution,
        fps: p.fps,
        video_bitrate_kbps: p.video_bitrate_kbps,
        segment_time_ms: settings.segment_time_ms,
        audio_mode: settings.audio_mode.clone(),
        audio_fallback_policy: settings.audio_fallback_policy.clone(),
        audio_bitrate_kbps: settings.audio_bitrate_kbps,
        audio_sample_rate_hz: settings.audio_sample_rate_hz,
        audio_channels: settings.audio_channels,
        audio_startup_timeout_ms: settings.audio_startup_timeout_ms,
        exclude_current_process_audio: settings.exclude_current_process_audio,
        system_volume_percent: settings.system_volume_percent,
        mic_enabled: settings.mic_enabled,
        mic_failure_policy: settings.mic_failure_policy.clone(),
        mic_capture_backend: settings.mic_capture_backend.clone(),
        mic_retry_interval_secs: settings.mic_retry_interval_secs,
        mic_auto_boost_volume: settings.mic_auto_boost_volume,
        mic_noise_suppression: settings.mic_noise_suppression,
        selected_microphone_id: settings.selected_microphone_id.clone(),
        quality_policy: settings.quality_policy.clone(),
        quality_preference: settings.quality_preference.clone(),
        performance_guard_enabled: settings.performance_guard_enabled,
        performance_guard_level: settings.performance_guard_level.clone(),
        battery_guard_enabled: settings.battery_guard_enabled,
        battery_max_fps: settings.battery_max_fps,
        profile_recover_hold_secs: settings.profile_recover_hold_secs,
    }
}

/// What a started pipeline leaves in the shown reasons: the degrade reason
/// (the profile fallback, then the audio's reason), the error shown, and
/// whether the audio-mode error becomes the video-only one.
pub open spec fn spec_startup_notes(
    a: StartupAudio,
    profile_degraded: bool,
    profile_label: Seq<char>,
    mic_backend_error: Option<Seq<char>>,
    last_error: Option<Seq<char>>,
) -> (Option<Seq<char>>, Option<Seq<char>>, bool) {
    let base: Option<Seq<char>> = if profile_degraded {
        Some("Runtime fallback active ("@ + profile_label + ") to keep capture realtime."@)
    } else {
        None
    };
    let parts = spec_audio_degrade_parts(a);
    if audio_mode_degraded(a) {
        let audio_reason = "audio degraded to "@ + a.active_audio_mode@;
        (
            Some(
                match base {
                    Some(e) => e + "; "@ + audio_reason,
                    None => audio_reason,
                },
            ),
            Some(
                if fallback_error_is_mic_stall(a) {
                    "Microphone startup stalled; continuing with system audio only."@
                } else {
                    "Capture degraded from "@ + a.requested_audio_mode@ + " to "@
                        + a.active_audio_mode@ + " for stability."@
                },
            ),
            a.audio_fallback_policy@ == "system_only_fallback"@ && a.active_audio_mode@
                == "video_only"@,
        )
    } else if mic_backend_error is Some {
        (base, mic_backend_error, false)
    } else if parts.len() > 0 {
        let r = join(parts, "; "@);
        (
            Some(
                match base {
                    Some(e) => e + "; "@ + r,
                    None => r,
                },
            ),
            last_error,
            false,
        )
    } else if spec_restart_clears_error(last_error) {
        (base, None, false)
    } else {
        (base, last_error, false)
    }
}

impl ClipperState {
    /// A pipeline came up: the audio is judged (`startup_audio_outcome`)
    /// and the degrade reason, the error and the audio-mode error are set as
    /// `spec_startup_notes` says. `mic_backend_error` is the message of the
    /// microphone backend's last error, if any.
    #[verifier::rlimit(60)]
    pub fn apply_startup_outcome(
        &mut self,
        a: &StartupAudio,
        profile_degraded: bool,
        profile_label: &str,
        mic_backend_error: Option<String>,
    )
        ensures
            final(self).audio_health == spec_startup_audio_health(*a),
            spec_audio_degrade_parts(*a).len() == 0 ==> final(self).audio_degrade_reason is None,
            spec_audio_degrade_parts(*a).len() > 0 ==> opt_string(final(self).audio_degrade_reason)
                == Some(join(spec_audio_degrade_parts(*a), "; "@)),
            ({
                let (d, e, video_only) = spec_startup_notes(
                    *a,
                    profile_degraded,
                    profile_label@,
                    opt_string(mic_backend_error),
                    opt_string(old(self).last_error),
                );
                &&& opt_string(final(self).degrade_reason) == d
                &&& opt_string(final(self).last_error) == e
                &&& video_only ==> opt_string(final(self).last_audio_mode_error) == Some(
                    "Audio fallback policy requires audio, but capture reached video-only."@,
                )
                &&& !video_only ==> final(self).last_audio_mode_error == old(
                    self,
                ).last_audio_mode_error
            }),
            final(self).settings == old(self).settings,
            final(self).lifecycle_state == old(self).lifecycle_state,
            final(self).capture_health == old(self).capture_health,
            *final(self) == (ClipperState {
                audio_degrade_reason: final(self).audio_degrade_reason,
                audio_health: final(self).audio_health,
                degrade_reason: final(self).degrade_reason,
                last_audio_mode_error: final(self).last_audio_mode_error,
                last_error: final(self).last_error,
                ..*old(self)
            }),
    {
        let (health, reason) = startup_audio_outcome(a);
        let (degrade, err, video_only) = startup_notes(
            a,
            profile_degraded,
            profile_label,
            mic_backend_error,
            &reason,
            &self.last_error,
        );
        self.audio_health = health;
        self.audio_degrade_reason = reason;
        self.degrade_reason = degrade;
        self.last_error = err;
        if video_only {
            self.last_audio_mode_error = Some(
                "Audio fallback policy requires audio, but capture reached video-only.".to_string(),
            );
        }
    }
}

fn joined_with(first: &Option<String>, second: &str) -> (r: String)
    ensures
        r@ == match opt_string(*first) {
            Some(e) => e + "; "@ + second@,
            None => second@,
        },
{
    let mut v: Vec<char> = Vec::new();
    match first {
        Some(e) => {
            append_str(&mut v, e.as_str());
            append_str(&mut v, "; ");
        },
        None => {},
    }
    append_str(&mut v, second);
    chars_to_string(&v)
}

/// `spec_startup_notes`, given the audio's degrade reason as
/// `startup_audio_outcome` gives it.
fn startup_notes(
    a: &StartupAudio,
    profile_degraded: bool,
    profile_label: &str,
    mic_backend_error: Option<String>,
    audio_degrade_reason: &Option<String>,
    last_error: &Option<String>,
) -> (r: (Option<String>, Option<String>, bool))
    requires
        spec_audio_degrade_parts(*a).len() == 0 ==> audio_degrade_reason is None,
        spec_audio_degrade_parts(*a).len() > 0 ==> opt_string(*audio_degrade_reason) == Some(
            join(spec_audio_degrade_parts(*a), "; "@),
        ),
    ensures
        (opt_string(r.0), opt_string(r.1), r.2) == spec_startup_notes(
            *a,
            profile_degraded,
            profile_label@,
            opt_string(mic_backend_error),
            opt_string(*last_error),
        ),
{
    let base: Option<String> = if profile_degraded {
        let mut v: Vec<char> = Vec::new();
        append_str(&mut v, "Runtime fallback active (");
        append_str(&mut v, profile_label);
        append_str(&mut v, ") to keep capture realtime.");
        Some(chars_to_string(&v))
    } else {
        None
    };
    if !str_eq(a.requested_audio_mode.as_str(), a.active_audio_mode.as_str()) {
        let stalled = match &a.startup_fallback_error {
            Some(e) => is_mic_startup_stall(e.as_str()),
            None => false,
        };
        let err = if stalled {
            "Microphone startup stalled; continuing with system audio only.".to_string()
        } else {
            let mut v: Vec<char> = Vec::new();
            append_str(&mut v, "Capture degraded from ");
            append_str(&mut v, a.requested_audio_mode.as_str());
            append_str(&mut v, " to ");
            append_str(&mut v, a.active_audio_mode.as_str());
            append_str(&mut v, " for stability.");
            chars_to_string(&v)
        };
        let mut reason: Vec<char> = Vec::new();
        append_str(&mut reason, "audio degraded to ");
        append_str(&mut reason, a.active_audio_mode.as_str());
        let reason_text = chars_to_string(&reason);
        let degrade = joined_with(&base, reason_text.as_str());
        let video_only = str_eq(a.audio_fallback_policy.as_str(), "system_only_fallback") && str_eq(
            a.active_audio_mode.as_str(),
            "video_only",
        );
        return (Some(degrade), Some(err), video_only);
    }
    if mic_backend_error.is_some() {
        return (base, mic_backend_error, false);
    }
    match audio_degrade_reason {
        Some(r) => (Some(joined_with(&base, r.as_str())), crate::text::clone_opt_string(last_error), false),
        None => {
            if restart_clears_error(last_error) {
                (base, None, false)
            } else {
                (base, crate::text::clone_opt_string(last_error), false)
            }
        },
    }
}

/// What a pipeline that just came up reports.
pub struct PipelineStartReadings {
    pub load: LoadReadings,
    pub live_queue_profile: LiveQueueProfile,
    pub save_ready: bool,
    pub system_audio_path_ready: bool,
    pub mic_path_ready: bool,
    pub mic_frames_seen: bool,
    pub mic_capture_session_running: bool,
    pub mic_samples_per_sec: Option<u32>,
    pub mic_attach_runtime_state: Option<MicAttachRuntimeState>,
    pub mic_recovery_state: Option<String>,
    pub selected_microphone_name: Option<String>,
    pub last_mic_backend_error: Option<(String, String)>,
    pub first_audio_frame_seen: bool,
    pub capture_dropped_frames: u64,
    pub capture_queue_overflows: u64,
    pub concurrent_session_count: Option<u8>,
    pub capture_owner_pid: Option<u32>,
    pub active_audio_mode: String,
    pub mic_backend_in_use: String,
    pub startup_fallback_error: Option<String>,
}

pub open spec fn pair_first(o: Option<(String, String)>) -> Option<Seq<char>> {
    match o {
        Some((c, _)) => Some(c@),
        None => None,
    }
}

pub open spec fn pair_second(o: Option<(String, String)>) -> Option<Seq<char>> {
    match o {
        Some((_, m)) => Some(m@),
        None => None,
    }
}

impl ClipperState {
    /// A pipeline came up on the `effective` profile (the settings ask for
    /// `requested`): capture runs, and its readings, the derived load,
    /// microphone attach and recovery states, the effective profile and
    /// the audio-mode error (the start's fallback error, else the
    /// microphone probe's) are recorded, with the probe itself when one was
    /// taken.
    #[verifier::rlimit(100)]
    pub fn mark_pipeline_started(
        &mut self,
        rd: PipelineStartReadings,
        effective: EffectiveCaptureProfile,
        requested: EffectiveCaptureProfile,
        mic_probe: Option<MicrophonePermissionProbe>,
    )
        ensures
            final(self).capture_health == CaptureHealthDto::Running,
            final(self).capture_load_state@ == spec_capture_load_state(
                rd.load,
                old(self).capture_load_state@,
                effective.video_resolution,
                requested.video_resolution,
                effective.fps,
                requested.fps,
            ),
            final(self).save_ready == rd.save_ready,
            final(self).system_audio_path_ready == rd.system_audio_path_ready,
            final(self).audio_path_ready == rd.system_audio_path_ready,
            final(self).mic_path_ready == rd.mic_path_ready,
            final(self).mic_frames_seen == rd.mic_frames_seen,
            final(self).mic_capture_session_running == rd.mic_capture_session_running,
            final(self).mic_samples_per_sec == rd.mic_samples_per_sec,
            final(self).mic_attach_state == spec_mic_attach_state(
                old(self).settings,
                rd.active_audio_mode@,
                rd.mic_path_ready,
                rd.mic_frames_seen,
                rd.mic_attach_runtime_state,
                old(self).mic_attach_state,
            ),
            final(self).mic_recovery_state@ == spec_mic_recovery_state(
                old(self).settings,
                rd.active_audio_mode@,
                rd.mic_path_ready,
                opt_string(rd.mic_recovery_state),
            ),
            final(self).selected_microphone_name == rd.selected_microphone_name,
            opt_string(final(self).last_mic_error_code) == pair_first(rd.last_mic_backend_error),
            opt_string(final(self).last_mic_error_message) == pair_second(rd.last_mic_backend_error),
            final(self).first_audio_frame_seen == rd.first_audio_frame_seen,
            final(self).capture_dropped_frames == rd.capture_dropped_frames,
            final(self).capture_queue_overflows == rd.capture_queue_overflows,
            final(self).concurrent_session_count == rd.concurrent_session_count,
            final(self).capture_owner_pid == rd.capture_owner_pid,
            final(self).active_audio_mode@ == rd.active_audio_mode@,
            final(self).effective_audio_mode@ == rd.active_audio_mode@,
            final(self).mic_backend_in_use == rd.mic_backend_in_use,
            final(self).live_queue_profile@ == match rd.live_queue_profile {
                LiveQueueProfile::Small => "small"@,
                LiveQueueProfile::Elevated => "elevated"@,
            },
            opt_string(final(self).last_audio_mode_error) == match rd.startup_fallback_error {
                Some(e) => Some(e@),
                None => match mic_probe {
                    Some(p) => opt_string(p.error),
                    None => None,
                },
            },
            match mic_probe {
                Some(p) => final(self).mic_permission_status@ == permission_status_text(p.status)
                    && opt_string(final(self).mic_permission_error) == opt_string(p.error),
                None => final(self).mic_permission_status == old(self).mic_permission_status
                    && final(self).mic_permission_error == old(self).mic_permission_error,
            },
            final(self).effective_video_resolution == effective.video_resolution,
            final(self).effective_fps == effective.fps,
            final(self).effective_video_bitrate_kbps == effective.video_bitrate_kbps,
            final(self).settings == old(self).settings,
            final(self).permission == old(self).permission,
            final(self).lifecycle_state == old(self).lifecycle_state,
            final(self).last_error == old(self).last_error,
    {
        let load = derive_capture_load_state(
            &rd.load,
            self.capture_load_state.as_str(),
            effective.video_resolution,
            requested.video_resolution,
            effective.fps,
            requested.fps,
        );
        let attach = derive_mic_attach_state(
            &self.settings,
            rd.active_audio_mode.as_str(),
            rd.mic_path_ready,
            rd.mic_frames_seen,
            rd.mic_attach_runtime_state,
            self.mic_attach_state,
        );
        let runtime_recovery: Option<&str> = match &rd.mic_recovery_state {
            Some(s) => Some(s.as_str()),
            None => None,
        };
        let recovery = derive_mic_recovery_state(
            &self.settings,
            rd.active_audio_mode.as_str(),
            rd.mic_path_ready,
            runtime_recovery,
        );
        self.capture_health = CaptureHealthDto::Running;
        self.capture_load_state = load.to_string();
        self.live_queue_profile = rd.live_queue_profile.as_str().to_string();
        self.save_ready = rd.save_ready;
        self.system_audio_path_ready = rd.system_audio_path_ready;
        self.audio_path_ready = rd.system_audio_path_ready;
        self.mic_path_ready = rd.mic_path_ready;
        self.mic_frames_seen = rd.mic_frames_seen;
        self.mic_capture_session_running = rd.mic_capture_session_running;
        self.mic_samples_per_sec = rd.mic_samples_per_sec;
        self.mic_attach_state = attach;
        self.mic_recovery_state = recovery;
        self.selected_microphone_name = rd.selected_microphone_name;
        match rd.last_mic_backend_error {
            Some((code, message)) => {
                self.last_mic_error_code = Some(code);
                self.last_mic_error_message = Some(message);
            },
            None => {
                self.last_mic_error_code = None;
                self.last_mic_error_message = None;
            },
        }
        self.first_audio_frame_seen = rd.first_audio_frame_seen;
        self.capture_dropped_frames = rd.capture_dropped_frames;
        self.capture_queue_overflows = rd.capture_queue_overflows;
        self.concurrent_session_count = rd.concurrent_session_count;
        self.capture_owner_pid = rd.capture_owner_pid;
        self.active_audio_mode = rd.active_audio_mode.clone();
        self.effective_audio_mode = rd.active_audio_mode;
        self.mic_backend_in_use = rd.mic_backend_in_use;
        self.last_audio_mode_error = match rd.startup_fallback_error {
            Some(e) => Some(e),
            None => match &mic_probe {
                Some(p) => crate::text::clone_opt_string(&p.error),
                None => None,
            },
        };
        match &mic_probe {
            Some(p) => {
                self.mic_permission_status = p.status.as_str().to_string();
                self.mic_permission_error = crate::text::clone_opt_string(&p.error);
            },
            None => {},
        }
        self.effective_video_resolution = effective.video_resolution;
        self.effective_fps = effective.fps;
        self.effective_video_bitrate_kbps = effective.video_bitrate_kbps;
    }
}

} // verus!
