//! Applying new settings to a running engine: whether capture must restart,
//! and the engine state that a restart for new settings starts from; and
//! the state when the user resumes a paused capture.
use vstd::prelude::*;
use crate::text::{append_str, chars_to_string, opt_string, opt_string_eq, str_eq};
use crate::settings::SettingsDto;
use crate::state::{
    idle_state, spec_boot_state, AudioHealthDto, CaptureHealthDto, ClipperState, LifecycleState,
    MicAttachStateDto, SaveStageDto, VideoSmoothStateDto,
};

verus! {

/// The two settings record the same capture: they agree on everything but
/// the replay length, which a save reads without a restart.
pub open spec fn same_capture_settings(a: SettingsDto, b: SettingsDto) -> bool {
    &&& a.replay_enabled == b.replay_enabled
    &&& a.output_dir@ == b.output_dir@
    &&& a.buffer_duration_secs == b.buffer_duration_secs
    &&& a.video_resolution == b.video_resolution
    &&& a.fps == b.fps
    &&& a.video_bitrate_kbps == b.video_bitrate_kbps
    &&& a.segment_time_ms == b.segment_time_ms
    &&& a.audio_mode@ == b.audio_mode@
    &&& a.audio_fallback_policy@ == b.audio_fallback_policy@
    &&& a.audio_bitrate_kbps == b.audio_bitrate_kbps
    &&& a.audio_sample_rate_hz == b.audio_sample_rate_hz
    &&& a.audio_channels == b.audio_channels
    &&& a.audio_startup_timeout_ms == b.audio_startup_timeout_ms
    &&& a.exclude_current_process_audio == b.exclude_current_process_audio
    &&& a.system_volume_percent == b.system_volume_percent
    &&& a.mic_enabled == b.mic_enabled
    &&& a.mic_failure_policy@ == b.mic_failure_policy@
    &&& a.mic_capture_backend@ == b.mic_capture_backend@
    &&& a.mic_retry_interval_secs == b.mic_retry_interval_secs
    &&& a.mic_auto_boost_volume == b.mic_auto_boost_volume
    &&& a.mic_noise_suppression == b.mic_noise_suppression
    &&& opt_string(a.selected_microphone_id) == opt_string(b.selected_microphone_id)
    &&& a.quality_policy@ == b.quality_policy@
    &&& a.quality_preference@ == b.quality_preference@
    &&& a.performance_guard_enabled == b.performance_guard_enabled
    &&& a.performance_guard_level@ == b.performance_guard_level@
    &&& a.battery_guard_enabled == b.battery_guard_enabled
    &&& a.battery_max_fps == b.battery_max_fps
    &&& a.profile_recover_hold_secs == b.profile_recover_hold_secs
}

/// Whether new settings change the capture, so that it must restart.
pub fn capture_settings_changed(previous: &SettingsDto, candidate: &SettingsDto) -> (r: bool)
    ensures
        r == !same_capture_settings(*previous, *candidate),
{
    let same = previous.replay_enabled == candidate.replay_enabled && str_eq(
        previous.output_dir.as_str(),
        candidate.output_dir.as_str(),
    ) && previous.buffer_duration_secs == candidate.buffer_duration_secs
        && previous.video_resolution == candidate.video_resolution && previous.fps == candidate.fps
        && previous.video_bitrate_kbps == candidate.video_bitrate_kbps
        && previous.segment_time_ms == candidate.segment_time_ms && str_eq(
        previous.audio_mode.as_str(),
        candidate.audio_mode.as_str(),
    ) && str_eq(
        previous.audio_fallback_policy.as_str(),
        candidate.audio_fallback_policy.as_str(),
    ) && previous.audio_bitrate_kbps == candidate.audio_bitrate_kbps
        && previous.audio_sample_rate_hz == candidate.audio_sample_rate_hz
        && previous.audio_channels == candidate.audio_channels
        && previous.audio_startup_timeout_ms == candidate.audio_startup_timeout_ms
        && previous.exclude_current_process_audio == candidate.exclude_current_process_audio
        && previous.system_volume_percent == candidate.system_volume_percent
        && previous.mic_enabled == candidate.mic_enabled && str_eq(
        previous.mic_failure_policy.as_str(),
        candidate.mic_failure_policy.as_str(),
    ) && str_eq(previous.mic_capture_backend.as_str(), candidate.mic_capture_backend.as_str())
        && previous.mic_retry_interval_secs == candidate.mic_retry_interval_secs
        && previous.mic_auto_boost_volume == candidate.mic_auto_boost_volume
        && previous.mic_noise_suppression == candidate.mic_noise_suppression && opt_string_eq(
        &previous.selected_microphone_id,
        &candidate.selected_microphone_id,
    ) && str_eq(previous.quality_policy.as_str(), candidate.quality_policy.as_str()) && str_eq(
        previous.quality_preference.as_str(),
        candidate.quality_preference.as_str(),
    ) && previous.performance_guard_enabled == candidate.performance_guard_enabled && str_eq(
        previous.performance_guard_level.as_str(),
        candidate.performance_guard_level.as_str(),
    ) && previous.battery_guard_enabled == candidate.battery_guard_enabled
        && previous.battery_max_fps == candidate.battery_max_fps
        && previous.profile_recover_hold_secs == candidate.profile_recover_hold_secs;
    !same
}

/// Capture must restart for new settings when they change the capture, or
/// when whether capture should run no longer matches whether it runs.
pub open spec fn spec_settings_restart_needed(
    force_restart: bool,
    lifecycle: LifecycleState,
    paused_by_user: bool,
    pipeline_present: bool,
) -> bool {
    let should_run = (lifecycle == LifecycleState::Armed || lifecycle
        == LifecycleState::SavingReplay) && !paused_by_user;
    force_restart || should_run != pipeline_present
}

impl ClipperState {
    /// The state a restart for new settings starts from: runtime readings
    /// cleared, the guard monitoring (idle with replay off), the requested
    /// profile as the effective one, and capture stopped, restarting or
    /// starting by whether replay is on and a pipeline runs.
    #[verifier::rlimit(60)]
    fn reset_for_settings_restart(&mut self, pipeline_present: bool)
        ensures
            !final(self).capture_crash_loop,
            final(self).capture_health == if !old(self).settings.replay_enabled {
                CaptureHealthDto::Stopped
            } else if pipeline_present {
                CaptureHealthDto::Restarting
            } else {
                CaptureHealthDto::Starting
            },
            final(self).active_audio_mode@ == old(self).settings.audio_mode@,
            final(self).effective_audio_mode@ == old(self).settings.audio_mode@,
            final(self).audio_fallback_policy@ == old(self).settings.audio_fallback_policy@,
            final(self).capture_load_state@ == "normal"@,
            final(self).guard_state@ == if old(self).settings.replay_enabled {
                "monitoring"@
            } else {
                "idle"@
            },
            final(self).guard_primary_reason_code is None,
            final(self).guard_contributing_reason_codes@.len() == 0,
            final(self).guard_suppressed_reason_code is None,
            final(self).live_queue_profile@ == "small"@,
            !final(self).save_ready,
            !final(self).system_audio_path_ready,
            !final(self).mic_path_ready,
            !final(self).mic_frames_seen,
            !final(self).mic_capture_session_running,
            final(self).mic_samples_per_sec is None,
            final(self).mic_attach_state == MicAttachStateDto::Inactive,
            final(self).mic_recovery_state@ == "ok"@,
            !final(self).mic_signal_silent,
            final(self).selected_microphone_name is None,
            final(self).last_mic_error_code is None,
            final(self).last_mic_error_message is None,
            final(self).concurrent_session_count is None,
            final(self).capture_owner_pid is None,
            !final(self).audio_path_ready,
            !final(self).first_audio_frame_seen,
            final(self).save_stage == SaveStageDto::Idle,
            final(self).video_smooth_state == VideoSmoothStateDto::Idle,
            final(self).requested_video_resolution == old(self).settings.video_resolution,
            final(self).requested_fps == old(self).settings.fps,
            final(self).requested_video_bitrate_kbps == old(self).settings.video_bitrate_kbps,
            final(self).effective_video_resolution == old(self).settings.video_resolution,
            final(self).effective_fps == old(self).settings.fps,
            final(self).effective_video_bitrate_kbps == old(self).settings.video_bitrate_kbps,
            final(self).degrade_reason is None,
            final(self).audio_degrade_reason is None,
            final(self).mic_backend_in_use@ == old(self).settings.mic_capture_backend@,
            final(self).last_audio_mode_error is None,
            final(self).settings == old(self).settings,
            final(self).permission == old(self).permission,
            final(self).lifecycle_state == old(self).lifecycle_state,
            final(self).last_error == old(self).last_error,
            final(self).audio_health == old(self).audio_health,
            final(self).is_saving == old(self).is_saving,
            final(self).hotkey_status == old(self).hotkey_status,
            final(self).capture_restart_count == old(self).capture_restart_count,
            final(self).capture_interrupt_count == old(self).capture_interrupt_count,
            *final(self) == (ClipperState {
                active_audio_mode: final(self).active_audio_mode,
                audio_degrade_reason: final(self).audio_degrade_reason,
                audio_fallback_policy: final(self).audio_fallback_policy,
                audio_path_ready: final(self).audio_path_ready,
                capture_crash_loop: final(self).capture_crash_loop,
                capture_health: final(self).capture_health,
                capture_load_state: final(self).capture_load_state,
                capture_owner_pid: final(self).capture_owner_pid,
                concurrent_session_count: final(self).concurrent_session_count,
                degrade_reason: final(self).degrade_reason,
                effective_audio_mode: final(self).effective_audio_mode,
                effective_fps: final(self).effective_fps,
                effective_video_bitrate_kbps: final(self).effective_video_bitrate_kbps,
                effective_video_resolution: final(self).effective_video_resolution,
                first_audio_frame_seen: final(self).first_audio_frame_seen,
                guard_contributing_reason_codes: final(self).guard_contributing_reason_codes,
                guard_primary_reason_code: final(self).guard_primary_reason_code,
                guard_state: final(self).guard_state,
                guard_suppressed_reason_code: final(self).guard_suppressed_reason_code,
                last_audio_mode_error: final(self).last_audio_mode_error,
                last_mic_error_code: final(self).last_mic_error_code,
                last_mic_error_message: final(self).last_mic_error_message,
                live_queue_profile: final(self).live_queue_profile,
                mic_attach_state: final(self).mic_attach_state,
                mic_backend_in_use: final(self).mic_backend_in_use,
                mic_capture_session_running: final(self).mic_capture_session_running,
                mic_frames_seen: final(self).mic_frames_seen,
                mic_path_ready: final(self).mic_path_ready,
                mic_recovery_state: final(self).mic_recovery_state,
                mic_samples_per_sec: final(self).mic_samples_per_sec,
                mic_signal_silent: final(self).mic_signal_silent,
                requested_fps: final(self).requested_fps,
                requested_video_bitrate_kbps: final(self).requested_video_bitrate_kbps,
                requested_video_resolution: final(self).requested_video_resolution,
                save_ready: final(self).save_ready,
                save_stage: final(self).save_stage,
                selected_microphone_name: final(self).selected_microphone_name,
                system_audio_path_ready: final(self).system_audio_path_ready,
                video_smooth_state: final(self).video_smooth_state,
                ..*old(self)
            }),
    {
        let replay_enabled = self.settings.replay_enabled;
        self.capture_crash_loop = false;
        self.capture_health = if !replay_enabled {
            CaptureHealthDto::Stopped
        } else if pipeline_present {
            CaptureHealthDto::Restarting
        } else {
            CaptureHealthDto::Starting
        };
        self.active_audio_mode = self.settings.audio_mode.clone();
        self.effective_audio_mode = self.settings.audio_mode.clone();
        self.audio_fallback_policy = self.settings.audio_fallback_policy.clone();
        self.capture_load_state = "normal".to_string();
        self.guard_state = if replay_enabled {
            "monitoring".to_string()
        } else {
            "idle".to_string()
        };
        self.guard_primary_reason_code = None;
        self.guard_contributing_reason_codes = Vec::new();
        self.guard_suppressed_reason_code = None;
        self.live_queue_profile = "small".to_string();
        self.save_ready = false;
        self.system_audio_path_ready = false;
        self.mic_path_ready = false;
        self.mic_frames_seen = false;
        self.mic_capture_session_running = false;
        self.mic_samples_per_sec = None;
        self.mic_attach_state = MicAttachStateDto::Inactive;
        self.mic_recovery_state = "ok".to_string();
        self.mic_signal_silent = false;
        self.selected_microphone_name = None;
        self.last_mic_error_code = None;
        self.last_mic_error_message = None;
        self.concurrent_session_count = None;
        self.capture_owner_pid = None;
        self.audio_path_ready = false;
        self.first_audio_frame_seen = false;
        self.save_stage = SaveStageDto::Idle;
        self.video_smooth_state = VideoSmoothStateDto::Idle;
        self.requested_video_resolution = self.settings.video_resolution;
        self.requested_fps = self.settings.fps;
        self.requested_video_bitrate_kbps = self.settings.video_bitrate_kbps;
        self.effective_video_resolution = self.settings.video_resolution;
        self.effective_fps = self.settings.fps;
        self.effective_video_bitrate_kbps = self.settings.video_bitrate_kbps;
        self.degrade_reason = None;
        self.audio_degrade_reason = None;
        self.mic_backend_in_use = self.settings.mic_capture_backend.clone();
        self.last_audio_mode_error = None;
    }

    /// Takes new settings: the lifecycle follows the permissions and the
    /// replay switch, the error is cleared, and when capture must restart
    /// (see `spec_settings_restart_needed`) the state is reset for it.
    /// `force_restart` says that the settings change the capture; the
    /// result says whether capture restarts.
    pub fn apply_settings(
        &mut self,
        candidate: SettingsDto,
        force_restart: bool,
        pipeline_present: bool,
        paused_by_user: bool,
    ) -> (r: bool)
        ensures
            final(self).settings == candidate,
            final(self).lifecycle_state == spec_boot_state(
                old(self).permission,
                candidate.replay_enabled,
            ),
            final(self).last_error is None,
            final(self).permission == old(self).permission,
            r == spec_settings_restart_needed(
                force_restart,
                spec_boot_state(old(self).permission, candidate.replay_enabled),
                paused_by_user,
                pipeline_present,
            ),
            r ==> final(self).capture_health == if !candidate.replay_enabled {
                CaptureHealthDto::Stopped
            } else if pipeline_present {
                CaptureHealthDto::Restarting
            } else {
                CaptureHealthDto::Starting
            },
            r ==> final(self).effective_fps == candidate.fps
                && final(self).effective_video_resolution == candidate.video_resolution
                && final(self).effective_video_bitrate_kbps == candidate.video_bitrate_kbps
                && final(self).active_audio_mode@ == candidate.audio_mode@
                && !final(self).save_ready && final(self).save_stage == SaveStageDto::Idle
                && final(self).guard_contributing_reason_codes@.len() == 0,
            !r ==> *final(self) == (ClipperState {
                settings: candidate,
                lifecycle_state: final(self).lifecycle_state,
                last_error: None,
                ..*old(self)
            }),
    {
        self.settings = candidate;
        self.lifecycle_state = idle_state(&self.permission, self.settings.replay_enabled);
        self.last_error = None;
        let should_run = (self.lifecycle_state == LifecycleState::Armed || self.lifecycle_state
            == LifecycleState::SavingReplay) && !paused_by_user;
        let restart_needed = force_restart || should_run != pipeline_present;
        if restart_needed {
            self.reset_for_settings_restart(pipeline_present);
        }
        restart_needed
    }

    /// The user resumes capture: errors and smoothing are cleared, the
    /// lifecycle follows the permissions, and capture starts when replay is
    /// on.
    pub fn mark_resuming(&mut self)
        ensures
            final(self).last_error is None,
            final(self).degrade_reason is None,
            final(self).video_smooth_state == VideoSmoothStateDto::Idle,
            final(self).lifecycle_state == spec_boot_state(
                old(self).permission,
                old(self).settings.replay_enabled,
            ),
            final(self).capture_health == if old(self).settings.replay_enabled {
                CaptureHealthDto::Starting
            } else {
                CaptureHealthDto::Stopped
            },
            *final(self) == (ClipperState {
                last_error: None,
                degrade_reason: None,
                video_smooth_state: VideoSmoothStateDto::Idle,
                lifecycle_state: final(self).lifecycle_state,
                capture_health: final(self).capture_health,
                ..*old(self)
            }),
    {
        self.last_error = None;
        self.degrade_reason = None;
        self.video_smooth_state = VideoSmoothStateDto::Idle;
        self.lifecycle_state = idle_state(&self.permission, self.settings.replay_enabled);
        self.capture_health = if self.settings.replay_enabled {
            CaptureHealthDto::Starting
        } else {
            CaptureHealthDto::Stopped
        };
    }

    /// Starting capture failed: the error is shown, capture and audio count
    /// as degraded.
    pub fn mark_capture_start_failed(&mut self, err: String)
        ensures
            opt_string(final(self).last_error) == Some(err@),
            final(self).capture_health == CaptureHealthDto::Degraded,
            final(self).audio_health == AudioHealthDto::Degraded,
            *final(self) == (ClipperState {
                last_error: final(self).last_error,
                capture_health: CaptureHealthDto::Degraded,
                audio_health: AudioHealthDto::Degraded,
                ..*old(self)
            }),
    {
        self.last_error = Some(err);
        self.capture_health = CaptureHealthDto::Degraded;
        self.audio_health = AudioHealthDto::Degraded;
    }
}

/// The error of a settings restart that failed, with the failure of the
/// restart on the previous settings when that failed too.
pub open spec fn spec_settings_apply_failure(err: Seq<char>, rollback_err: Option<Seq<char>>) -> Seq<
    char,
> {
    match rollback_err {
        Some(r) => "settings: apply failed: "@ + err + "; rollback restart failed: "@ + r,
        None => "settings: apply failed: "@ + err,
    }
}

pub fn settings_apply_failure(err: &str, rollback_err: Option<&str>) -> (r: String)
    ensures
        r@ == spec_settings_apply_failure(
            err@,
            match rollback_err {
                Some(e) => Some(e@),
                None => None,
            },
        ),
{
    let mut v: Vec<char> = Vec::new();
    append_str(&mut v, "settings: apply failed: ");
    append_str(&mut v, err);
    if let Some(r) = rollback_err {
        append_str(&mut v, "; rollback restart failed: ");
        append_str(&mut v, r);
    }
    chars_to_string(&v)
}

/// The error shown when the shortcut update of new settings fails.
pub open spec fn spec_hotkey_update_failure(source: Seq<char>, err: Seq<char>) -> Seq<char> {
    source + ": hotkey update failed: "@ + err
}

pub fn hotkey_update_failure(source: &str, err: &str) -> (r: String)
    ensures
        r@ == spec_hotkey_update_failure(source@, err@),
{
    let mut v: Vec<char> = Vec::new();
    append_str(&mut v, source);
    append_str(&mut v, ": hotkey update failed: ");
    append_str(&mut v, err);
    chars_to_string(&v)
}

/// New settings never leave a capture running that should not, nor a
/// stopped one that should run: unless capture restarts, whether it runs
/// already matches the new settings.
pub proof fn settings_leave_capture_consistent(
    force_restart: bool,
    lifecycle: LifecycleState,
    paused_by_user: bool,
    pipeline_present: bool,
)
    ensures
        !spec_settings_restart_needed(force_restart, lifecycle, paused_by_user, pipeline_present)
            ==> pipeline_present == ((lifecycle == LifecycleState::Armed || lifecycle
            == LifecycleState::SavingReplay) && !paused_by_user),
        force_restart ==> spec_settings_restart_needed(
            force_restart,
            lifecycle,
            paused_by_user,
            pipeline_present,
        ),
{
}

impl ClipperState {
    /// New settings failed to apply: the previous settings come back, the
    /// lifecycle follows them, capture starts again (or stays stopped with
    /// replay off) and every runtime reading is reset.
    #[verifier::rlimit(80)]
    pub fn rollback_settings(&mut self, previous: SettingsDto)
        ensures
            final(self).settings == previous,
            final(self).lifecycle_state == spec_boot_state(
                old(self).permission,
                previous.replay_enabled,
            ),
            final(self).capture_health == if previous.replay_enabled {
                CaptureHealthDto::Starting
            } else {
                CaptureHealthDto::Stopped
            },
            final(self).audio_health == if previous.replay_enabled {
                AudioHealthDto::Degraded
            } else {
                AudioHealthDto::Unavailable
            },
            final(self).active_audio_mode@ == previous.audio_mode@,
            final(self).effective_audio_mode@ == previous.audio_mode@,
            final(self).audio_fallback_policy@ == previous.audio_fallback_policy@,
            final(self).capture_load_state@ == "normal"@,
            final(self).live_queue_profile@ == "small"@,
            !final(self).save_ready,
            !final(self).system_audio_path_ready,
            !final(self).mic_path_ready,
            !final(self).mic_frames_seen,
            !final(self).mic_capture_session_running,
            final(self).mic_samples_per_sec is None,
            final(self).mic_attach_state == MicAttachStateDto::Inactive,
            !final(self).mic_signal_silent,
            final(self).concurrent_session_count is None,
            final(self).capture_owner_pid is None,
            !final(self).audio_path_ready,
            !final(self).first_audio_frame_seen,
            final(self).save_stage == SaveStageDto::Idle,
            final(self).video_smooth_state == VideoSmoothStateDto::Idle,
            final(self).mic_backend_in_use@ == previous.mic_capture_backend@,
            final(self).requested_video_resolution == previous.video_resolution,
            final(self).requested_fps == previous.fps,
            final(self).requested_video_bitrate_kbps == previous.video_bitrate_kbps,
            final(self).effective_video_resolution == previous.video_resolution,
            final(self).effective_fps == previous.fps,
            final(self).effective_video_bitrate_kbps == previous.video_bitrate_kbps,
            final(self).degrade_reason is None,
            final(self).audio_degrade_reason is None,
            final(self).last_audio_mode_error is None,
            final(self).permission == old(self).permission,
            final(self).last_error == old(self).last_error,
            *final(self) == (ClipperState {
                active_audio_mode: final(self).active_audio_mode,
                audio_degrade_reason: final(self).audio_degrade_reason,
                audio_fallback_policy: final(self).audio_fallback_policy,
                audio_health: final(self).audio_health,
                audio_path_ready: final(self).audio_path_ready,
                capture_health: final(self).capture_health,
                capture_load_state: final(self).capture_load_state,
                capture_owner_pid: final(self).capture_owner_pid,
                concurrent_session_count: final(self).concurrent_session_count,
                degrade_reason: final(self).degrade_reason,
                effective_audio_mode: final(self).effective_audio_mode,
                effective_fps: final(self).effective_fps,
                effective_video_bitrate_kbps: final(self).effective_video_bitrate_kbps,
                effective_video_resolution: final(self).effective_video_resolution,
                first_audio_frame_seen: final(self).first_audio_frame_seen,
                last_audio_mode_error: final(self).last_audio_mode_error,
                lifecycle_state: final(self).lifecycle_state,
                live_queue_profile: final(self).live_queue_profile,
                mic_attach_state: final(self).mic_attach_state,
                mic_backend_in_use: final(self).mic_backend_in_use,
                mic_capture_session_running: final(self).mic_capture_session_running,
                mic_frames_seen: final(self).mic_frames_seen,
                mic_path_ready: final(self).mic_path_ready,
                mic_samples_per_sec: final(self).mic_samples_per_sec,
                mic_signal_silent: final(self).mic_signal_silent,
                requested_fps: final(self).requested_fps,
                requested_video_bitrate_kbps: final(self).requested_video_bitrate_kbps,
                requested_video_resolution: final(self).requested_video_resolution,
                save_ready: final(self).save_ready,
                save_stage: final(self).save_stage,
                settings: final(self).settings,
                system_audio_path_ready: final(self).system_audio_path_ready,
                video_smooth_state: final(self).video_smooth_state,
                ..*old(self)
            }),
    {
        let replay_enabled = previous.replay_enabled;
        self.settings = previous;
        self.lifecycle_state = idle_state(&self.permission, replay_enabled);
        self.capture_health = if replay_enabled {
            CaptureHealthDto::Starting
        } else {
            CaptureHealthDto::Stopped
        };
        self.audio_health = if replay_enabled {
            AudioHealthDto::Degraded
        } else {
            AudioHealthDto::Unavailable
        };
        self.active_audio_mode = self.settings.audio_mode.clone();
        self.effective_audio_mode = self.settings.audio_mode.clone();
        self.audio_fallback_policy = self.settings.audio_fallback_policy.clone();
        self.capture_load_state = "normal".to_string();
        self.live_queue_profile = "small".to_string();
        self.save_ready = false;
        self.system_audio_path_ready = false;
        self.mic_path_ready = false;
        self.mic_frames_seen = false;
        self.mic_capture_session_running = false;
        self.mic_samples_per_sec = None;
        self.mic_attach_state = MicAttachStateDto::Inactive;
        self.mic_signal_silent = false;
        self.concurrent_session_count = None;
        self.capture_owner_pid = None;
        self.audio_path_ready = false;
        self.first_audio_frame_seen = false;
        self.save_stage = SaveStageDto::Idle;
        self.video_smooth_state = VideoSmoothStateDto::Idle;
        self.mic_backend_in_use = self.settings.mic_capture_backend.clone();
        self.requested_video_resolution = self.settings.video_resolution;
        self.requested_fps = self.settings.fps;
        self.requested_video_bitrate_kbps = self.settings.video_bitrate_kbps;
        self.effective_video_resolution = self.settings.video_resolution;
        self.effective_fps = self.settings.fps;
        self.effective_video_bitrate_kbps = self.settings.video_bitrate_kbps;
        self.degrade_reason = None;
        self.audio_degrade_reason = None;
        self.last_audio_mode_error = None;
    }
}

} // verus!
