//! Taking in fresh permission probes, and the answers of the permission
//! assistants (output folder, screen recording, microphone).
use vstd::prelude::*;
use crate::text::{
    append_str, chars_to_string, clone_opt_string, contains, contains_str, lower, lower_chars,
    opt_string, str_chars,
};
use crate::permissions::{
    permission_status_text, MicrophonePermissionProbe, MicrophonePermissionStatus,
};
use crate::state::{
    boot_state, idle_state, spec_boot_state, AudioHealthDto, CaptureHealthDto, ClipperState, MicAttachStateDto, PermissionStateDto,
    SaveStageDto, VideoSmoothStateDto,
};

verus! {

/// The readings of a capture about to restart on fresh permissions.
pub open spec fn readings_cleared(s: ClipperState) -> bool {
    &&& s.capture_load_state@ == "normal"@
    &&& s.live_queue_profile@ == "small"@
    &&& !s.save_ready
    &&& !s.system_audio_path_ready
    &&& !s.mic_path_ready
    &&& !s.mic_frames_seen
    &&& !s.mic_capture_session_running
    &&& s.mic_samples_per_sec is None
    &&& s.mic_attach_state == MicAttachStateDto::Inactive
    &&& s.mic_recovery_state@ == "ok"@
    &&& !s.mic_signal_silent
    &&& s.selected_microphone_name is None
    &&& s.last_mic_error_code is None
    &&& s.last_mic_error_message is None
    &&& s.concurrent_session_count is None
    &&& s.capture_owner_pid is None
    &&& !s.audio_path_ready
    &&& !s.first_audio_frame_seen
    &&& s.save_stage == SaveStageDto::Idle
    &&& s.video_smooth_state == VideoSmoothStateDto::Idle
    &&& s.degrade_reason is None
    &&& s.audio_degrade_reason is None
}

impl ClipperState {
    #[verifier::rlimit(40)]
    fn take_permissions(
        &mut self,
        permission: PermissionStateDto,
        mic_status: String,
        mic_error: Option<String>,
    )
        ensures
            final(self).permission == permission,
            final(self).mic_permission_status == mic_status,
            final(self).mic_permission_error == mic_error,
            final(self).lifecycle_state == spec_boot_state(
                permission,
                old(self).settings.replay_enabled,
            ),
            readings_cleared(*final(self)),
            final(self).settings == old(self).settings,
            final(self).last_audio_mode_error == old(self).last_audio_mode_error,
            final(self).last_error == old(self).last_error,
            final(self).capture_health == old(self).capture_health,
            final(self).audio_health == old(self).audio_health,
            *final(self) == (ClipperState {
                audio_degrade_reason: final(self).audio_degrade_reason,
                audio_path_ready: final(self).audio_path_ready,
                capture_load_state: final(self).capture_load_state,
                capture_owner_pid: final(self).capture_owner_pid,
                concurrent_session_count: final(self).concurrent_session_count,
                degrade_reason: final(self).degrade_reason,
                first_audio_frame_seen: final(self).first_audio_frame_seen,
                last_mic_error_code: final(self).last_mic_error_code,
                last_mic_error_message: final(self).last_mic_error_message,
                lifecycle_state: final(self).lifecycle_state,
                live_queue_profile: final(self).live_queue_profile,
                mic_attach_state: final(self).mic_attach_state,
                mic_capture_session_running: final(self).mic_capture_session_running,
                mic_frames_seen: final(self).mic_frames_seen,
                mic_path_ready: final(self).mic_path_ready,
                mic_permission_error: final(self).mic_permission_error,
                mic_permission_status: final(self).mic_permission_status,
                mic_recovery_state: final(self).mic_recovery_state,
                mic_samples_per_sec: final(self).mic_samples_per_sec,
                mic_signal_silent: final(self).mic_signal_silent,
                permission: final(self).permission,
                save_ready: final(self).save_ready,
                save_stage: final(self).save_stage,
                selected_microphone_name: final(self).selected_microphone_name,
                system_audio_path_ready: final(self).system_audio_path_ready,
                video_smooth_state: final(self).video_smooth_state,
                ..*old(self)
            }),
    {
        self.permission = permission;
        self.mic_permission_status = mic_status;
        self.mic_permission_error = mic_error;
        self.lifecycle_state = idle_state(&self.permission, self.settings.replay_enabled);
        self.capture_load_state = "normal".to_string();
        self.live_queue_profile = "small".to_string();
        self.save_ready = false;
        self.system_audio_path_ready = false;
        self.mic_path_ready = false;
        self.mic_frames_seen = false;
        self.mic_capture_session_running = false;
        self.mic_samples_per_sec = None;
        self.mic_attach_state = MicAttachStateDto::Inactive;
        self.mic_recovery_state = "ok".to_string();
        self.mic_signal_silent = false;
        self.selected_microphone_name = None;
        self.last_mic_error_code = None;
        self.last_mic_error_message = None;
        self.concurrent_session_count = None;
        self.capture_owner_pid = None;
        self.audio_path_ready = false;
        self.first_audio_frame_seen = false;
        self.save_stage = SaveStageDto::Idle;
        self.video_smooth_state = VideoSmoothStateDto::Idle;
        self.degrade_reason = None;
        self.audio_degrade_reason = None;
    }

    /// Fresh permission probes were taken: they are recorded, the lifecycle
    /// follows them, and the capture readings and the audio-mode error are
    /// cleared for the restart.
    pub fn mark_permissions_rechecked(
        &mut self,
        permission: PermissionStateDto,
        mic_status: String,
        mic_error: Option<String>,
    )
        ensures
            final(self).permission == permission,
            final(self).mic_permission_status == mic_status,
            final(self).mic_permission_error == mic_error,
            final(self).lifecycle_state == spec_boot_state(
                permission,
                old(self).settings.replay_enabled,
            ),
            readings_cleared(*final(self)),
            final(self).last_audio_mode_error is None,
            final(self).settings == old(self).settings,
            *final(self) == (ClipperState {
                audio_degrade_reason: final(self).audio_degrade_reason,
                audio_path_ready: final(self).audio_path_ready,
                capture_load_state: final(self).capture_load_state,
                capture_owner_pid: final(self).capture_owner_pid,
                concurrent_session_count: final(self).concurrent_session_count,
                degrade_reason: final(self).degrade_reason,
                first_audio_frame_seen: final(self).first_audio_frame_seen,
                last_audio_mode_error: final(self).last_audio_mode_error,
                last_mic_error_code: final(self).last_mic_error_code,
                last_mic_error_message: final(self).last_mic_error_message,
                lifecycle_state: final(self).lifecycle_state,
                live_queue_profile: final(self).live_queue_profile,
                mic_attach_state: final(self).mic_attach_state,
                mic_capture_session_running: final(self).mic_capture_session_running,
                mic_frames_seen: final(self).mic_frames_seen,
                mic_path_ready: final(self).mic_path_ready,
                mic_permission_error: final(self).mic_permission_error,
                mic_permission_status: final(self).mic_permission_status,
                mic_recovery_state: final(self).mic_recovery_state,
                mic_samples_per_sec: final(self).mic_samples_per_sec,
                mic_signal_silent: final(self).mic_signal_silent,
                permission: final(self).permission,
                save_ready: final(self).save_ready,
                save_stage: final(self).save_stage,
                selected_microphone_name: final(self).selected_microphone_name,
                system_audio_path_ready: final(self).system_audio_path_ready,
                video_smooth_state: final(self).video_smooth_state,
                ..*old(self)
            }),
    {
        self.take_permissions(permission, mic_status, mic_error);
        self.last_audio_mode_error = None;
    }

    /// The microphone permission was requested: as a recheck, except that
    /// the audio-mode error is cleared only when the microphone is now
    /// granted and that error was about the microphone.
    pub fn mark_microphone_permission_requested(
        &mut self,
        permission: PermissionStateDto,
        probe: &MicrophonePermissionProbe,
    )
        ensures
            final(self).permission == permission,
            final(self).mic_permission_status@ == permission_status_text(probe.status),
            final(self).mic_permission_error == probe.error,
            final(self).lifecycle_state == spec_boot_state(
                permission,
                old(self).settings.replay_enabled,
            ),
            readings_cleared(*final(self)),
            final(self).last_audio_mode_error == if probe.status
                == MicrophonePermissionStatus::Granted && (match old(self).last_audio_mode_error {
                Some(e) => contains(lower(e@), "microphone"@),
                None => false,
            }) {
                None
            } else {
                old(self).last_audio_mode_error
            },
            final(self).settings == old(self).settings,
            *final(self) == (ClipperState {
                audio_degrade_reason: final(self).audio_degrade_reason,
                audio_path_ready: final(self).audio_path_ready,
                capture_load_state: final(self).capture_load_state,
                capture_owner_pid: final(self).capture_owner_pid,
                concurrent_session_count: final(self).concurrent_session_count,
                degrade_reason: final(self).degrade_reason,
                first_audio_frame_seen: final(self).first_audio_frame_seen,
                last_audio_mode_error: final(self).last_audio_mode_error,
                last_mic_error_code: final(self).last_mic_error_code,
                last_mic_error_message: final(self).last_mic_error_message,
                lifecycle_state: final(self).lifecycle_state,
                live_queue_profile: final(self).live_queue_profile,
                mic_attach_state: final(self).mic_attach_state,
                mic_capture_session_running: final(self).mic_capture_session_running,
                mic_frames_seen: final(self).mic_frames_seen,
                mic_path_ready: final(self).mic_path_ready,
                mic_permission_error: final(self).mic_permission_error,
                mic_permission_status: final(self).mic_permission_status,
                mic_recovery_state: final(self).mic_recovery_state,
                mic_samples_per_sec: final(self).mic_samples_per_sec,
                mic_signal_silent: final(self).mic_signal_silent,
                permission: final(self).permission,
                save_ready: final(self).save_ready,
                save_stage: final(self).save_stage,
                selected_microphone_name: final(self).selected_microphone_name,
                system_audio_path_ready: final(self).system_audio_path_ready,
                video_smooth_state: final(self).video_smooth_state,
                ..*old(self)
            }),
    {
        let clear = probe.status == MicrophonePermissionStatus::Granted && match &self.last_audio_mode_error {
            Some(e) => contains_str(&lower_chars(&str_chars(e.as_str())), "microphone"),
            None => false,
        };
        self.take_permissions(permission, probe.status.as_str().to_string(), probe.error.clone());
        if clear {
            self.last_audio_mode_error = None;
        }
    }

    /// The microphone is still not granted after the assistant: the probe
    /// is recorded, and its error becomes the audio-mode error when there
    /// is none yet. Returns the permissions to report, with the probe's
    /// error as their reason when they have none.
    #[verifier::rlimit(60)]
    pub fn mark_microphone_not_granted(&mut self, probe: &MicrophonePermissionProbe) -> (r:
        PermissionStateDto)
        ensures
            final(self).mic_permission_status@ == permission_status_text(probe.status),
            final(self).mic_permission_error == probe.error,
            final(self).last_audio_mode_error == if old(self).last_audio_mode_error is None {
                probe.error
            } else {
                old(self).last_audio_mode_error
            },
            r.screen_recording_granted == old(self).permission.screen_recording_granted,
            r.system_audio_granted == old(self).permission.system_audio_granted,
            r.output_dir_writable == old(self).permission.output_dir_writable,
            opt_string(r.output_dir_permission_error) == opt_string(
                old(self).permission.output_dir_permission_error,
            ),
            opt_string(r.reason) == if old(self).permission.reason is None {
                opt_string(probe.error)
            } else {
                opt_string(old(self).permission.reason)
            },
            *final(self) == (ClipperState {
                mic_permission_status: final(self).mic_permission_status,
                mic_permission_error: final(self).mic_permission_error,
                last_audio_mode_error: final(self).last_audio_mode_error,
                ..*old(self)
            }),
    {
        let reason = match &self.permission.reason {
            None => clone_opt_string(&probe.error),
            Some(r) => Some(r.clone()),
        };
        let permission = PermissionStateDto {
            screen_recording_granted: self.permission.screen_recording_granted,
            system_audio_granted: self.permission.system_audio_granted,
            output_dir_writable: self.permission.output_dir_writable,
            output_dir_permission_error: clone_opt_string(&self.permission.output_dir_permission_error),
            reason,
        };
        self.mic_permission_status = probe.status.as_str().to_string();
        self.mic_permission_error = probe.error.clone();
        if self.last_audio_mode_error.is_none() {
            self.last_audio_mode_error = probe.error.clone();
        }
        permission
    }
}

/// The output-folder assistant's answer: whether System Settings stays
/// open and what the user is told. `probe_writable`/`probe_error` are the
/// first probe, `opened_settings` whether System Settings was opened (only
/// tried when the folder was not writable), `writable_after` the recheck.
pub open spec fn spec_output_dir_grant_outcome(
    probe_writable: bool,
    probe_error: Option<Seq<char>>,
    output_dir: Seq<char>,
    opened_settings: bool,
    writable_after: bool,
) -> (bool, Seq<char>) {
    if writable_after {
        (false, "Access granted, capture resumed."@)
    } else if probe_writable {
        (false, "Downloads access confirmed for "@ + output_dir + "."@)
    } else if opened_settings {
        (
            true,
            "Downloads access is still denied. Opened System Settings > Privacy & Security > Files and Folders."@,
        )
    } else {
        (
            false,
            "Downloads access is denied. Open System Settings > Privacy & Security > Files and Folders and enable Downloads for Rewinder (and Terminal in dev mode)."@,
        )
    }
}

pub fn output_dir_grant_outcome(
    probe_writable: bool,
    probe_error: Option<&str>,
    output_dir: &str,
    opened_settings: bool,
    writable_after: bool,
) -> (r: (bool, String))
    ensures
        (r.0, r.1@) == spec_output_dir_grant_outcome(
            probe_writable,
            match probe_error {
                Some(e) => Some(e@),
                None => None,
            },
            output_dir@,
            opened_settings,
            writable_after,
        ),
{
    if writable_after {
        return (false, "Access granted, capture resumed.".to_string());
    }
    if probe_writable {
        let mut v: Vec<char> = Vec::new();
        append_str(&mut v, "Downloads access confirmed for ");
        append_str(&mut v, output_dir);
        append_str(&mut v, ".");
        return (false, chars_to_string(&v));
    }
    if opened_settings {
        (
            true,
            "Downloads access is still denied. Opened System Settings > Privacy & Security > Files and Folders.".to_string(),
        )
    } else {
        (
            false,
            "Downloads access is denied. Open System Settings > Privacy & Security > Files and Folders and enable Downloads for Rewinder (and Terminal in dev mode).".to_string(),
        )
    }
}

/// The screen-recording assistant's answer, as for the output folder.
pub open spec fn spec_screen_grant_outcome(granted: bool, opened_settings: bool, granted_after: bool) -> (
    bool,
    Seq<char>,
) {
    if granted_after {
        (false, "Screen Recording access granted, capture resumed."@)
    } else if granted {
        (false, "Screen Recording access confirmed. Recovering capture."@)
    } else if opened_settings {
        (
            true,
            "Screen Recording access is still not granted. Opened System Settings > Privacy & Security > Screen Recording."@,
        )
    } else {
        (
            false,
            "Screen Recording access is denied. Open System Settings > Privacy & Security > Screen Recording and enable Rewinder (and Terminal in dev mode)."@,
        )
    }
}

pub fn screen_grant_outcome(granted: bool, opened_settings: bool, granted_after: bool) -> (r: (
    bool,
    String,
))
    ensures
        (r.0, r.1@) == spec_screen_grant_outcome(granted, opened_settings, granted_after),
{
    if granted_after {
        (false, "Screen Recording access granted, capture resumed.".to_string())
    } else if granted {
        (false, "Screen Recording access confirmed. Recovering capture.".to_string())
    } else if opened_settings {
        (
            true,
            "Screen Recording access is still not granted. Opened System Settings > Privacy & Security > Screen Recording.".to_string(),
        )
    } else {
        (
            false,
            "Screen Recording access is denied. Open System Settings > Privacy & Security > Screen Recording and enable Rewinder (and Terminal in dev mode).".to_string(),
        )
    }
}

/// What the microphone probe says by its status.
pub open spec fn spec_mic_status_message(status: MicrophonePermissionStatus, error: Option<Seq<char>>) -> Seq<
    char,
> {
    match status {
        MicrophonePermissionStatus::Granted =>
            "Microphone access confirmed. Recovering microphone capture."@,
        MicrophonePermissionStatus::Denied => "Microphone access is denied for Rewinder."@,
        MicrophonePermissionStatus::Restricted =>
            "Microphone access is restricted by system policy."@,
        MicrophonePermissionStatus::NotDetermined =>
            "Microphone access is pending. Approve permission when prompted."@,
        MicrophonePermissionStatus::Unknown => match error {
            Some(e) => e,
            None => "Microphone permission state could not be determined."@,
        },
    }
}

/// The microphone assistant's answer: granted in the end wins; otherwise
/// opened System Settings, or advice for a denial when the user asked for
/// the settings; otherwise what the probe said.
pub open spec fn spec_mic_grant_outcome(
    status: MicrophonePermissionStatus,
    error: Option<Seq<char>>,
    open_settings_if_denied: bool,
    opened_settings: bool,
    granted_after: bool,
) -> (bool, Seq<char>) {
    if granted_after {
        (false, "Microphone access granted, capture resumed."@)
    } else if status != MicrophonePermissionStatus::Granted && open_settings_if_denied
        && opened_settings {
        (
            true,
            "Microphone access is still not granted. Opened System Settings > Privacy & Security > Microphone."@,
        )
    } else if status != MicrophonePermissionStatus::Granted && open_settings_if_denied && (status
        == MicrophonePermissionStatus::Denied || status == MicrophonePermissionStatus::Restricted) {
        (
            false,
            "Microphone access is denied. Open System Settings > Privacy & Security > Microphone and enable Rewinder (and Terminal in dev mode)."@,
        )
    } else {
        (false, spec_mic_status_message(status, error))
    }
}

pub fn mic_grant_outcome(
    probe: &MicrophonePermissionProbe,
    open_settings_if_denied: bool,
    opened_settings: bool,
    granted_after: bool,
) -> (r: (bool, String))
    ensures
        (r.0, r.1@) == spec_mic_grant_outcome(
            probe.status,
            opt_string(probe.error),
            open_settings_if_denied,
            opened_settings,
            granted_after,
        ),
{
    if granted_after {
        return (false, "Microphone access granted, capture resumed.".to_string());
    }
    let not_granted = probe.status != MicrophonePermissionStatus::Granted;
    if not_granted && open_settings_if_denied && opened_settings {
        return (
            true,
            "Microphone access is still not granted. Opened System Settings > Privacy & Security > Microphone.".to_string(),
        );
    }
    if not_granted && open_settings_if_denied && (probe.status == MicrophonePermissionStatus::Denied
        || probe.status == MicrophonePermissionStatus::Restricted) {
        return (
            false,
            "Microphone access is denied. Open System Settings > Privacy & Security > Microphone and enable Rewinder (and Terminal in dev mode).".to_string(),
        );
    }
    let message = match probe.status {
        MicrophonePermissionStatus::Granted => "Microphone access confirmed. Recovering microphone capture.".to_string(),
        MicrophonePermissionStatus::Denied => "Microphone access is denied for Rewinder.".to_string(),
        MicrophonePermissionStatus::Restricted => "Microphone access is restricted by system policy.".to_string(),
        MicrophonePermissionStatus::NotDetermined => "Microphone access is pending. Approve permission when prompted.".to_string(),
        MicrophonePermissionStatus::Unknown => match &probe.error {
            Some(e) => e.clone(),
            None => "Microphone permission state could not be determined.".to_string(),
        },
    };
    (false, message)
}

impl ClipperState {
    /// The engine starts up: the lifecycle follows the permissions and the
    /// replay switch, capture is starting (stopped with replay off) and
    /// audio degraded until it comes up (unavailable with replay off); the
    /// readings are cleared and the microphone probe recorded.
    #[verifier::rlimit(60)]
    pub fn mark_initialized(&mut self, probe: &MicrophonePermissionProbe)
        ensures
            final(self).lifecycle_state == spec_boot_state(
                old(self).permission,
                old(self).settings.replay_enabled,
            ),
            final(self).capture_health == if old(self).settings.replay_enabled {
                CaptureHealthDto::Starting
            } else {
                CaptureHealthDto::Stopped
            },
            final(self).audio_health == if old(self).settings.replay_enabled {
                AudioHealthDto::Degraded
            } else {
                AudioHealthDto::Unavailable
            },
            !final(self).system_audio_path_ready,
            !final(self).mic_path_ready,
            !final(self).mic_frames_seen,
            !final(self).mic_capture_session_running,
            final(self).mic_samples_per_sec is None,
            final(self).mic_attach_state == MicAttachStateDto::Inactive,
            final(self).mic_recovery_state@ == "ok"@,
            final(self).selected_microphone_name is None,
            final(self).last_mic_error_code is None,
            final(self).last_mic_error_message is None,
            final(self).concurrent_session_count is None,
            final(self).capture_owner_pid is None,
            !final(self).audio_path_ready,
            !final(self).first_audio_frame_seen,
            final(self).save_stage == SaveStageDto::Idle,
            final(self).video_smooth_state == VideoSmoothStateDto::Idle,
            !final(self).capture_crash_loop,
            final(self).mic_permission_status@ == permission_status_text(probe.status),
            final(self).mic_permission_error == probe.error,
            final(self).settings == old(self).settings,
            final(self).permission == old(self).permission,
            final(self).last_error == old(self).last_error,
            *final(self) == (ClipperState {
                audio_health: final(self).audio_health,
                audio_path_ready: final(self).audio_path_ready,
                capture_crash_loop: final(self).capture_crash_loop,
                capture_health: final(self).capture_health,
                capture_owner_pid: final(self).capture_owner_pid,
                concurrent_session_count: final(self).concurrent_session_count,
                first_audio_frame_seen: final(self).first_audio_frame_seen,
                last_mic_error_code: final(self).last_mic_error_code,
                last_mic_error_message: final(self).last_mic_error_message,
                lifecycle_state: final(self).lifecycle_state,
                mic_attach_state: final(self).mic_attach_state,
                mic_capture_session_running: final(self).mic_capture_session_running,
                mic_frames_seen: final(self).mic_frames_seen,
                mic_path_ready: final(self).mic_path_ready,
                mic_permission_error: final(self).mic_permission_error,
                mic_permission_status: final(self).mic_permission_status,
                mic_recovery_state: final(self).mic_recovery_state,
                mic_samples_per_sec: final(self).mic_samples_per_sec,
                save_stage: final(self).save_stage,
                selected_microphone_name: final(self).selected_microphone_name,
                system_audio_path_ready: final(self).system_audio_path_ready,
                video_smooth_state: final(self).video_smooth_state,
                ..*old(self)
            }),
    {
        let replay_enabled = self.settings.replay_enabled;
        self.lifecycle_state = boot_state(&self.permission, replay_enabled);
        self.capture_health = if replay_enabled {
            CaptureHealthDto::Starting
        } else {
            CaptureHealthDto::Stopped
        };
        self.audio_health = if replay_enabled {
            AudioHealthDto::Degraded
        } else {
            AudioHealthDto::Unavailable
        };
        self.system_audio_path_ready = false;
        self.mic_path_ready = false;
        self.mic_frames_seen = false;
        self.mic_capture_session_running = false;
        self.mic_samples_per_sec = None;
        self.mic_attach_state = MicAttachStateDto::Inactive;
        self.mic_recovery_state = "ok".to_string();
        self.selected_microphone_name = None;
        self.last_mic_error_code = None;
        self.last_mic_error_message = None;
        self.concurrent_session_count = None;
        self.capture_owner_pid = None;
        self.audio_path_ready = false;
        self.first_audio_frame_seen = false;
        self.save_stage = SaveStageDto::Idle;
        self.video_smooth_state = VideoSmoothStateDto::Idle;
        self.capture_crash_loop = false;
        self.mic_permission_status = probe.status.as_str().to_string();
        self.mic_permission_error = probe.error.clone();
    }
}

} // verus!
