//! The user's hold on capture: pausing it, the disarm after the user
//! stopped sharing, shutting down; and what blocks a save once that hold
//! and the system-audio timing are taken into account.
use vstd::prelude::*;
use crate::text::{append_str, chars_to_string, opt_string, str_eq};
use crate::engine_policy::{
    blocker_action, blocker_code, blocker_message, blocker_retryable, capture_warming,
    save_blocker, spec_requires_system_audio, spec_save_blocker_kind, SaveBlocker,
};
use crate::settings::SettingsDto;
use crate::state::{
    idle_state, spec_boot_state, AudioHealthDto, CaptureHealthDto, ClipperState, MicAttachStateDto,
    SaveStageDto, VideoSmoothStateDto,
};

verus! {

pub const SYSTEM_AUDIO_HARD_FAIL_AFTER_MS: u64 = 8_000;

pub const SYSTEM_AUDIO_STARTUP_GRACE_MS: u64 = 7_000;

pub const SYSTEM_AUDIO_DROPOUT_GRACE_MS: u64 = 2_500;

/// Whether the user paused capture (and why), and the message of a disarm
/// after the user stopped sharing.
pub struct CaptureHold {
    pub paused_by_user: bool,
    pub pause_reason: Option<String>,
    pub user_stop_disarmed_reason: Option<String>,
}

pub open spec fn default_pause_message() -> Seq<char> {
    "Capture paused. Rewinder is not recording in the background."@
}

pub open spec fn default_disarm_message() -> Seq<char> {
    "Screen recording was interrupted. Click Restart Capture to resume."@
}

impl CaptureHold {
    pub fn new() -> (r: Self)
        ensures
            !r.paused_by_user,
            r.pause_reason is None,
            r.user_stop_disarmed_reason is None,
    {
        CaptureHold { paused_by_user: false, pause_reason: None, user_stop_disarmed_reason: None }
    }

    /// Pauses or resumes capture: any disarm is cleared and the reason kept.
    pub fn set_paused(&mut self, paused: bool, reason: Option<String>)
        ensures
            final(self).paused_by_user == paused,
            final(self).pause_reason == reason,
            final(self).user_stop_disarmed_reason is None,
    {
        self.user_stop_disarmed_reason = None;
        self.paused_by_user = paused;
        self.pause_reason = reason;
    }

    /// Disarms capture after the user stopped sharing: not paused, and the
    /// disarm message kept (a default one without a reason); returns it.
    pub fn disarm_for_user_stop(&mut self, reason: Option<String>) -> (r: String)
        ensures
            !final(self).paused_by_user,
            final(self).pause_reason is None,
            opt_string(final(self).user_stop_disarmed_reason) == Some(r@),
            r@ == match reason {
                Some(m) => m@,
                None => default_disarm_message(),
            },
    {
        let message = match reason {
            Some(m) => m,
            None => "Screen recording was interrupted. Click Restart Capture to resume.".to_string(),
        };
        self.paused_by_user = false;
        self.pause_reason = None;
        self.user_stop_disarmed_reason = Some(message.clone());
        message
    }

    /// Forgets every hold.
    pub fn clear(&mut self)
        ensures
            !final(self).paused_by_user,
            final(self).pause_reason is None,
            final(self).user_stop_disarmed_reason is None,
    {
        self.paused_by_user = false;
        self.pause_reason = None;
        self.user_stop_disarmed_reason = None;
    }
}

/// The readings of a stopped capture.
pub open spec fn capture_runtime_cleared(s: ClipperState) -> bool {
    &&& s.capture_health == CaptureHealthDto::Stopped
    &&& s.audio_health == AudioHealthDto::Unavailable
    &&& s.capture_load_state@ == "normal"@
    &&& !s.save_ready
    &&& !s.system_audio_path_ready
    &&& !s.mic_path_ready
    &&& !s.mic_frames_seen
    &&& !s.mic_capture_session_running
    &&& s.mic_samples_per_sec is None
    &&& s.mic_attach_state == MicAttachStateDto::Inactive
    &&& s.concurrent_session_count is None
    &&& s.capture_owner_pid is None
    &&& !s.audio_path_ready
    &&& !s.first_audio_frame_seen
    &&& s.save_stage == SaveStageDto::Idle
    &&& s.video_smooth_state == VideoSmoothStateDto::Idle
}

/// The guard and microphone readings of a stopped capture.
pub open spec fn guard_and_mic_cleared(s: ClipperState) -> bool {
    &&& s.guard_state@ == "idle"@
    &&& s.guard_primary_reason_code is None
    &&& s.guard_contributing_reason_codes@.len() == 0
    &&& s.guard_suppressed_reason_code is None
    &&& s.mic_recovery_state@ == "ok"@
    &&& !s.mic_signal_silent
    &&& s.selected_microphone_name is None
    &&& s.last_mic_error_code is None
    &&& s.last_mic_error_message is None
}

impl ClipperState {
    #[verifier::rlimit(30)]
    fn clear_capture_runtime(&mut self)
        ensures
            capture_runtime_cleared(*final(self)),
            final(self).settings == old(self).settings,
            final(self).permission == old(self).permission,
            final(self).lifecycle_state == old(self).lifecycle_state,
            final(self).last_error == old(self).last_error,
            final(self).capture_crash_loop == old(self).capture_crash_loop,
            final(self).degrade_reason == old(self).degrade_reason,
            final(self).audio_degrade_reason == old(self).audio_degrade_reason,
            final(self).guard_state == old(self).guard_state,
            final(self).guard_primary_reason_code == old(self).guard_primary_reason_code,
            final(self).guard_contributing_reason_codes == old(
                self,
            ).guard_contributing_reason_codes,
            final(self).guard_suppressed_reason_code == old(self).guard_suppressed_reason_code,
            final(self).mic_recovery_state == old(self).mic_recovery_state,
            final(self).mic_signal_silent == old(self).mic_signal_silent,
            final(self).selected_microphone_name == old(self).selected_microphone_name,
            final(self).last_mic_error_code == old(self).last_mic_error_code,
            final(self).last_mic_error_message == old(self).last_mic_error_message,
            final(self).is_saving == old(self).is_saving,
            *final(self) == (ClipperState {
                audio_health: final(self).audio_health,
                audio_path_ready: final(self).audio_path_ready,
                capture_health: final(self).capture_health,
                capture_load_state: final(self).capture_load_state,
                capture_owner_pid: final(self).capture_owner_pid,
                concurrent_session_count: final(self).concurrent_session_count,
                first_audio_frame_seen: final(self).first_audio_frame_seen,
                mic_attach_state: final(self).mic_attach_state,
                mic_capture_session_running: final(self).mic_capture_session_running,
                mic_frames_seen: final(self).mic_frames_seen,
                mic_path_ready: final(self).mic_path_ready,
                mic_samples_per_sec: final(self).mic_samples_per_sec,
                save_ready: final(self).save_ready,
                save_stage: final(self).save_stage,
                system_audio_path_ready: final(self).system_audio_path_ready,
                video_smooth_state: final(self).video_smooth_state,
                ..*old(self)
            }),
    {
        self.capture_health = CaptureHealthDto::Stopped;
        self.audio_health = AudioHealthDto::Unavailable;
        self.capture_load_state = "normal".to_string();
        self.save_ready = false;
        self.system_audio_path_ready = false;
        self.mic_path_ready = false;
        self.mic_frames_seen = false;
        self.mic_capture_session_running = false;
        self.mic_samples_per_sec = None;
        self.mic_attach_state = MicAttachStateDto::Inactive;
        self.concurrent_session_count = None;
        self.capture_owner_pid = None;
        self.audio_path_ready = false;
        self.first_audio_frame_seen = false;
        self.save_stage = SaveStageDto::Idle;
        self.video_smooth_state = VideoSmoothStateDto::Idle;
    }

    #[verifier::rlimit(30)]
    fn clear_guard_and_mic(&mut self)
        ensures
            guard_and_mic_cleared(*final(self)),
            capture_runtime_cleared(*old(self)) ==> capture_runtime_cleared(*final(self)),
            final(self).settings == old(self).settings,
            final(self).permission == old(self).permission,
            final(self).lifecycle_state == old(self).lifecycle_state,
            final(self).last_error == old(self).last_error,
            final(self).is_saving == old(self).is_saving,
            *final(self) == (ClipperState {
                guard_contributing_reason_codes: final(self).guard_contributing_reason_codes,
                guard_primary_reason_code: final(self).guard_primary_reason_code,
                guard_state: final(self).guard_state,
                guard_suppressed_reason_code: final(self).guard_suppressed_reason_code,
                last_mic_error_code: final(self).last_mic_error_code,
                last_mic_error_message: final(self).last_mic_error_message,
                mic_recovery_state: final(self).mic_recovery_state,
                mic_signal_silent: final(self).mic_signal_silent,
                selected_microphone_name: final(self).selected_microphone_name,
                ..*old(self)
            }),
    {
        self.guard_state = "idle".to_string();
        self.guard_primary_reason_code = None;
        self.guard_contributing_reason_codes = Vec::new();
        self.guard_suppressed_reason_code = None;
        self.mic_recovery_state = "ok".to_string();
        self.mic_signal_silent = false;
        self.selected_microphone_name = None;
        self.last_mic_error_code = None;
        self.last_mic_error_message = None;
    }

    /// The user paused capture: capture stops and its readings are cleared;
    /// the pause message (a default one without a reason) is shown.
    pub fn mark_paused_by_user(&mut self, reason: Option<String>) -> (r: String)
        ensures
            r@ == match reason {
                Some(m) => m@,
                None => default_pause_message(),
            },
            capture_runtime_cleared(*final(self)),
            guard_and_mic_cleared(*final(self)),
            opt_string(final(self).last_error) == Some(r@),
            opt_string(final(self).degrade_reason) == Some("Capture paused by user action."@),
            final(self).settings == old(self).settings,
            final(self).lifecycle_state == old(self).lifecycle_state,
            *final(self) == (ClipperState {
                audio_health: final(self).audio_health,
                audio_path_ready: final(self).audio_path_ready,
                capture_health: final(self).capture_health,
                capture_load_state: final(self).capture_load_state,
                capture_owner_pid: final(self).capture_owner_pid,
                concurrent_session_count: final(self).concurrent_session_count,
                degrade_reason: final(self).degrade_reason,
                first_audio_frame_seen: final(self).first_audio_frame_seen,
                guard_contributing_reason_codes: final(self).guard_contributing_reason_codes,
                guard_primary_reason_code: final(self).guard_primary_reason_code,
                guard_state: final(self).guard_state,
                guard_suppressed_reason_code: final(self).guard_suppressed_reason_code,
                last_error: final(self).last_error,
                last_mic_error_code: final(self).last_mic_error_code,
                last_mic_error_message: final(self).last_mic_error_message,
                mic_attach_state: final(self).mic_attach_state,
                mic_capture_session_running: final(self).mic_capture_session_running,
                mic_frames_seen: final(self).mic_frames_seen,
                mic_path_ready: final(self).mic_path_ready,
                mic_recovery_state: final(self).mic_recovery_state,
                mic_samples_per_sec: final(self).mic_samples_per_sec,
                mic_signal_silent: final(self).mic_signal_silent,
                save_ready: final(self).save_ready,
                save_stage: final(self).save_stage,
                selected_microphone_name: final(self).selected_microphone_name,
                system_audio_path_ready: final(self).system_audio_path_ready,
                video_smooth_state: final(self).video_smooth_state,
                ..*old(self)
            }),
    {
        let message = match reason {
            Some(m) => m,
            None => "Capture paused. Rewinder is not recording in the background.".to_string(),
        };
        self.clear_capture_runtime();
        self.clear_guard_and_mic();
        self.last_error = Some(message.clone());
        self.degrade_reason = Some("Capture paused by user action.".to_string());
        message
    }

    /// The user stopped sharing: replay is switched off, the lifecycle is
    /// the idle one for it, capture stops and the disarm message is shown.
    pub fn mark_disarmed_for_user_stop(&mut self, message: String)
        ensures
            !final(self).settings.replay_enabled,
            final(self).lifecycle_state == spec_boot_state(old(self).permission, false),
            capture_runtime_cleared(*final(self)),
            guard_and_mic_cleared(*final(self)),
            opt_string(final(self).last_error) == Some(message@),
            opt_string(final(self).degrade_reason) == Some(
                "Capture stopped by user action from macOS controls."@,
            ),
            final(self).settings == (SettingsDto { replay_enabled: false, ..old(self).settings }),
            *final(self) == (ClipperState {
                audio_health: final(self).audio_health,
                audio_path_ready: final(self).audio_path_ready,
                capture_health: final(self).capture_health,
                capture_load_state: final(self).capture_load_state,
                capture_owner_pid: final(self).capture_owner_pid,
                concurrent_session_count: final(self).concurrent_session_count,
                degrade_reason: final(self).degrade_reason,
                first_audio_frame_seen: final(self).first_audio_frame_seen,
                guard_contributing_reason_codes: final(self).guard_contributing_reason_codes,
                guard_primary_reason_code: final(self).guard_primary_reason_code,
                guard_state: final(self).guard_state,
                guard_suppressed_reason_code: final(self).guard_suppressed_reason_code,
                last_error: final(self).last_error,
                last_mic_error_code: final(self).last_mic_error_code,
                last_mic_error_message: final(self).last_mic_error_message,
                lifecycle_state: final(self).lifecycle_state,
                mic_attach_state: final(self).mic_attach_state,
                mic_capture_session_running: final(self).mic_capture_session_running,
                mic_frames_seen: final(self).mic_frames_seen,
                mic_path_ready: final(self).mic_path_ready,
                mic_recovery_state: final(self).mic_recovery_state,
                mic_samples_per_sec: final(self).mic_samples_per_sec,
                mic_signal_silent: final(self).mic_signal_silent,
                save_ready: final(self).save_ready,
                save_stage: final(self).save_stage,
                selected_microphone_name: final(self).selected_microphone_name,
                settings: final(self).settings,
                system_audio_path_ready: final(self).system_audio_path_ready,
                video_smooth_state: final(self).video_smooth_state,
                ..*old(self)
            }),
    {
        self.settings.replay_enabled = false;
        self.lifecycle_state = idle_state(&self.permission, false);
        self.clear_capture_runtime();
        self.clear_guard_and_mic();
        self.last_error = Some(message);
        self.degrade_reason = Some(
            "Capture stopped by user action from macOS controls.".to_string(),
        );
    }

    /// The app exits: replay is switched off, capture stops and says why.
    pub fn mark_shutdown_for_app_exit(&mut self, reason: &str)
        ensures
            !final(self).settings.replay_enabled,
            final(self).lifecycle_state == spec_boot_state(old(self).permission, false),
            capture_runtime_cleared(*final(self)),
            !final(self).capture_crash_loop,
            opt_string(final(self).degrade_reason) == Some(
                "App shutdown requested ("@ + reason@ + ")."@,
            ),
            final(self).audio_degrade_reason is None,
            opt_string(final(self).last_error) == Some("App exiting ("@ + reason@ + ")."@),
            final(self).settings == (SettingsDto { replay_enabled: false, ..old(self).settings }),
            *final(self) == (ClipperState {
                audio_degrade_reason: final(self).audio_degrade_reason,
                audio_health: final(self).audio_health,
                audio_path_ready: final(self).audio_path_ready,
                capture_crash_loop: final(self).capture_crash_loop,
                capture_health: final(self).capture_health,
                capture_load_state: final(self).capture_load_state,
                capture_owner_pid: final(self).capture_owner_pid,
                concurrent_session_count: final(self).concurrent_session_count,
                degrade_reason: final(self).degrade_reason,
                first_audio_frame_seen: final(self).first_audio_frame_seen,
                last_error: final(self).last_error,
                lifecycle_state: final(self).lifecycle_state,
                mic_attach_state: final(self).mic_attach_state,
                mic_capture_session_running: final(self).mic_capture_session_running,
                mic_frames_seen: final(self).mic_frames_seen,
                mic_path_ready: final(self).mic_path_ready,
                mic_samples_per_sec: final(self).mic_samples_per_sec,
                save_ready: final(self).save_ready,
                save_stage: final(self).save_stage,
                settings: final(self).settings,
                system_audio_path_ready: final(self).system_audio_path_ready,
                video_smooth_state: final(self).video_smooth_state,
                ..*old(self)
            }),
    {
        self.settings.replay_enabled = false;
        self.lifecycle_state = idle_state(&self.permission, false);
        self.clear_capture_runtime();
        self.capture_crash_loop = false;
        let mut d: Vec<char> = Vec::new();
        append_str(&mut d, "App shutdown requested (");
        append_str(&mut d, reason);
        append_str(&mut d, ").");
        self.degrade_reason = Some(chars_to_string(&d));
        self.audio_degrade_reason = None;
        let mut e: Vec<char> = Vec::new();
        append_str(&mut e, "App exiting (");
        append_str(&mut e, reason);
        append_str(&mut e, ").");
        self.last_error = Some(chars_to_string(&e));
    }
}

/// A save blocker by its parts.
pub struct BlockerView {
    pub code: Seq<char>,
    pub message: Seq<char>,
    pub action: Option<Seq<char>>,
    pub retryable: bool,
}

pub open spec fn blocker_view(b: SaveBlocker) -> BlockerView {
    BlockerView { code: b.code@, message: b.message@, action: opt_string(b.action), retryable: b.retryable }
}

/// What blocks a save with the user's hold and the system-audio timing
/// taken into account: a pause first, then a disarm while replay is off,
/// then the state's own blocker, except that a missing system-audio path
/// counts as warming up (retried) until it has been missing for the
/// hard-fail time. `audio_not_ready_ms` is how long system audio has not
/// been ready, `recently_ready` whether it was ready within the dropout
/// grace.
pub open spec fn spec_save_blocker_with_runtime(
    st: ClipperState,
    paused_by_user: bool,
    pause_reason: Option<Seq<char>>,
    user_stop_disarmed_reason: Option<Seq<char>>,
    audio_not_ready_ms: u64,
    recently_ready: bool,
) -> Option<BlockerView> {
    if paused_by_user {
        Some(
            BlockerView {
                code: "capture_paused"@,
                message: match pause_reason {
                    Some(m) => m,
                    None =>
                        "Capture paused. Rewinder is not recording in the background. Click Resume Capture."@,
                },
                action: Some("Click Resume Capture to continue."@),
                retryable: false,
            },
        )
    } else if !st.settings.replay_enabled && user_stop_disarmed_reason is Some {
        Some(
            BlockerView {
                code: "user_stopped_sharing"@,
                message: user_stop_disarmed_reason->0,
                action: Some("Click Restart Capture to resume."@),
                retryable: false,
            },
        )
    } else {
        match spec_save_blocker_kind(st) {
            None => None,
            Some(k) => if blocker_code(k) != "system_audio_unavailable"@
                || !spec_requires_system_audio(st.settings) {
                Some(
                    BlockerView {
                        code: blocker_code(k),
                        message: blocker_message(k, st),
                        action: blocker_action(k),
                        retryable: blocker_retryable(k),
                    },
                )
            } else if audio_not_ready_ms >= SYSTEM_AUDIO_HARD_FAIL_AFTER_MS {
                Some(
                    BlockerView {
                        code: "system_audio_unavailable"@,
                        message: "System audio path unavailable for current source."@,
                        action: Some(
                            "Check source/output route, then retry. You can switch fallback to allow_video_only if needed."@,
                        ),
                        retryable: false,
                    },
                )
            } else {
                Some(
                    BlockerView {
                        code: "audio_warming_up"@,
                        message: if capture_warming(st.capture_health) && audio_not_ready_ms
                            < SYSTEM_AUDIO_STARTUP_GRACE_MS {
                            "System audio path is starting. Try again in a moment."@
                        } else if recently_ready {
                            "System audio path is reconnecting. Try again in a moment."@
                        } else {
                            "System audio path is recovering. Replay will auto-save when ready."@
                        },
                        action: None,
                        retryable: true,
                    },
                )
            },
        }
    }
}

pub fn save_blocker_with_runtime(
    state: &ClipperState,
    hold: &CaptureHold,
    audio_not_ready_ms: u64,
    recently_ready: bool,
) -> (r: Option<SaveBlocker>)
    ensures
        match spec_save_blocker_with_runtime(
            *state,
            hold.paused_by_user,
            opt_string(hold.pause_reason),
            opt_string(hold.user_stop_disarmed_reason),
            audio_not_ready_ms,
            recently_ready,
        ) {
            None => r is None,
            Some(b) => r matches Some(rb) && blocker_view(rb) == b,
        },
{
    if hold.paused_by_user {
        let message = match &hold.pause_reason {
            Some(m) => m.clone(),
            None => "Capture paused. Rewinder is not recording in the background. Click Resume Capture.".to_string(),
        };
        return Some(
            SaveBlocker {
                code: "capture_paused",
                message,
                action: Some("Click Resume Capture to continue.".to_string()),
                retryable: false,
            },
        );
    }
    if !state.settings.replay_enabled {
        if let Some(message) = &hold.user_stop_disarmed_reason {
            return Some(
                SaveBlocker {
                    code: "user_stopped_sharing",
                    message: message.clone(),
                    action: Some("Click Restart Capture to resume.".to_string()),
                    retryable: false,
                },
            );
        }
    }
    let blocker = match save_blocker(state) {
        None => return None,
        Some(b) => b,
    };
    let requires_audio = str_eq(state.settings.audio_fallback_policy.as_str(), "system_only_fallback")
        && !str_eq(state.settings.audio_mode.as_str(), "video_only");
    if !str_eq(blocker.code, "system_audio_unavailable") || !requires_audio {
        return Some(blocker);
    }
    if audio_not_ready_ms >= SYSTEM_AUDIO_HARD_FAIL_AFTER_MS {
        return Some(
            SaveBlocker {
                code: "system_audio_unavailable",
                message: "System audio path unavailable for current source.".to_string(),
                action: Some(
                    "Check source/output route, then retry. You can switch fallback to allow_video_only if needed.".to_string(),
                ),
                retryable: false,
            },
        );
    }
    let warming = state.capture_health == CaptureHealthDto::Starting || state.capture_health
        == CaptureHealthDto::Restarting || state.capture_health == CaptureHealthDto::Stopped;
    let message = if warming && audio_not_ready_ms < SYSTEM_AUDIO_STARTUP_GRACE_MS {
        "System audio path is starting. Try again in a moment.".to_string()
    } else if recently_ready {
        "System audio path is reconnecting. Try again in a moment.".to_string()
    } else {
        "System audio path is recovering. Replay will auto-save when ready.".to_string()
    };
    Some(SaveBlocker { code: "audio_warming_up", message, action: None, retryable: true })
}

/// A paused capture blocks every save, and such a save is not retried.
pub proof fn paused_capture_blocks_saves(
    st: ClipperState,
    pause_reason: Option<Seq<char>>,
    disarm: Option<Seq<char>>,
    audio_not_ready_ms: u64,
    recently_ready: bool,
)
    ensures
        spec_save_blocker_with_runtime(
            st,
            true,
            pause_reason,
            disarm,
            audio_not_ready_ms,
            recently_ready,
        ) matches Some(b) && b.code == "capture_paused"@ && !b.retryable,
{
}

} // verus!
