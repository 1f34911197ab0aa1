//! The recovery loop's decisions: what the engine state becomes when a
//! restart begins, succeeds or fails, how a failed restart is answered, and
//! how long the loop waits.
use vstd::prelude::*;
use crate::text::{contains, contains_str, opt_string, opt_string_eq, str_chars, str_eq, texts};
use crate::capture_errors::{is_transient_capture_error, spec_is_transient_capture_error};
use crate::guard::CaptureRestartReason;
use crate::state::{
    idle_state, spec_boot_state, AudioHealthDto, CaptureHealthDto, ClipperState, MicAttachStateDto,
    SaveStageDto,
};

verus! {

pub const RESTART_RETRY_DELAY_MAX_SECS: u64 = 15;

/// The backoff after a failed restart: doubled, at most 15 s.
pub fn next_retry_delay_secs(delay_secs: u64) -> (r: u64)
    ensures
        r == if delay_secs * 2 > RESTART_RETRY_DELAY_MAX_SECS {
            RESTART_RETRY_DELAY_MAX_SECS as int
        } else {
            delay_secs * 2
        },
{
    if delay_secs > RESTART_RETRY_DELAY_MAX_SECS / 2 {
        RESTART_RETRY_DELAY_MAX_SECS
    } else {
        delay_secs * 2
    }
}

/// The loop's wait: the base wait, at most half a second while a save is
/// pending and at most a quarter second while smoothing jobs wait.
pub fn recovery_sleep_ms(base_ms: u64, pending_save: bool, smooth_jobs_pending: bool) -> (r: u64)
    ensures
        r <= base_ms,
        pending_save ==> r <= 500,
        smooth_jobs_pending ==> r <= 250,
        r == if smooth_jobs_pending && base_ms > 250 {
            250
        } else if pending_save && base_ms > 500 {
            500
        } else {
            base_ms
        },
{
    let mut sleep = base_ms;
    if pending_save && sleep > 500 {
        sleep = 500;
    }
    if smooth_jobs_pending && sleep > 250 {
        sleep = 250;
    }
    sleep
}

/// A reason code of hard pressure: a step taken for it counts as a hard
/// transition.
pub open spec fn spec_is_hard_guard_reason_code(code: Seq<char>) -> bool {
    code == "thermal_critical"@ || code == "system_memory_pressure_critical"@ || code
        == "capture_stack_cpu_hard"@ || code == "capture_stack_rss_growth_hard"@
}

pub fn is_hard_guard_reason_code(code: Option<&str>) -> (r: bool)
    ensures
        r == match code {
            Some(c) => spec_is_hard_guard_reason_code(c@),
            None => false,
        },
{
    match code {
        Some(c) => str_eq(c, "thermal_critical") || str_eq(c, "system_memory_pressure_critical")
            || str_eq(c, "capture_stack_cpu_hard") || str_eq(c, "capture_stack_rss_growth_hard"),
        None => false,
    }
}

/// The guard state after a profile change: protecting after a step down or
/// while below the requested profile, monitoring once back on it.
pub fn guard_state_after_transition(reason: CaptureRestartReason, profile_index: usize) -> (r:
    &'static str)
    ensures
        r@ == if reason == CaptureRestartReason::Overloaded || profile_index > 0 {
            "protecting"@
        } else {
            "monitoring"@
        },
{
    if reason == CaptureRestartReason::Overloaded || profile_index > 0 {
        "protecting"
    } else {
        "monitoring"
    }
}

/// The guard action of a profile change.
pub fn guard_transition_action(reason: CaptureRestartReason) -> (r: &'static str)
    ensures
        r@ == if reason == CaptureRestartReason::Overloaded {
            "step_down"@
        } else {
            "step_up"@
        },
{
    if reason == CaptureRestartReason::Overloaded {
        "step_down"
    } else {
        "step_up"
    }
}

/// The microphone stalled while the mixed audio started.
pub open spec fn spec_is_mic_startup_stall(message: Seq<char>) -> bool {
    contains(message, "mic_pipe_startup_stalled"@) || contains(
        message,
        "mic_first_frame_startup_stalled"@,
    )
}

pub fn is_mic_startup_stall(message: &str) -> (r: bool)
    ensures
        r == spec_is_mic_startup_stall(message@),
{
    let m = str_chars(message);
    contains_str(&m, "mic_pipe_startup_stalled") || contains_str(&m, "mic_first_frame_startup_stalled")
}

/// Why the audio mode changed after a restart, from the last audio error.
pub fn audio_mode_change_reason(last_audio_mode_error: Option<&str>) -> (r: &'static str)
    ensures
        r@ == if (match last_audio_mode_error {
            Some(m) => spec_is_mic_startup_stall(m@),
            None => false,
        }) {
            "Microphone startup stalled; continuing with system audio only."@
        } else {
            "Capture auto-degraded for stability."@
        },
{
    let stalled = match last_audio_mode_error {
        Some(m) => is_mic_startup_stall(m),
        None => false,
    };
    if stalled {
        "Microphone startup stalled; continuing with system audio only."
    } else {
        "Capture auto-degraded for stability."
    }
}

/// An audio failure code: the capture failed because audio could not start.
pub open spec fn spec_is_audio_failure_code(code: Seq<char>) -> bool {
    code == "system_audio_unavailable"@ || code == "audio_start_timeout"@ || code
        == "mic_pipe_startup_stalled"@ || code == "mic_first_frame_startup_stalled"@ || code
        == "mic_start_timeout"@
}

pub fn is_audio_failure_code(code: &str) -> (r: bool)
    ensures
        r == spec_is_audio_failure_code(code@),
{
    str_eq(code, "system_audio_unavailable") || str_eq(code, "audio_start_timeout") || str_eq(
        code,
        "mic_pipe_startup_stalled",
    ) || str_eq(code, "mic_first_frame_startup_stalled") || str_eq(code, "mic_start_timeout")
}

/// How the loop answers a restart that failed with a classified error.
#[derive(Debug, Clone, Copy, PartialEq, Eq, Structural)]
pub enum RestartFailurePlan {
    /// The capture start was interrupted: retry with the interrupt backoff.
    RetryInterrupted,
    /// The user stopped sharing: disarm until the user restarts.
    DisarmUserStopped,
    /// Pause the capture, as the user would.
    PauseCapture,
    /// Another instance owns the capture: pause, naming the duplicate.
    PauseForOwnerConflict,
    /// The output folder may not be written: stop until access is granted.
    OutputDirPermission,
    /// Anything else: degrade and retry with backoff.
    Degraded,
}

pub open spec fn spec_restart_failure_plan(code: Seq<char>) -> RestartFailurePlan {
    if code == "capture_start_interrupted"@ {
        RestartFailurePlan::RetryInterrupted
    } else if code == "user_stopped_sharing"@ {
        RestartFailurePlan::DisarmUserStopped
    } else if code == "capture_paused"@ {
        RestartFailurePlan::PauseCapture
    } else if code == "capture_owner_exists"@ {
        RestartFailurePlan::PauseForOwnerConflict
    } else if code == "output_dir_permission_required"@ {
        RestartFailurePlan::OutputDirPermission
    } else {
        RestartFailurePlan::Degraded
    }
}

pub fn restart_failure_plan(code: &str) -> (r: RestartFailurePlan)
    ensures
        r == spec_restart_failure_plan(code@),
{
    if str_eq(code, "capture_start_interrupted") {
        RestartFailurePlan::RetryInterrupted
    } else if str_eq(code, "user_stopped_sharing") {
        RestartFailurePlan::DisarmUserStopped
    } else if str_eq(code, "capture_paused") {
        RestartFailurePlan::PauseCapture
    } else if str_eq(code, "capture_owner_exists") {
        RestartFailurePlan::PauseForOwnerConflict
    } else if str_eq(code, "output_dir_permission_required") {
        RestartFailurePlan::OutputDirPermission
    } else {
        RestartFailurePlan::Degraded
    }
}

/// The message shown when a paused capture is resumed by hand.
pub fn pause_message(plan: RestartFailurePlan) -> (r: Option<&'static str>)
    ensures
        plan == RestartFailurePlan::PauseCapture ==> (r matches Some(m) && m@
            == "Capture paused. Rewinder is not recording in the background. Click Resume Capture."@),
        plan == RestartFailurePlan::PauseForOwnerConflict ==> (r matches Some(m) && m@
            == "Another Rewinder instance is already capturing. Close duplicate launches, then click Resume Capture."@),
        plan != RestartFailurePlan::PauseCapture && plan != RestartFailurePlan::PauseForOwnerConflict
            ==> r is None,
{
    match plan {
        RestartFailurePlan::PauseCapture => Some(
            "Capture paused. Rewinder is not recording in the background. Click Resume Capture.",
        ),
        RestartFailurePlan::PauseForOwnerConflict => Some(
            "Another Rewinder instance is already capturing. Close duplicate launches, then click Resume Capture.",
        ),
        _ => None,
    }
}

/// The last error is one a successful restart clears: transient, or about
/// the missing pipeline.
pub open spec fn spec_restart_clears_error(e: Option<Seq<char>>) -> bool {
    match e {
        Some(m) => spec_is_transient_capture_error(m) || contains(m, "Capture pipeline missing"@),
        None => false,
    }
}

pub(crate) fn restart_clears_error(e: &Option<String>) -> (r: bool)
    ensures
        r == spec_restart_clears_error(opt_string(*e)),
{
    match e {
        Some(m) => {
            let mc = str_chars(m.as_str());
            is_transient_capture_error(m.as_str()) || contains_str(&mc, "Capture pipeline missing")
        },
        None => false,
    }
}

impl ClipperState {
    /// A restart begins: the capture restarts with the given status, one more
    /// restart is counted, and everything the running pipeline reported
    /// (readiness, microphone, owner, save stage) is cleared.
    #[verifier::rlimit(50)]
    pub fn mark_restarting(&mut self, status_message: String)
        ensures
            final(self).capture_health == CaptureHealthDto::Restarting,
            opt_string(final(self).last_error) == Some(status_message@),
            final(self).capture_restart_count == if old(self).capture_restart_count == u32::MAX {
                u32::MAX as int
            } else {
                old(self).capture_restart_count + 1
            },
            final(self).capture_load_state@ == "recovering"@,
            !final(self).save_ready,
            !final(self).system_audio_path_ready,
            !final(self).mic_path_ready,
            !final(self).mic_frames_seen,
            !final(self).mic_capture_session_running,
            final(self).mic_samples_per_sec is None,
            final(self).mic_attach_state == MicAttachStateDto::Inactive,
            !final(self).mic_signal_silent,
            final(self).concurrent_session_count is None,
            final(self).capture_owner_pid is None,
            !final(self).audio_path_ready,
            !final(self).first_audio_frame_seen,
            final(self).save_stage == SaveStageDto::Idle,
            *final(self) == (ClipperState {
                capture_health: final(self).capture_health,
                last_error: final(self).last_error,
                capture_restart_count: final(self).capture_restart_count,
                capture_load_state: final(self).capture_load_state,
                save_ready: final(self).save_ready,
                system_audio_path_ready: final(self).system_audio_path_ready,
                mic_path_ready: final(self).mic_path_ready,
                mic_frames_seen: final(self).mic_frames_seen,
                mic_capture_session_running: final(self).mic_capture_session_running,
                mic_samples_per_sec: final(self).mic_samples_per_sec,
                mic_attach_state: final(self).mic_attach_state,
                mic_signal_silent: final(self).mic_signal_silent,
                concurrent_session_count: final(self).concurrent_session_count,
                capture_owner_pid: final(self).capture_owner_pid,
                audio_path_ready: final(self).audio_path_ready,
                first_audio_frame_seen: final(self).first_audio_frame_seen,
                save_stage: final(self).save_stage,
                ..*old(self)
            }),
    {
        self.capture_health = CaptureHealthDto::Restarting;
        self.last_error = Some(status_message);
        self.capture_restart_count = if self.capture_restart_count == u32::MAX {
            u32::MAX
        } else {
            self.capture_restart_count + 1
        };
        self.capture_load_state = "recovering".to_string();
        self.save_ready = false;
        self.system_audio_path_ready = false;
        self.mic_path_ready = false;
        self.mic_frames_seen = false;
        self.mic_capture_session_running = false;
        self.mic_samples_per_sec = None;
        self.mic_attach_state = MicAttachStateDto::Inactive;
        self.mic_signal_silent = false;
        self.concurrent_session_count = None;
        self.capture_owner_pid = None;
        self.audio_path_ready = false;
        self.first_audio_frame_seen = false;
        self.save_stage = SaveStageDto::Idle;
    }

    /// Restarts loop: capture and audio are degraded and the crash loop is
    /// reported while restarts pause.
    pub fn mark_crash_loop(&mut self)
        ensures
            final(self).capture_crash_loop,
            final(self).capture_health == CaptureHealthDto::Degraded,
            final(self).audio_health == AudioHealthDto::Degraded,
            opt_string(final(self).last_error) == Some(
                "Capture is crash-looping; pausing restarts briefly."@,
            ),
            *final(self) == (ClipperState {
                capture_crash_loop: final(self).capture_crash_loop,
                capture_health: final(self).capture_health,
                audio_health: final(self).audio_health,
                last_error: final(self).last_error,
                ..*old(self)
            }),
    {
        self.capture_crash_loop = true;
        self.capture_health = CaptureHealthDto::Degraded;
        self.audio_health = AudioHealthDto::Degraded;
        self.last_error = Some("Capture is crash-looping; pausing restarts briefly.".to_string());
    }

    /// The restart succeeded: capture runs, audio is healthy until the next
    /// readiness check, and a transient or missing-pipeline error is cleared.
    pub fn mark_restart_succeeded(&mut self)
        ensures
            final(self).capture_health == CaptureHealthDto::Running,
            final(self).audio_health == AudioHealthDto::Healthy,
            !final(self).capture_crash_loop,
            final(self).capture_load_state@ == "normal"@,
            !final(self).save_ready,
            if spec_restart_clears_error(opt_string(old(self).last_error)) {
                final(self).last_error is None
            } else {
                final(self).last_error == old(self).last_error
            },
            *final(self) == (ClipperState {
                capture_health: final(self).capture_health,
                audio_health: final(self).audio_health,
                capture_crash_loop: final(self).capture_crash_loop,
                capture_load_state: final(self).capture_load_state,
                save_ready: final(self).save_ready,
                last_error: final(self).last_error,
                ..*old(self)
            }),
    {
        self.capture_health = CaptureHealthDto::Running;
        self.audio_health = AudioHealthDto::Healthy;
        self.capture_crash_loop = false;
        self.capture_load_state = "normal".to_string();
        self.save_ready = false;
        if restart_clears_error(&self.last_error) {
            self.last_error = None;
        }
    }

    /// The restart's start was interrupted: one more interruption, restarting
    /// with degraded audio.
    pub fn mark_restart_interrupted(&mut self, retry_message: String)
        ensures
            final(self).capture_interrupt_count == if old(self).capture_interrupt_count == u32::MAX {
                u32::MAX as int
            } else {
                old(self).capture_interrupt_count + 1
            },
            opt_string(final(self).last_error) == Some(retry_message@),
            final(self).capture_health == CaptureHealthDto::Restarting,
            final(self).audio_health == AudioHealthDto::Degraded,
            final(self).capture_load_state@ == "recovering"@,
            *final(self) == (ClipperState {
                capture_interrupt_count: final(self).capture_interrupt_count,
                last_error: final(self).last_error,
                capture_health: final(self).capture_health,
                audio_health: final(self).audio_health,
                capture_load_state: final(self).capture_load_state,
                ..*old(self)
            }),
    {
        self.capture_interrupt_count = if self.capture_interrupt_count == u32::MAX {
            u32::MAX
        } else {
            self.capture_interrupt_count + 1
        };
        self.last_error = Some(retry_message);
        self.capture_health = CaptureHealthDto::Restarting;
        self.audio_health = AudioHealthDto::Degraded;
        self.capture_load_state = "recovering".to_string();
    }

    /// The output folder may not be written: the folder is recorded as not
    /// writable with the error (the reason too, when screen recording is
    /// granted), and the engine idles with capture stopped.
    pub fn mark_output_dir_denied(&mut self, retry_message: String, err: String)
        ensures
            opt_string(final(self).last_error) == Some(retry_message@),
            !final(self).permission.output_dir_writable,
            opt_string(final(self).permission.output_dir_permission_error) == Some(err@),
            old(self).permission.screen_recording_granted ==> opt_string(final(self).permission.reason)
                == Some(err@),
            !old(self).permission.screen_recording_granted ==> final(self).permission.reason
                == old(self).permission.reason,
            final(self).permission.screen_recording_granted
                == old(self).permission.screen_recording_granted,
            final(self).permission.system_audio_granted
                == old(self).permission.system_audio_granted,
            final(self).lifecycle_state == spec_boot_state(
                final(self).permission,
                old(self).settings.replay_enabled,
            ),
            final(self).capture_health == CaptureHealthDto::Stopped,
            final(self).audio_health == AudioHealthDto::Unavailable,
            final(self).capture_load_state@ == "normal"@,
            *final(self) == (ClipperState {
                last_error: final(self).last_error,
                permission: final(self).permission,
                lifecycle_state: final(self).lifecycle_state,
                capture_health: final(self).capture_health,
                audio_health: final(self).audio_health,
                capture_load_state: final(self).capture_load_state,
                ..*old(self)
            }),
    {
        self.last_error = Some(retry_message);
        self.permission.output_dir_writable = false;
        self.permission.output_dir_permission_error = Some(err.clone());
        if self.permission.screen_recording_granted {
            self.permission.reason = Some(err);
        }
        self.lifecycle_state = idle_state(&self.permission, self.settings.replay_enabled);
        self.capture_health = CaptureHealthDto::Stopped;
        self.audio_health = AudioHealthDto::Unavailable;
        self.capture_load_state = "normal".to_string();
    }

    /// Any other failed restart: the engine idles with capture degraded and
    /// under stress; audio is unavailable (and the error kept as the audio
    /// error) when audio could not start, else degraded.
    pub fn mark_restart_failed(&mut self, code: &str, retry_message: String)
        ensures
            opt_string(final(self).last_error) == Some(retry_message@),
            final(self).lifecycle_state == spec_boot_state(
                old(self).permission,
                old(self).settings.replay_enabled,
            ),
            final(self).capture_health == CaptureHealthDto::Degraded,
            final(self).audio_health == if spec_is_audio_failure_code(code@) {
                AudioHealthDto::Unavailable
            } else {
                AudioHealthDto::Degraded
            },
            final(self).capture_load_state@ == "stressed"@,
            spec_is_audio_failure_code(code@) ==> opt_string(final(self).last_audio_mode_error) == Some(
                retry_message@,
            ),
            !spec_is_audio_failure_code(code@) ==> final(self).last_audio_mode_error == old(
                self,
            ).last_audio_mode_error,
            *final(self) == (ClipperState {
                last_error: final(self).last_error,
                lifecycle_state: final(self).lifecycle_state,
                capture_health: final(self).capture_health,
                audio_health: final(self).audio_health,
                capture_load_state: final(self).capture_load_state,
                last_audio_mode_error: final(self).last_audio_mode_error,
                ..*old(self)
            }),
    {
        let audio_failure = is_audio_failure_code(code);
        if audio_failure {
            self.last_audio_mode_error = Some(retry_message.clone());
        }
        self.last_error = Some(retry_message);
        self.lifecycle_state = idle_state(&self.permission, self.settings.replay_enabled);
        self.capture_health = CaptureHealthDto::Degraded;
        self.audio_health = if audio_failure {
            AudioHealthDto::Unavailable
        } else {
            AudioHealthDto::Degraded
        };
        self.capture_load_state = "stressed".to_string();
    }
}

fn same_texts(a: &Vec<String>, b: &Vec<String>) -> (r: bool)
    ensures
        r == (texts(a@) == texts(b@)),
{
    if a.len() != b.len() {
        assert(texts(a@).len() != texts(b@).len());
        return false;
    }
    let mut i: usize = 0;
    while i < a.len()
        invariant
            i <= a.len(),
            a.len() == b.len(),
            forall|k: int| 0 <= k < i ==> a@[k]@ == b@[k]@,
        decreases a.len() - i,
    {
        if !str_eq(a[i].as_str(), b[i].as_str()) {
            assert(texts(a@)[i as int] != texts(b@)[i as int]);
            return false;
        }
        i = i + 1;
    }
    assert(texts(a@) =~= texts(b@));
    true
}

/// The guard state and reasons shown are already these.
pub open spec fn spec_guard_transition_is_duplicate(
    st: ClipperState,
    guard_state: Seq<char>,
    primary: Option<Seq<char>>,
    contributing: Seq<Seq<char>>,
    suppressed: Option<Seq<char>>,
) -> bool {
    st.guard_state@ == guard_state && opt_string(st.guard_primary_reason_code) == primary && texts(
        st.guard_contributing_reason_codes@,
    ) == contributing && opt_string(st.guard_suppressed_reason_code) == suppressed
}

impl ClipperState {
    /// Records a guard transition sampled at `sampled_at_epoch_ms`, unless
    /// the state and reasons shown are already these; says whether it was
    /// recorded.
    pub fn record_guard_transition(
        &mut self,
        guard_state: &str,
        primary_reason_code: Option<String>,
        contributing_reason_codes: Vec<String>,
        suppressed_reason_code: Option<String>,
        sampled_at_epoch_ms: i64,
    ) -> (r: bool)
        ensures
            r == !spec_guard_transition_is_duplicate(
                *old(self),
                guard_state@,
                opt_string(primary_reason_code),
                texts(contributing_reason_codes@),
                opt_string(suppressed_reason_code),
            ),
            !r ==> *final(self) == *old(self),
            r ==> *final(self) == (ClipperState {
                guard_state: final(self).guard_state,
                guard_primary_reason_code: primary_reason_code,
                guard_contributing_reason_codes: contributing_reason_codes,
                guard_suppressed_reason_code: suppressed_reason_code,
                guard_last_transition_at_epoch_ms: Some(sampled_at_epoch_ms),
                ..*old(self)
            }) && final(self).guard_state@ == guard_state@,
    {
        let duplicate = str_eq(self.guard_state.as_str(), guard_state) && opt_string_eq(
            &self.guard_primary_reason_code,
            &primary_reason_code,
        ) && same_texts(&self.guard_contributing_reason_codes, &contributing_reason_codes)
            && opt_string_eq(&self.guard_suppressed_reason_code, &suppressed_reason_code);
        if duplicate {
            return false;
        }
        self.guard_state = guard_state.to_string();
        self.guard_primary_reason_code = primary_reason_code;
        self.guard_contributing_reason_codes = contributing_reason_codes;
        self.guard_suppressed_reason_code = suppressed_reason_code;
        self.guard_last_transition_at_epoch_ms = Some(sampled_at_epoch_ms);
        true
    }
}

/// How the profile moves with a restart.
#[derive(Debug, Clone, Copy, PartialEq, Eq, Structural)]
pub enum ProfileMove {
    Keep,
    /// Down this many steps (two under hard pressure).
    Down { steps: usize },
    /// One step back up.
    Up,
}

/// What the recovery loop does with a restart reason.
#[derive(Debug, Clone, Copy, PartialEq, Eq, Structural)]
pub enum RecoveryAction {
    /// Capture is paused by the user: stop the pipeline and wait.
    HoldPaused,
    /// The user stopped sharing: disarm, and start over the backoff.
    DisarmUserStop,
    /// Interrupted starts used up their retries: wait half the window.
    BackOffInterrupted,
    /// Restart, after `pre_delay_ms` when given, moving the profile.
    Restart { pre_delay_ms: Option<u64>, profile_move: ProfileMove },
}

/// The recovery loop's answer to a restart reason: a pause holds
/// everything; a user stop disarms; an interrupted start waits for its
/// granted retry (or backs off once the retries are used up); an overload
/// steps the profile down (two steps under hard pressure) and a recovery
/// steps it up.
pub open spec fn spec_recovery_action(
    reason: CaptureRestartReason,
    paused_by_user: bool,
    interrupt_retry: Option<(u8, u64)>,
    hard_stepdown: bool,
) -> RecoveryAction {
    if paused_by_user {
        RecoveryAction::HoldPaused
    } else if reason == CaptureRestartReason::UserStoppedSharing {
        RecoveryAction::DisarmUserStop
    } else if reason == CaptureRestartReason::CaptureStartInterrupted && interrupt_retry is None {
        RecoveryAction::BackOffInterrupted
    } else {
        RecoveryAction::Restart {
            pre_delay_ms: if reason == CaptureRestartReason::CaptureStartInterrupted {
                match interrupt_retry {
                    Some((_, delay)) => Some(delay),
                    None => None,
                }
            } else {
                None
            },
            profile_move: if reason == CaptureRestartReason::Overloaded {
                ProfileMove::Down {
                    steps: if hard_stepdown {
                        2
                    } else {
                        1
                    },
                }
            } else if reason == CaptureRestartReason::ProfileRecovered {
                ProfileMove::Up
            } else {
                ProfileMove::Keep
            },
        }
    }
}

/// `interrupt_retry` is the retry granted for an interrupted start (ask
/// for it only for that reason).
pub fn recovery_action(
    reason: CaptureRestartReason,
    paused_by_user: bool,
    interrupt_retry: Option<(u8, u64)>,
    hard_stepdown: bool,
) -> (r: RecoveryAction)
    ensures
        r == spec_recovery_action(reason, paused_by_user, interrupt_retry, hard_stepdown),
{
    if paused_by_user {
        return RecoveryAction::HoldPaused;
    }
    if reason == CaptureRestartReason::UserStoppedSharing {
        return RecoveryAction::DisarmUserStop;
    }
    let mut pre_delay_ms: Option<u64> = None;
    if reason == CaptureRestartReason::CaptureStartInterrupted {
        match interrupt_retry {
            None => return RecoveryAction::BackOffInterrupted,
            Some((_, delay)) => {
                pre_delay_ms = Some(delay);
            },
        }
    }
    let profile_move = if reason == CaptureRestartReason::Overloaded {
        ProfileMove::Down {
            steps: if hard_stepdown {
                2
            } else {
                1
            },
        }
    } else if reason == CaptureRestartReason::ProfileRecovered {
        ProfileMove::Up
    } else {
        ProfileMove::Keep
    };
    RecoveryAction::Restart { pre_delay_ms, profile_move }
}

/// A user stop never leads to a restart, and a paused capture never
/// restarts, whatever the reason.
pub proof fn recovery_never_restarts_after_user_stop_or_pause(
    reason: CaptureRestartReason,
    paused_by_user: bool,
    interrupt_retry: Option<(u8, u64)>,
    hard_stepdown: bool,
)
    ensures
        (paused_by_user || reason == CaptureRestartReason::UserStoppedSharing) ==> !(
        spec_recovery_action(reason, paused_by_user, interrupt_retry, hard_stepdown) is Restart),
{
}

/// What the user hears of the microphone after a restart of a mixed
/// capture with the microphone on: recovered when its path is up, degraded
/// (retrying or not) under the best-effort policy; nothing otherwise.
pub open spec fn spec_mic_restart_notice(
    audio_mode: Seq<char>,
    mic_enabled: bool,
    mic_path_ready: bool,
    mic_failure_policy: Seq<char>,
    mic_recovery_state: Seq<char>,
) -> Option<(bool, Seq<char>)> {
    if !(audio_mode == "system_plus_mic"@ && mic_enabled) {
        None
    } else if mic_path_ready {
        Some((true, "Microphone path recovered."@))
    } else if mic_failure_policy == "best_effort"@ {
        Some(
            (
                false,
                if mic_recovery_state == "retrying"@ {
                    "Microphone unavailable; continuing replay and retrying mic."@
                } else {
                    "Microphone unavailable; continuing with system audio."@
                },
            ),
        )
    } else {
        None
    }
}

pub fn mic_restart_notice(
    audio_mode: &str,
    mic_enabled: bool,
    mic_path_ready: bool,
    mic_failure_policy: &str,
    mic_recovery_state: &str,
) -> (r: Option<(bool, &'static str)>)
    ensures
        match spec_mic_restart_notice(
            audio_mode@,
            mic_enabled,
            mic_path_ready,
            mic_failure_policy@,
            mic_recovery_state@,
        ) {
            Some((ok, m)) => r matches Some((rok, rm)) && rok == ok && rm@ == m,
            None => r is None,
        },
{
    if !(str_eq(audio_mode, "system_plus_mic") && mic_enabled) {
        return None;
    }
    if mic_path_ready {
        return Some((true, "Microphone path recovered."));
    }
    if str_eq(mic_failure_policy, "best_effort") {
        if str_eq(mic_recovery_state, "retrying") {
            Some((false, "Microphone unavailable; continuing replay and retrying mic."))
        } else {
            Some((false, "Microphone unavailable; continuing with system audio."))
        }
    } else {
        None
    }
}

impl ClipperState {
    /// One more interrupted capture start is counted (at most `u32::MAX`).
    pub fn count_capture_interruption(&mut self)
        ensures
            final(self).capture_interrupt_count == if old(self).capture_interrupt_count == u32::MAX {
                u32::MAX as int
            } else {
                old(self).capture_interrupt_count + 1
            },
            *final(self) == (ClipperState {
                capture_interrupt_count: final(self).capture_interrupt_count,
                ..*old(self)
            }),
    {
        if self.capture_interrupt_count < u32::MAX {
            self.capture_interrupt_count = self.capture_interrupt_count + 1;
        }
    }
}

} // verus!
