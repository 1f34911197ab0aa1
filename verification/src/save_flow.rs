//! The course of one save: the engine state while it is written, after it
//! is written or fails, and when it ends; what the user is told; and the
//! handling of a save waiting in the queue.
use vstd::prelude::*;
use crate::text::{
    append_str, chars_to_string, contains, contains_str, decimal, lower, lower_chars, opt_str,
    opt_string, push_decimal, str_chars, str_eq,
};
use crate::engine_policy::{spec_trigger_source_label, trigger_source_label, SaveBlocker};
use crate::log_tail::{log_lines, log_lines_of, last_lines};
use crate::save_queue::{
    pending_save_ttl_ms, queued_save_message, spec_enqueue, spec_queued_save_message,
    PendingSaveEnqueueOutcome, PendingSaveReason, PendingSaveRequest, PendingSaveSlot,
    AUDIO_WARMUP_MIN_DEFER_TTL_MS,
};
use crate::seqs::{join, join_strings, last_n};
use crate::state::{
    idle_state, spec_boot_state, AudioHealthDto, CaptureHealthDto, ClipperState, LifecycleState,
    SaveStageDto, TriggerSourceDto, VideoSmoothStateDto,
};

verus! {

impl ClipperState {
    /// A save starts: the engine is saving, capture counts as running and
    /// the replay as ready, no error is shown.
    pub fn mark_save_started(&mut self)
        ensures
            final(self).is_saving,
            final(self).lifecycle_state == LifecycleState::SavingReplay,
            final(self).capture_health == CaptureHealthDto::Running,
            final(self).last_error is None,
            final(self).save_ready,
            final(self).save_stage == SaveStageDto::SavingFast,
            *final(self) == (ClipperState {
                is_saving: final(self).is_saving,
                lifecycle_state: final(self).lifecycle_state,
                capture_health: final(self).capture_health,
                last_error: final(self).last_error,
                save_ready: final(self).save_ready,
                save_stage: final(self).save_stage,
                ..*old(self)
            }),
    {
        self.is_saving = true;
        self.lifecycle_state = LifecycleState::SavingReplay;
        self.capture_health = CaptureHealthDto::Running;
        self.last_error = None;
        self.save_ready = true;
        self.save_stage = SaveStageDto::SavingFast;
    }

    /// The clip was written: the save is ready, the continuity break of its
    /// window is recorded, and a repaired clip counts as smoothed.
    pub fn mark_save_written(&mut self, partial_reason_code: Option<String>, audio_repaired: bool)
        ensures
            final(self).last_error is None,
            final(self).last_contiguity_break_code == partial_reason_code,
            final(self).save_stage == SaveStageDto::Ready,
            final(self).video_smooth_state == if audio_repaired {
                VideoSmoothStateDto::Complete
            } else {
                VideoSmoothStateDto::Idle
            },
            *final(self) == (ClipperState {
                last_error: final(self).last_error,
                last_contiguity_break_code: final(self).last_contiguity_break_code,
                save_stage: final(self).save_stage,
                video_smooth_state: final(self).video_smooth_state,
                ..*old(self)
            }),
    {
        self.last_error = None;
        self.last_contiguity_break_code = partial_reason_code;
        self.save_stage = SaveStageDto::Ready;
        self.video_smooth_state = if audio_repaired {
            VideoSmoothStateDto::Complete
        } else {
            VideoSmoothStateDto::Idle
        };
    }

    /// Writing the clip failed: the error is shown and capture and audio
    /// count as degraded.
    pub fn mark_save_write_failed(&mut self, err: String, partial_reason_code: Option<String>)
        ensures
            opt_string(final(self).last_error) == Some(err@),
            final(self).last_contiguity_break_code == partial_reason_code,
            final(self).capture_health == CaptureHealthDto::Degraded,
            final(self).audio_health == AudioHealthDto::Degraded,
            final(self).save_stage == SaveStageDto::Idle,
            *final(self) == (ClipperState {
                last_error: final(self).last_error,
                last_contiguity_break_code: final(self).last_contiguity_break_code,
                capture_health: final(self).capture_health,
                audio_health: final(self).audio_health,
                save_stage: final(self).save_stage,
                ..*old(self)
            }),
    {
        self.last_error = Some(err);
        self.last_contiguity_break_code = partial_reason_code;
        self.capture_health = CaptureHealthDto::Degraded;
        self.audio_health = AudioHealthDto::Degraded;
        self.save_stage = SaveStageDto::Idle;
    }

    /// The save is over: the engine goes back to its idle lifecycle, a
    /// stage still showing the save becomes ready or idle by the outcome,
    /// and degraded capture counts as running again while a pipeline runs.
    pub fn mark_save_finished(&mut self, ok: bool, pipeline_present: bool)
        ensures
            !final(self).is_saving,
            final(self).lifecycle_state == spec_boot_state(
                old(self).permission,
                old(self).settings.replay_enabled,
            ),
            final(self).save_stage == if old(self).save_stage == SaveStageDto::SavingFast {
                if ok {
                    SaveStageDto::Ready
                } else {
                    SaveStageDto::Idle
                }
            } else {
                old(self).save_stage
            },
            final(self).capture_health == if old(self).capture_health == CaptureHealthDto::Degraded
                && pipeline_present {
                CaptureHealthDto::Running
            } else {
                old(self).capture_health
            },
            *final(self) == (ClipperState {
                is_saving: final(self).is_saving,
                lifecycle_state: final(self).lifecycle_state,
                save_stage: final(self).save_stage,
                capture_health: final(self).capture_health,
                ..*old(self)
            }),
    {
        self.is_saving = false;
        self.lifecycle_state = idle_state(&self.permission, self.settings.replay_enabled);
        if self.save_stage == SaveStageDto::SavingFast {
            self.save_stage = if ok {
                SaveStageDto::Ready
            } else {
                SaveStageDto::Idle
            };
        }
        if self.capture_health == CaptureHealthDto::Degraded && pipeline_present {
            self.capture_health = CaptureHealthDto::Running;
        }
    }

    /// Selecting the window of a queued save failed: the error is shown and
    /// capture and audio count as degraded.
    pub fn mark_pending_selection_failed(&mut self, err: String)
        ensures
            opt_string(final(self).last_error) == Some(err@),
            final(self).capture_health == CaptureHealthDto::Degraded,
            final(self).audio_health == AudioHealthDto::Degraded,
            final(self).save_stage == SaveStageDto::Idle,
            *final(self) == (ClipperState {
                last_error: final(self).last_error,
                capture_health: final(self).capture_health,
                audio_health: final(self).audio_health,
                save_stage: final(self).save_stage,
                ..*old(self)
            }),
    {
        self.last_error = Some(err);
        self.capture_health = CaptureHealthDto::Degraded;
        self.audio_health = AudioHealthDto::Degraded;
        self.save_stage = SaveStageDto::Idle;
    }
}

pub open spec fn default_partial_detail() -> Seq<char> {
    "insufficient contiguous history at trigger time"@
}

pub open spec fn detail_or_default(o: Option<Seq<char>>) -> Seq<char> {
    match o {
        Some(d) => d,
        None => default_partial_detail(),
    }
}

/// The message of a saved clip: the audio mode capture fell back to, and
/// the length of a partial replay with why it is partial; none when there
/// is nothing to say. `trim_secs` is the saved length as shown (one
/// decimal).
pub open spec fn spec_save_result_message(
    active_audio_mode: Seq<char>,
    requested_audio_mode: Seq<char>,
    partial_history: bool,
    trim_secs: Seq<char>,
    partial_reason: Option<Seq<char>>,
) -> Option<Seq<char>> {
    let m1: Seq<Seq<char>> = if active_audio_mode != requested_audio_mode {
        seq!["Capture is running in "@ + active_audio_mode + " mode."@]
    } else {
        Seq::empty()
    };
    let m2: Seq<Seq<char>> = if partial_history {
        seq![
            "Saved "@ + trim_secs + "s partial replay due to "@ + detail_or_default(partial_reason)
                + "."@,
        ]
    } else {
        Seq::empty()
    };
    let ms = m1 + m2;
    if ms.len() == 0 {
        None
    } else {
        Some(join(ms, " "@))
    }
}

pub fn save_result_message(
    active_audio_mode: &str,
    requested_audio_mode: &str,
    partial_history: bool,
    trim_secs: &str,
    partial_reason: Option<&str>,
) -> (r: Option<String>)
    ensures
        match spec_save_result_message(
            active_audio_mode@,
            requested_audio_mode@,
            partial_history,
            trim_secs@,
            opt_str(partial_reason),
        ) {
            Some(m) => r matches Some(s) && s@ == m,
            None => r is None,
        },
{
    let mut messages: Vec<String> = Vec::new();
    if !str_eq(active_audio_mode, requested_audio_mode) {
        let mut v: Vec<char> = Vec::new();
        append_str(&mut v, "Capture is running in ");
        append_str(&mut v, active_audio_mode);
        append_str(&mut v, " mode.");
        messages.push(chars_to_string(&v));
    }
    if partial_history {
        let mut v: Vec<char> = Vec::new();
        append_str(&mut v, "Saved ");
        append_str(&mut v, trim_secs);
        append_str(&mut v, "s partial replay due to ");
        match partial_reason {
            Some(d) => append_str(&mut v, d),
            None => append_str(&mut v, "insufficient contiguous history at trigger time"),
        }
        append_str(&mut v, ".");
        messages.push(chars_to_string(&v));
    }
    let ghost expected = spec_save_result_message(
        active_audio_mode@,
        requested_audio_mode@,
        partial_history,
        trim_secs@,
        opt_str(partial_reason),
    );
    proof {
        let m1: Seq<Seq<char>> = if active_audio_mode@ != requested_audio_mode@ {
            seq!["Capture is running in "@ + active_audio_mode@ + " mode."@]
        } else {
            Seq::empty()
        };
        let m2: Seq<Seq<char>> = if partial_history {
            seq![
                "Saved "@ + trim_secs@ + "s partial replay due to "@ + detail_or_default(
                    opt_str(partial_reason),
                ) + "."@,
            ]
        } else {
            Seq::empty()
        };
        assert(crate::text::texts(messages@) =~= m1 + m2);
    }
    if messages.len() == 0 {
        None
    } else {
        Some(join_strings(&messages, " "))
    }
}

/// The warning of a partial save: its message and the action text.
pub open spec fn spec_partial_history_warning(
    trim_secs: Seq<char>,
    requested_replay_secs: u16,
    partial_reason: Option<Seq<char>>,
    partial_reason_code: Option<Seq<char>>,
) -> (Seq<char>, Seq<char>) {
    (
        "Saved latest "@ + trim_secs + "s (requested "@ + decimal(requested_replay_secs as nat)
            + "s, partial due to "@ + detail_or_default(partial_reason) + ")."@,
        "reason_code="@ + match partial_reason_code {
            Some(c) => c,
            None => "insufficient_contiguous_history"@,
        } + "; capture timeline was not fully contiguous near trigger time."@,
    )
}

pub fn partial_history_warning(
    trim_secs: &str,
    requested_replay_secs: u16,
    partial_reason: Option<&str>,
    partial_reason_code: Option<&str>,
) -> (r: (String, String))
    ensures
        (r.0@, r.1@) == spec_partial_history_warning(
            trim_secs@,
            requested_replay_secs,
            opt_str(partial_reason),
            opt_str(partial_reason_code),
        ),
{
    let mut m: Vec<char> = Vec::new();
    append_str(&mut m, "Saved latest ");
    append_str(&mut m, trim_secs);
    append_str(&mut m, "s (requested ");
    push_decimal(&mut m, requested_replay_secs as u64);
    append_str(&mut m, "s, partial due to ");
    match partial_reason {
        Some(d) => append_str(&mut m, d),
        None => append_str(&mut m, "insufficient contiguous history at trigger time"),
    }
    append_str(&mut m, ").");
    let mut a: Vec<char> = Vec::new();
    append_str(&mut a, "reason_code=");
    match partial_reason_code {
        Some(c) => append_str(&mut a, c),
        None => append_str(&mut a, "insufficient_contiguous_history"),
    }
    append_str(&mut a, "; capture timeline was not fully contiguous near trigger time.");
    let ghost e = spec_partial_history_warning(
        trim_secs@,
        requested_replay_secs,
        opt_str(partial_reason),
        opt_str(partial_reason_code),
    );
    assert(m@ =~= e.0);
    assert(a@ =~= e.1);
    (chars_to_string(&m), chars_to_string(&a))
}

/// A failure message that points at the capture pipeline.
pub open spec fn likely_capture_failure(e: Seq<char>) -> bool {
    let l = lower(e);
    contains(l, "capture recovery retry failed"@) || contains(l, "failed to start capture"@)
        || contains(l, "capture strategy"@) || contains(l, "capture_start_timeout"@)
}

/// Why no save can be made while capture is unavailable: a missing
/// required system-audio path first; else a capture failure, with where its
/// log is and its last six lines. `log_content` is the capture log's text,
/// none when it could not be read.
pub open spec fn spec_capture_unavailable_message(
    last_error: Option<Seq<char>>,
    last_audio_mode_error: Option<Seq<char>>,
    audio_fallback_policy: Seq<char>,
    requested_audio_mode: Seq<char>,
    log_path: Seq<char>,
    log_content: Option<Seq<char>>,
) -> Option<Seq<char>> {
    if audio_fallback_policy == "system_only_fallback"@ && requested_audio_mode != "video_only"@
        && last_audio_mode_error is Some {
        Some("Required system-audio path unavailable: "@ + last_audio_mode_error->0)
    } else {
        match last_error {
            None => None,
            Some(e) => if !likely_capture_failure(e) {
                None
            } else {
                let tail = match log_content {
                    Some(c) => if log_lines_of(c).len() > 0 {
                        join(last_n(log_lines_of(c), 6), " | "@)
                    } else {
                        "no ffmpeg capture log tail available"@
                    },
                    None => "no ffmpeg capture log tail available"@,
                };
                Some(
                    "Capture pipeline is unavailable ("@ + e
                        + "). Check Screen Recording permission and source availability. log: "@
                        + log_path + " | tail: "@ + tail,
                )
            },
        }
    }
}

fn failure_points_at_capture(e: &str) -> (r: bool)
    ensures
        r == likely_capture_failure(e@),
{
    let l = lower_chars(&str_chars(e));
    contains_str(&l, "capture recovery retry failed") || contains_str(&l, "failed to start capture")
        || contains_str(&l, "capture strategy") || contains_str(&l, "capture_start_timeout")
}

pub fn capture_unavailable_message(
    last_error: Option<&str>,
    last_audio_mode_error: Option<&str>,
    audio_fallback_policy: &str,
    requested_audio_mode: &str,
    log_path: &str,
    log_content: Option<&str>,
) -> (r: Option<String>)
    ensures
        match spec_capture_unavailable_message(
            opt_str(last_error),
            opt_str(last_audio_mode_error),
            audio_fallback_policy@,
            requested_audio_mode@,
            log_path@,
            opt_str(log_content),
        ) {
            Some(m) => r matches Some(s) && s@ == m,
            None => r is None,
        },
{
    if str_eq(audio_fallback_policy, "system_only_fallback") && !str_eq(
        requested_audio_mode,
        "video_only",
    ) {
        if let Some(audio_err) = last_audio_mode_error {
            let mut v: Vec<char> = Vec::new();
            append_str(&mut v, "Required system-audio path unavailable: ");
            append_str(&mut v, audio_err);
            return Some(chars_to_string(&v));
        }
    }
    let e = match last_error {
        Some(e) => e,
        None => return None,
    };
    if !failure_points_at_capture(e) {
        return None;
    }
    let tail: String = match log_content {
        Some(c) => {
            let ls = log_lines(c);
            if ls.len() > 0 {
                join_strings(&last_lines(&ls, 6), " | ")
            } else {
                "no ffmpeg capture log tail available".to_string()
            }
        },
        None => "no ffmpeg capture log tail available".to_string(),
    };
    let mut v: Vec<char> = Vec::new();
    append_str(&mut v, "Capture pipeline is unavailable (");
    append_str(&mut v, e);
    append_str(
        &mut v,
        "). Check Screen Recording permission and source availability. log: ",
    );
    append_str(&mut v, log_path);
    append_str(&mut v, " | tail: ");
    append_str(&mut v, tail.as_str());
    Some(chars_to_string(&v))
}

/// What the replay buffer says while it warms up.
pub open spec fn spec_warmup_reason(segment_ms: u16) -> Seq<char> {
    "Replay buffer warming up ("@ + decimal(segment_ms as nat) + "ms segments)."@
}

pub fn warmup_reason(segment_ms: u16) -> (r: String)
    ensures
        r@ == spec_warmup_reason(segment_ms),
{
    let mut v: Vec<char> = Vec::new();
    append_str(&mut v, "Replay buffer warming up (");
    push_decimal(&mut v, segment_ms as u64);
    append_str(&mut v, "ms segments).");
    assert(v@ =~= spec_warmup_reason(segment_ms));
    chars_to_string(&v)
}

/// The message of a save waiting for warm-up: the buffer's reason while a
/// pipeline runs (its segment length given), a general one without.
pub fn current_warmup_message(pipeline_segment_ms: Option<u16>) -> (r: String)
    ensures
        r@ == match pipeline_segment_ms {
            Some(ms) => spec_warmup_reason(ms) + " Will save automatically."@,
            None => "Replay warming up, will save automatically."@,
        },
{
    match pipeline_segment_ms {
        Some(ms) => {
            let mut v = str_chars(warmup_reason(ms).as_str());
            append_str(&mut v, " Will save automatically.");
            chars_to_string(&v)
        },
        None => "Replay warming up, will save automatically.".to_string(),
    }
}

/// What became of the queued save on a tick.
#[derive(Debug, Clone, Copy, PartialEq, Eq, Structural)]
pub enum PendingSaveStep {
    /// Nothing waits.
    Empty,
    /// Its time ran out: it was dropped.
    Expired,
    /// A passing blocker holds it: it keeps waiting.
    StillBlocked,
    /// A lasting blocker came up: it was dropped.
    Dropped,
    /// Nothing blocks it: select its window and save.
    Ready,
}

/// The message of a queued save that timed out.
pub open spec fn spec_expired_pending_save_message(source: TriggerSourceDto) -> Seq<char> {
    "Replay warmup timed out for "@ + spec_trigger_source_label(source)
        + " trigger. Press save again when capture is active."@
}

pub fn expired_pending_save_message(source: &TriggerSourceDto) -> (r: String)
    ensures
        r@ == spec_expired_pending_save_message(*source),
{
    let mut v: Vec<char> = Vec::new();
    append_str(&mut v, "Replay warmup timed out for ");
    append_str(&mut v, trigger_source_label(source));
    append_str(&mut v, " trigger. Press save again when capture is active.");
    chars_to_string(&v)
}

impl PendingSaveSlot {
    /// One look at the queued save at `now_ms`, with the blocker of the
    /// moment: an expired save is dropped; a passing blocker keeps it
    /// waiting (shown as queued); a lasting one drops it; a dropped save
    /// leaves the stage idle unless a save runs.
    pub fn process_pending_step(
        &mut self,
        state: &mut ClipperState,
        now_ms: u64,
        blocker: &Option<SaveBlocker>,
    ) -> (r: PendingSaveStep)
        ensures
            match old(self).pending {
                None => r == PendingSaveStep::Empty,
                Some(p) => if now_ms >= p.expires_at_ms {
                    r == PendingSaveStep::Expired
                } else {
                    match blocker {
                        None => r == PendingSaveStep::Ready,
                        Some(b) => if b.retryable {
                            r == PendingSaveStep::StillBlocked
                        } else {
                            r == PendingSaveStep::Dropped
                        },
                    }
                },
            },
            r == PendingSaveStep::Expired || r == PendingSaveStep::Dropped ==> final(self).pending
                is None,
            !(r == PendingSaveStep::Expired || r == PendingSaveStep::Dropped) ==> final(self).pending
                == old(self).pending,
            final(state).save_stage == if r == PendingSaveStep::StillBlocked {
                SaveStageDto::Queued
            } else if (r == PendingSaveStep::Expired || r == PendingSaveStep::Dropped)
                && !old(state).is_saving {
                SaveStageDto::Idle
            } else {
                old(state).save_stage
            },
            *final(state) == (ClipperState { save_stage: final(state).save_stage, ..*old(state) }),
    {
        let p: PendingSaveRequest = match self.pending {
            None => return PendingSaveStep::Empty,
            Some(p) => p,
        };
        let step = if now_ms >= p.expires_at_ms {
            PendingSaveStep::Expired
        } else {
            match blocker {
                None => PendingSaveStep::Ready,
                Some(b) => if b.retryable {
                    PendingSaveStep::StillBlocked
                } else {
                    PendingSaveStep::Dropped
                },
            }
        };
        match step {
            PendingSaveStep::Expired | PendingSaveStep::Dropped => {
                self.pending = None;
                if !state.is_saving {
                    state.save_stage = SaveStageDto::Idle;
                }
            },
            PendingSaveStep::StillBlocked => {
                state.save_stage = SaveStageDto::Queued;
            },
            _ => {},
        }
        step
    }
}

/// The request that a save held back by a passing blocker waits as: the
/// audio warm-up waits at least the warm-up deferral, any other blocker the
/// default time; the replay length is the configured one, at least a
/// second.
pub open spec fn spec_retryable_request(
    state: ClipperState,
    source: TriggerSourceDto,
    blocker_code: Seq<char>,
    now_ms: u64,
    anchor_epoch_ms: i64,
    default_ttl_ms: u64,
) -> PendingSaveRequest {
    let warm = blocker_code == "audio_warming_up"@;
    let ttl = if warm && default_ttl_ms < AUDIO_WARMUP_MIN_DEFER_TTL_MS {
        AUDIO_WARMUP_MIN_DEFER_TTL_MS
    } else {
        default_ttl_ms
    };
    PendingSaveRequest {
        source,
        expires_at_ms: (now_ms + ttl) as u64,
        anchor_epoch_ms,
        reason: if warm {
            PendingSaveReason::AudioWarmup
        } else {
            PendingSaveReason::Retryable
        },
        requested_replay_secs: if state.settings.replay_duration_secs < 1 {
            1
        } else {
            state.settings.replay_duration_secs
        },
    }
}

/// Queues a save held back by a passing blocker (see
/// `spec_retryable_request`), shows the save stage as queued and returns
/// what the user is told with how the queue changed.
pub fn queue_retryable_save(
    slot: &mut PendingSaveSlot,
    state: &mut ClipperState,
    source: TriggerSourceDto,
    blocker: &SaveBlocker,
    now_ms: u64,
    anchor_epoch_ms: i64,
    default_ttl_ms: u64,
) -> (r: (String, PendingSaveEnqueueOutcome))
    requires
        now_ms as int + default_ttl_ms + AUDIO_WARMUP_MIN_DEFER_TTL_MS <= u64::MAX,
    ensures
        (final(slot).pending, r.1) == spec_enqueue(
            old(slot).pending,
            spec_retryable_request(
                *old(state),
                source,
                blocker.code@,
                now_ms,
                anchor_epoch_ms,
                default_ttl_ms,
            ),
        ),
        r.0@ == spec_queued_save_message(blocker.code@, blocker.message@, r.1),
        *final(state) == (ClipperState { save_stage: SaveStageDto::Queued, ..*old(state) }),
{
    let requested: u16 = if state.settings.replay_duration_secs < 1 {
        1
    } else {
        state.settings.replay_duration_secs
    };
    let ttl = pending_save_ttl_ms(blocker.code, default_ttl_ms);
    let reason = if str_eq(blocker.code, "audio_warming_up") {
        PendingSaveReason::AudioWarmup
    } else {
        PendingSaveReason::Retryable
    };
    let outcome = slot.enqueue_or_replace_pending_save_with_ttl(
        source,
        ttl,
        now_ms,
        anchor_epoch_ms,
        reason,
        requested,
    );
    let message = queued_save_message(blocker, outcome);
    state.save_stage = SaveStageDto::Queued;
    (message, outcome)
}

} // verus!
