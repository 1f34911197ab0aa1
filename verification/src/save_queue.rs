//! The single pending-save slot: a save that could not run now waits there
//! until capture is ready or its time runs out; a newer trigger replaces it.
use vstd::prelude::*;
use crate::text::{append_str, chars_to_string, opt_string, str_eq};
use crate::engine_policy::SaveBlocker;
use crate::state::{ClipperState, SaveStageDto, TriggerSourceDto};

verus! {

pub const SYSTEM_AUDIO_HARD_FAIL_AFTER_MS: u64 = 8_000;

pub const AUDIO_WARMUP_MIN_DEFER_TTL_MS: u64 = 9_500;

/// Why a save waits.
#[derive(Debug, Clone, Copy, PartialEq, Eq, Structural)]
pub enum PendingSaveReason {
    Retryable,
    AudioWarmup,
}

/// A save waiting for capture: who asked, until when it may wait
/// (monotonic milliseconds), the moment the replay ends at (epoch
/// milliseconds), why it waits and the replay length asked for.
#[derive(Debug, Clone, Copy, PartialEq, Eq, Structural)]
pub struct PendingSaveRequest {
    pub source: TriggerSourceDto,
    pub expires_at_ms: u64,
    pub anchor_epoch_ms: i64,
    pub reason: PendingSaveReason,
    pub requested_replay_secs: u16,
}

/// Whether a trigger took the empty slot or replaced the waiting save.
#[derive(Debug, Clone, Copy, PartialEq, Eq, Structural)]
pub enum PendingSaveEnqueueOutcome {
    QueuedNew,
    ReplacedExisting { previous_anchor_epoch_ms: i64 },
}

/// The pending-save slot: at most one save waits.
pub struct PendingSaveSlot {
    pub pending: Option<PendingSaveRequest>,
}

impl PendingSaveSlot {
    pub fn new() -> (r: Self)
        ensures
            r.pending is None,
    {
        PendingSaveSlot { pending: None }
    }

    /// Puts the trigger in the slot, replacing a waiting save: the slot then
    /// holds exactly this trigger, waiting `ttl_ms` from `now_ms`, and the
    /// outcome says whether a save was replaced and which moment it ended at.
    pub fn enqueue_or_replace_pending_save_with_ttl(
        &mut self,
        source: TriggerSourceDto,
        ttl_ms: u64,
        now_ms: u64,
        anchor_epoch_ms: i64,
        reason: PendingSaveReason,
        requested_replay_secs: u16,
    ) -> (r: PendingSaveEnqueueOutcome)
        requires
            now_ms + ttl_ms <= u64::MAX,
        ensures
            (final(self).pending, r) == spec_enqueue(
                old(self).pending,
                PendingSaveRequest {
                    source,
                    expires_at_ms: (now_ms + ttl_ms) as u64,
                    anchor_epoch_ms,
                    reason,
                    requested_replay_secs,
                },
            ),
    {
        let outcome = match self.pending {
            Some(p) => PendingSaveEnqueueOutcome::ReplacedExisting {
                previous_anchor_epoch_ms: p.anchor_epoch_ms,
            },
            None => PendingSaveEnqueueOutcome::QueuedNew,
        };
        self.pending = Some(
            PendingSaveRequest {
                source,
                expires_at_ms: now_ms + ttl_ms,
                anchor_epoch_ms,
                reason,
                requested_replay_secs,
            },
        );
        outcome
    }

    /// Drops the waiting save once its time is up and hands it back.
    pub fn clear_expired_pending_save(&mut self, now_ms: u64) -> (r: Option<PendingSaveRequest>)
        ensures
            match old(self).pending {
                Some(p) => if now_ms >= p.expires_at_ms {
                    r == Some(p) && final(self).pending is None
                } else {
                    r is None && final(self).pending == old(self).pending
                },
                None => r is None && final(self).pending is None,
            },
    {
        match self.pending {
            Some(p) => {
                if now_ms >= p.expires_at_ms {
                    self.pending = None;
                    Some(p)
                } else {
                    None
                }
            },
            None => None,
        }
    }

    /// Takes the waiting save out of the slot.
    pub fn take(&mut self) -> (r: Option<PendingSaveRequest>)
        ensures
            r == old(self).pending,
            final(self).pending is None,
    {
        let r = self.pending;
        self.pending = None;
        r
    }

    /// Milliseconds the waiting save may still wait (capped at `u32::MAX`),
    /// none when the slot is empty.
    pub fn pending_save_eta_ms(&self, now_ms: u64) -> (r: Option<u32>)
        ensures
            match self.pending {
                None => r is None,
                Some(p) => r == Some(
                    (if p.expires_at_ms <= now_ms {
                        0
                    } else if p.expires_at_ms - now_ms > u32::MAX {
                        u32::MAX as int
                    } else {
                        p.expires_at_ms - now_ms
                    }) as u32,
                ),
            },
    {
        match self.pending {
            None => None,
            Some(p) => {
                let remaining = if p.expires_at_ms <= now_ms {
                    0
                } else {
                    p.expires_at_ms - now_ms
                };
                Some(
                    if remaining > u32::MAX as u64 {
                        u32::MAX
                    } else {
                        remaining as u32
                    },
                )
            },
        }
    }
}

/// Putting a request in the slot: the slot then holds it, and the outcome
/// says what it replaced.
pub open spec fn spec_enqueue(pending: Option<PendingSaveRequest>, req: PendingSaveRequest) -> (
    Option<PendingSaveRequest>,
    PendingSaveEnqueueOutcome,
) {
    (
        Some(req),
        match pending {
            None => PendingSaveEnqueueOutcome::QueuedNew,
            Some(p) => PendingSaveEnqueueOutcome::ReplacedExisting {
                previous_anchor_epoch_ms: p.anchor_epoch_ms,
            },
        },
    )
}

/// However many triggers arrive, one save waits, the latest: a second
/// trigger replaces the first and reports the moment the first ended at.
pub proof fn pending_slot_keeps_latest_trigger(
    pending: Option<PendingSaveRequest>,
    first: PendingSaveRequest,
    second: PendingSaveRequest,
)
    ensures
        spec_enqueue(spec_enqueue(pending, first).0, second) == (
            Some(second),
            PendingSaveEnqueueOutcome::ReplacedExisting {
                previous_anchor_epoch_ms: first.anchor_epoch_ms,
            },
        ),
{
}

/// How long a queued save may wait: at least the audio warm-up deferral for
/// a save waiting on audio warm-up, the default otherwise.
pub fn pending_save_ttl_ms(blocker_code: &str, default_ttl_ms: u64) -> (r: u64)
    ensures
        r == if blocker_code@ == "audio_warming_up"@ && default_ttl_ms
            < AUDIO_WARMUP_MIN_DEFER_TTL_MS {
            AUDIO_WARMUP_MIN_DEFER_TTL_MS
        } else {
            default_ttl_ms
        },
{
    if str_eq(blocker_code, "audio_warming_up") && default_ttl_ms < AUDIO_WARMUP_MIN_DEFER_TTL_MS {
        AUDIO_WARMUP_MIN_DEFER_TTL_MS
    } else {
        default_ttl_ms
    }
}

pub open spec fn spec_queued_save_message(
    blocker_code: Seq<char>,
    blocker_message: Seq<char>,
    outcome: PendingSaveEnqueueOutcome,
) -> Seq<char> {
    let replaced = outcome is ReplacedExisting;
    if blocker_code == "audio_warming_up"@ {
        if replaced {
            "Replay queue updated to latest trigger while capture warms up."@
        } else {
            "Replay queued, waiting for capture warmup."@
        }
    } else if blocker_code == "busy"@ {
        if replaced {
            "Save already in progress. Updated queued replay to latest trigger."@
        } else {
            "Save already in progress. Queued next replay."@
        }
    } else if replaced {
        "Replay queue updated to latest trigger while capture recovers."@
    } else {
        blocker_message + " Replay queued; will save automatically."@
    }
}

/// What the user is told when a blocked save is queued.
pub fn queued_save_message(blocker: &SaveBlocker, outcome: PendingSaveEnqueueOutcome) -> (r: String)
    ensures
        r@ == spec_queued_save_message(blocker.code@, blocker.message@, outcome),
{
    let replaced = match outcome {
        PendingSaveEnqueueOutcome::ReplacedExisting { .. } => true,
        PendingSaveEnqueueOutcome::QueuedNew => false,
    };
    if str_eq(blocker.code, "audio_warming_up") {
        if replaced {
            "Replay queue updated to latest trigger while capture warms up.".to_string()
        } else {
            "Replay queued, waiting for capture warmup.".to_string()
        }
    } else if str_eq(blocker.code, "busy") {
        if replaced {
            "Save already in progress. Updated queued replay to latest trigger.".to_string()
        } else {
            "Save already in progress. Queued next replay.".to_string()
        }
    } else if replaced {
        "Replay queue updated to latest trigger while capture recovers.".to_string()
    } else {
        let mut v: Vec<char> = Vec::new();
        append_str(&mut v, blocker.message.as_str());
        append_str(&mut v, " Replay queued; will save automatically.");
        chars_to_string(&v)
    }
}

/// The save-trigger marker of a queued save.
pub fn queue_marker(outcome: PendingSaveEnqueueOutcome) -> (r: &'static str)
    ensures
        r@ == if outcome is ReplacedExisting {
            "retryable_updated_queued_anchor"@
        } else {
            "retryable_queued"@
        },
{
    match outcome {
        PendingSaveEnqueueOutcome::QueuedNew => "retryable_queued",
        PendingSaveEnqueueOutcome::ReplacedExisting { .. } => "retryable_updated_queued_anchor",
    }
}

/// What a save trigger does once the blockers are known.
#[derive(Debug, Clone, Copy, PartialEq, Eq, Structural)]
pub enum SaveEntryDecision {
    /// Nothing blocks: save.
    Proceed,
    /// Only the audio warm-up blocks: try to save from the segments there
    /// are.
    ProceedDuringWarmup,
    /// A passing blocker: queue the save.
    Queue,
    /// A lasting blocker: fail.
    Fail,
}

pub open spec fn spec_save_entry_decision(blocker: Option<SaveBlocker>) -> SaveEntryDecision {
    match blocker {
        None => SaveEntryDecision::Proceed,
        Some(b) => if b.retryable && b.code@ == "audio_warming_up"@ {
            SaveEntryDecision::ProceedDuringWarmup
        } else if b.retryable {
            SaveEntryDecision::Queue
        } else {
            SaveEntryDecision::Fail
        },
    }
}

pub fn save_entry_decision(blocker: &Option<SaveBlocker>) -> (r: SaveEntryDecision)
    ensures
        r == spec_save_entry_decision(*blocker),
{
    match blocker {
        None => SaveEntryDecision::Proceed,
        Some(b) => {
            if b.retryable && str_eq(b.code, "audio_warming_up") {
                SaveEntryDecision::ProceedDuringWarmup
            } else if b.retryable {
                SaveEntryDecision::Queue
            } else {
                SaveEntryDecision::Fail
            }
        },
    }
}

impl ClipperState {
    fn set_arm_blocker(
        &mut self,
        message: Option<String>,
        code: Option<String>,
        action: Option<String>,
        last_error: Option<String>,
    )
        ensures
            *final(self) == (ClipperState {
                arm_blocker: message,
                arm_blocker_code: code,
                arm_blocker_action: action,
                last_error,
                ..*old(self)
            }),
    {
        self.arm_blocker = message;
        self.arm_blocker_code = code;
        self.arm_blocker_action = action;
        self.last_error = last_error;
    }

    /// Records the blocker a save trigger met: a lasting blocker is shown as
    /// the arm blocker and the last error; a passing one (or none) clears
    /// the arm blocker, and a passing one clears the last error too.
    pub fn record_save_blocker(&mut self, blocker: &Option<SaveBlocker>)
        ensures
            match blocker {
                Some(b) => if b.retryable {
                    &&& final(self).arm_blocker is None
                    &&& final(self).arm_blocker_code is None
                    &&& final(self).arm_blocker_action is None
                    &&& final(self).last_error is None
                } else {
                    &&& opt_string(final(self).arm_blocker) == Some(b.message@)
                    &&& opt_string(final(self).arm_blocker_code) == Some(b.code@)
                    &&& opt_string(final(self).arm_blocker_action) == opt_string(b.action)
                    &&& opt_string(final(self).last_error) == Some(b.message@)
                },
                None => {
                    &&& final(self).arm_blocker is None
                    &&& final(self).arm_blocker_code is None
                    &&& final(self).arm_blocker_action is None
                    &&& final(self).last_error == old(self).last_error
                },
            },
            *final(self) == (ClipperState {
                arm_blocker: final(self).arm_blocker,
                arm_blocker_code: final(self).arm_blocker_code,
                arm_blocker_action: final(self).arm_blocker_action,
                last_error: final(self).last_error,
                ..*old(self)
            }),
    {
        let (message, code, action, last_error) = match blocker {
            Some(b) => {
                if b.retryable {
                    (None, None, None, None)
                } else {
                    let action = match &b.action {
                        Some(a) => Some(a.clone()),
                        None => None,
                    };
                    (
                        Some(b.message.clone()),
                        Some(b.code.to_string()),
                        action,
                        Some(b.message.clone()),
                    )
                }
            },
            None => (None, None, None, self.last_error.clone()),
        };
        self.set_arm_blocker(message, code, action, last_error);
    }

    /// A save was deferred: it waits in the queue, the last error is cleared
    /// and the replay is not ready yet.
    pub fn mark_save_deferred(&mut self)
        ensures
            final(self).last_error is None,
            !final(self).save_ready,
            final(self).save_stage == SaveStageDto::Queued,
            *final(self) == (ClipperState {
                last_error: final(self).last_error,
                save_ready: final(self).save_ready,
                save_stage: final(self).save_stage,
                ..*old(self)
            }),
    {
        self.last_error = None;
        self.save_ready = false;
        self.save_stage = SaveStageDto::Queued;
    }
}

/// What a save trigger does with the replay selection it got.
#[derive(Debug, Clone, Copy, PartialEq, Eq, Structural)]
pub enum SaveSelectionDecision {
    /// Save the selected window.
    Perform,
    /// No segment yet during audio warm-up: wait for it.
    DeferWarmup,
    /// No segment and capture is unavailable: fail with why.
    FailUnavailable,
    /// No segment yet: wait for capture.
    DeferRetryable,
    /// Selecting failed: fail with the error.
    FailError,
}

/// `selection`: `Some(true)` for a window, `Some(false)` for none yet, and
/// `None` when selecting failed.
pub open spec fn spec_save_selection_decision(
    selection: Option<bool>,
    warmup_override: bool,
    capture_unavailable: bool,
) -> SaveSelectionDecision {
    match selection {
        Some(true) => SaveSelectionDecision::Perform,
        Some(false) => if warmup_override {
            SaveSelectionDecision::DeferWarmup
        } else if capture_unavailable {
            SaveSelectionDecision::FailUnavailable
        } else {
            SaveSelectionDecision::DeferRetryable
        },
        None => SaveSelectionDecision::FailError,
    }
}

pub fn save_selection_decision(
    selection: Option<bool>,
    warmup_override: bool,
    capture_unavailable: bool,
) -> (r: SaveSelectionDecision)
    ensures
        r == spec_save_selection_decision(selection, warmup_override, capture_unavailable),
{
    match selection {
        Some(true) => SaveSelectionDecision::Perform,
        Some(false) => {
            if warmup_override {
                SaveSelectionDecision::DeferWarmup
            } else if capture_unavailable {
                SaveSelectionDecision::FailUnavailable
            } else {
                SaveSelectionDecision::DeferRetryable
            }
        },
        None => SaveSelectionDecision::FailError,
    }
}

} // verus!

verus! {

/// No save mode schedules smoothing in the background any more.
pub fn should_schedule_smooth_postprocess(save_path_mode: &str) -> (r: bool)
    ensures
        !r,
{
    false
}

/// Saves written by a fast path get an integrity check afterwards.
pub fn should_schedule_fast_integrity_check(save_audio_strategy: Option<&str>) -> (r: bool)
    ensures
        r == match save_audio_strategy {
            Some(s) => s@ == "instant_mp4"@ || s@ == "fast"@ || s@ == "fallback_fast"@,
            None => false,
        },
{
    match save_audio_strategy {
        Some(s) => str_eq(s, "instant_mp4") || str_eq(s, "fast") || str_eq(s, "fallback_fast"),
        None => false,
    }
}

} // verus!
