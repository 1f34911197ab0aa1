use rewinder::engine_policy::SaveBlocker;
use rewinder::save_queue::{
    pending_save_ttl_ms, queue_marker, queued_save_message, save_entry_decision,
    save_selection_decision, should_schedule_fast_integrity_check,
    should_schedule_smooth_postprocess, PendingSaveEnqueueOutcome, PendingSaveReason,
    PendingSaveSlot, SaveEntryDecision, SaveSelectionDecision, AUDIO_WARMUP_MIN_DEFER_TTL_MS,
};
use rewinder::state::TriggerSourceDto;

fn blocker(code: &'static str, message: &str, retryable: bool) -> SaveBlocker {
    SaveBlocker {
        code,
        message: message.to_string(),
        action: None,
        retryable,
    }
}

#[test]
fn enqueue_or_replace_pending_save_with_ttl_dedupes_to_single_slot() {
    let mut slot = PendingSaveSlot::new();
    let outcome = slot.enqueue_or_replace_pending_save_with_ttl(
        TriggerSourceDto::Hotkey,
        50,
        1_000,
        1_700_000_000_000,
        PendingSaveReason::Retryable,
        30,
    );
    assert!(matches!(outcome, PendingSaveEnqueueOutcome::QueuedNew));
    let outcome = slot.enqueue_or_replace_pending_save_with_ttl(
        TriggerSourceDto::Manual,
        50,
        1_010,
        1_700_000_000_010,
        PendingSaveReason::Retryable,
        30,
    );
    assert!(matches!(
        outcome,
        PendingSaveEnqueueOutcome::ReplacedExisting { .. }
    ));
}

#[test]
fn enqueue_or_replace_pending_save_updates_expiry_and_anchor() {
    let mut slot = PendingSaveSlot::new();
    let initial_anchor = 1_700_000_000_000;
    let first = slot.enqueue_or_replace_pending_save_with_ttl(
        TriggerSourceDto::Hotkey,
        50,
        1_000,
        initial_anchor,
        PendingSaveReason::Retryable,
        30,
    );
    assert!(matches!(first, PendingSaveEnqueueOutcome::QueuedNew));
    let first_state = slot.pending.expect("pending save should exist");
    let next_anchor = initial_anchor + 2;
    let second = slot.enqueue_or_replace_pending_save_with_ttl(
        TriggerSourceDto::Manual,
        AUDIO_WARMUP_MIN_DEFER_TTL_MS,
        1_002,
        next_anchor,
        PendingSaveReason::AudioWarmup,
        30,
    );
    assert_eq!(
        second,
        PendingSaveEnqueueOutcome::ReplacedExisting {
            previous_anchor_epoch_ms: initial_anchor
        }
    );
    let second_state = slot.pending.expect("pending save should still exist");
    assert!(second_state.expires_at_ms > first_state.expires_at_ms);
    assert!(matches!(second_state.source, TriggerSourceDto::Manual));
    assert_eq!(second_state.anchor_epoch_ms, next_anchor);
}

#[test]
fn pending_save_expires_and_reports_eta() {
    let mut slot = PendingSaveSlot::new();
    assert_eq!(slot.pending_save_eta_ms(0), None);
    slot.enqueue_or_replace_pending_save_with_ttl(
        TriggerSourceDto::Hotkey,
        3_000,
        1_000,
        5,
        PendingSaveReason::Retryable,
        30,
    );
    assert_eq!(slot.pending_save_eta_ms(2_000), Some(2_000));
    assert_eq!(slot.clear_expired_pending_save(3_999), None);
    assert!(slot.pending.is_some());
    let expired = slot.clear_expired_pending_save(4_000).expect("expired save");
    assert_eq!(expired.anchor_epoch_ms, 5);
    assert!(slot.pending.is_none());
    assert_eq!(slot.take(), None);
}

#[test]
fn warmup_saves_wait_at_least_the_warmup_deferral() {
    assert_eq!(pending_save_ttl_ms("audio_warming_up", 1_000), 9_500);
    assert_eq!(pending_save_ttl_ms("audio_warming_up", 20_000), 20_000);
    assert_eq!(pending_save_ttl_ms("busy", 1_000), 1_000);
}

#[test]
fn queued_messages_depend_on_blocker_and_replacement() {
    let replaced = PendingSaveEnqueueOutcome::ReplacedExisting {
        previous_anchor_epoch_ms: 0,
    };
    let queued = PendingSaveEnqueueOutcome::QueuedNew;
    assert_eq!(
        queued_save_message(&blocker("busy", "Saving.", true), queued),
        "Save already in progress. Queued next replay."
    );
    assert_eq!(
        queued_save_message(&blocker("audio_warming_up", "Warming.", true), replaced),
        "Replay queue updated to latest trigger while capture warms up."
    );
    assert_eq!(
        queued_save_message(&blocker("engine_starting", "Starting capture.", true), queued),
        "Starting capture. Replay queued; will save automatically."
    );
    assert_eq!(queue_marker(queued), "retryable_queued");
    assert_eq!(queue_marker(replaced), "retryable_updated_queued_anchor");
}

#[test]
fn save_entry_and_selection_decisions() {
    assert_eq!(save_entry_decision(&None), SaveEntryDecision::Proceed);
    assert_eq!(
        save_entry_decision(&Some(blocker("audio_warming_up", "w", true))),
        SaveEntryDecision::ProceedDuringWarmup
    );
    assert_eq!(
        save_entry_decision(&Some(blocker("busy", "b", true))),
        SaveEntryDecision::Queue
    );
    assert_eq!(
        save_entry_decision(&Some(blocker("disabled", "d", false))),
        SaveEntryDecision::Fail
    );
    assert_eq!(save_selection_decision(Some(true), true, true), SaveSelectionDecision::Perform);
    assert_eq!(
        save_selection_decision(Some(false), true, true),
        SaveSelectionDecision::DeferWarmup
    );
    assert_eq!(
        save_selection_decision(Some(false), false, true),
        SaveSelectionDecision::FailUnavailable
    );
    assert_eq!(
        save_selection_decision(Some(false), false, false),
        SaveSelectionDecision::DeferRetryable
    );
    assert_eq!(save_selection_decision(None, false, false), SaveSelectionDecision::FailError);
}

#[test]
fn current_save_modes_do_not_schedule_background_smooth_postprocess() {
    for mode in ["instant_mp4", "fast", "smooth", "adaptive"] {
        assert!(!should_schedule_smooth_postprocess(mode));
    }
}

#[test]
fn fast_integrity_check_is_only_scheduled_for_fast_outputs() {
    assert!(should_schedule_fast_integrity_check(Some("instant_mp4")));
    assert!(should_schedule_fast_integrity_check(Some("fast")));
    assert!(should_schedule_fast_integrity_check(Some("fallback_fast")));
    assert!(!should_schedule_fast_integrity_check(Some("smooth")));
    assert!(!should_schedule_fast_integrity_check(Some("adaptive")));
    assert!(!should_schedule_fast_integrity_check(None));
}
