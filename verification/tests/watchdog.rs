use rewinder::watchdog::{
    classify_dev_watchdog_shutdown_reason, next_watchdog_failure_count, runtime_lifecycle_policy,
    DEV_WATCHDOG_FAILURE_THRESHOLD,
};

#[test]
fn dev_runtime_policy_uses_foreground_lifecycle() {
    let policy = runtime_lifecycle_policy(true);
    assert!(!policy.hide_on_close);
    assert!(policy.tray_enabled);
    assert!(!policy.use_accessory_activation);
    assert!(policy.start_dev_watchdog);
}

#[test]
fn packaged_runtime_policy_keeps_background_tray() {
    let policy = runtime_lifecycle_policy(false);
    assert!(policy.hide_on_close);
    assert!(policy.tray_enabled);
    assert!(policy.use_accessory_activation);
    assert!(!policy.start_dev_watchdog);
}

#[test]
fn watchdog_failure_count_resets_after_success() {
    assert_eq!(next_watchdog_failure_count(0, false), 1);
    assert_eq!(next_watchdog_failure_count(2, true), 0);
}

#[test]
fn watchdog_prioritizes_parent_loss_when_both_fail() {
    let reason = classify_dev_watchdog_shutdown_reason(
        DEV_WATCHDOG_FAILURE_THRESHOLD,
        DEV_WATCHDOG_FAILURE_THRESHOLD,
    );
    assert_eq!(reason, Some("parent_host_lost"));
}

#[test]
fn watchdog_detects_dev_server_loss_at_threshold() {
    let reason = classify_dev_watchdog_shutdown_reason(0, DEV_WATCHDOG_FAILURE_THRESHOLD);
    assert_eq!(reason, Some("dev_server_lost"));
}

#[test]
fn watchdog_stays_quiet_below_threshold_and_saturates() {
    assert_eq!(
        classify_dev_watchdog_shutdown_reason(
            DEV_WATCHDOG_FAILURE_THRESHOLD - 1,
            DEV_WATCHDOG_FAILURE_THRESHOLD - 1
        ),
        None
    );
    assert_eq!(
        next_watchdog_failure_count(u8::MAX, false),
        DEV_WATCHDOG_FAILURE_THRESHOLD
    );
}
