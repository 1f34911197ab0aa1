//! How the app runs (in development or packaged) and the development
//! watchdog that quits when the parent host or the dev server goes away.
use vstd::prelude::*;

verus! {

pub const DEV_WATCHDOG_POLL_INTERVAL_MS: u64 = 2_000;

pub const DEV_WATCHDOG_CONNECT_TIMEOUT_MS: u64 = 600;

pub const DEV_WATCHDOG_FAILURE_THRESHOLD: u8 = 3;

/// Window and tray behaviour of a runtime.
#[derive(Debug, Clone, Copy, PartialEq, Eq, Structural)]
pub struct RuntimeLifecyclePolicy {
    pub hide_on_close: bool,
    pub tray_enabled: bool,
    pub use_accessory_activation: bool,
    pub start_dev_watchdog: bool,
}

/// In development the window quits on close and the watchdog runs; packaged,
/// the app hides to the tray as a background accessory. The tray is always
/// there.
pub fn runtime_lifecycle_policy(is_dev_runtime: bool) -> (r: RuntimeLifecyclePolicy)
    ensures
        r.hide_on_close == !is_dev_runtime,
        r.tray_enabled,
        r.use_accessory_activation == !is_dev_runtime,
        r.start_dev_watchdog == is_dev_runtime,
{
    if is_dev_runtime {
        RuntimeLifecyclePolicy {
            hide_on_close: false,
            tray_enabled: true,
            use_accessory_activation: false,
            start_dev_watchdog: true,
        }
    } else {
        RuntimeLifecyclePolicy {
            hide_on_close: true,
            tray_enabled: true,
            use_accessory_activation: true,
            start_dev_watchdog: false,
        }
    }
}

/// Consecutive failed probes: reset by a healthy one, else one more, at
/// most the threshold.
pub fn next_watchdog_failure_count(previous: u8, healthy: bool) -> (r: u8)
    ensures
        healthy ==> r == 0,
        !healthy ==> r == if previous >= DEV_WATCHDOG_FAILURE_THRESHOLD {
            DEV_WATCHDOG_FAILURE_THRESHOLD
        } else {
            (previous + 1) as u8
        },
{
    if healthy {
        0
    } else if previous >= DEV_WATCHDOG_FAILURE_THRESHOLD {
        DEV_WATCHDOG_FAILURE_THRESHOLD
    } else {
        previous + 1
    }
}

/// Why the watchdog shuts the app down: the parent host is lost first, then
/// the dev server, each once its failures reach the threshold.
pub fn classify_dev_watchdog_shutdown_reason(parent_failures: u8, dev_server_failures: u8) -> (r:
    Option<&'static str>)
    ensures
        parent_failures >= DEV_WATCHDOG_FAILURE_THRESHOLD ==> (r matches Some(s) && s@
            == "parent_host_lost"@),
        parent_failures < DEV_WATCHDOG_FAILURE_THRESHOLD && dev_server_failures
            >= DEV_WATCHDOG_FAILURE_THRESHOLD ==> (r matches Some(s) && s@ == "dev_server_lost"@),
        parent_failures < DEV_WATCHDOG_FAILURE_THRESHOLD && dev_server_failures
            < DEV_WATCHDOG_FAILURE_THRESHOLD ==> r is None,
{
    if parent_failures >= DEV_WATCHDOG_FAILURE_THRESHOLD {
        return Some("parent_host_lost");
    }
    if dev_server_failures >= DEV_WATCHDOG_FAILURE_THRESHOLD {
        return Some("dev_server_lost");
    }
    None
}

pub open spec fn spec_next_failure_count(previous: u8, healthy: bool) -> u8 {
    if healthy {
        0
    } else if previous >= DEV_WATCHDOG_FAILURE_THRESHOLD {
        DEV_WATCHDOG_FAILURE_THRESHOLD
    } else {
        (previous + 1) as u8
    }
}

pub open spec fn count_after(previous: u8, probes: Seq<bool>) -> u8
    decreases probes.len(),
{
    if probes.len() == 0 {
        previous
    } else {
        spec_next_failure_count(count_after(previous, probes.drop_last()), probes.last())
    }
}

/// The failure count stays within the threshold, and it reaches the
/// threshold only after that many failed probes in a row: any healthy probe
/// among the last ones resets it below.
pub proof fn watchdog_needs_consecutive_failures(previous: u8, probes: Seq<bool>)
    requires
        previous <= DEV_WATCHDOG_FAILURE_THRESHOLD,
    ensures
        count_after(previous, probes) <= DEV_WATCHDOG_FAILURE_THRESHOLD,
        forall|k: int|
            0 <= k < probes.len() && #[trigger] probes[k] ==> count_after(previous, probes)
                <= probes.len() - 1 - k,
    decreases probes.len(),
{
    if probes.len() > 0 {
        let d = probes.drop_last();
        watchdog_needs_consecutive_failures(previous, d);
        assert forall|k: int| 0 <= k < probes.len() && #[trigger] probes[k] implies count_after(
            previous,
            probes,
        ) <= probes.len() - 1 - k by {
            if k < probes.len() - 1 {
                assert(d[k] == probes[k]);
            }
        }
    }
}

} // verus!
