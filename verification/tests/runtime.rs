use rewinder::engine_policy::effective_profile_for_index;
use rewinder::runtime::{
    advance_runtime_profile_for_overload, advance_runtime_profile_for_overload_steps,
    lower_runtime_profile_to_floor, regress_runtime_profile_for_recovery,
    set_runtime_profile_at_least_floor, RestartWindow, StartupInterruptRetry,
    STARTUP_INTERRUPT_MAX_RETRIES,
};
use rewinder::settings::SettingsDto;

fn adaptive_settings() -> SettingsDto {
    let mut settings = SettingsDto::default();
    settings.video_resolution = 1080;
    settings.fps = 60;
    settings.video_bitrate_kbps = 10_000;
    settings.quality_policy = "adaptive_recover".to_string();
    settings
}

#[test]
fn hard_stepdown_advances_multiple_profiles_in_one_transition() {
    let settings = adaptive_settings();
    let from = effective_profile_for_index(&settings, 0).label();
    let to = effective_profile_for_index(&settings, 2).label();
    let (index, transition) = advance_runtime_profile_for_overload_steps(&settings, 0, 2);
    let transition = transition.expect("expected multi-step transition");
    assert_eq!(transition.0, from);
    assert_eq!(transition.1, to);
    assert_eq!(index, 2);
}

#[test]
fn ac_plug_in_restores_battery_bound_profile_in_one_action() {
    let settings = adaptive_settings();
    let (index, raised) = set_runtime_profile_at_least_floor(&settings, 0, 1);
    let raised = raised.expect("battery floor should raise the profile");
    assert_eq!(index, 1);

    let (index, restored) = lower_runtime_profile_to_floor(&settings, index, 0);
    let restored = restored.expect("AC plug-in should restore the requested profile");
    assert_eq!(index, 0);
    assert_eq!(restored.0, raised.1);
    assert_eq!(restored.1, raised.0);
}

#[test]
fn lower_runtime_profile_to_floor_noop_at_or_below_floor() {
    let settings = SettingsDto::default();
    let (index, transition) = lower_runtime_profile_to_floor(&settings, 0, 0);
    assert!(transition.is_none());
    assert_eq!(index, 0);
}

#[test]
fn lower_runtime_profile_to_floor_stops_at_battery_floor_not_zero() {
    let settings = adaptive_settings();
    let (index, transition) = advance_runtime_profile_for_overload_steps(&settings, 0, 3);
    transition.expect("overload should advance the profile");
    assert_eq!(index, 3);
    let (index, transition) = lower_runtime_profile_to_floor(&settings, index, 1);
    transition.expect("profile should lower to the floor");
    assert_eq!(index, 1);
}

#[test]
fn startup_interruption_retry_policy_is_bounded() {
    let mut retry = StartupInterruptRetry::new();
    let now = 5_000;

    let first = retry.next_startup_interrupt_retry(now);
    assert_eq!(first, Some((1, 1_000)));

    let second = retry.next_startup_interrupt_retry(now);
    assert_eq!(second, Some((2, 2_000)));

    let exhausted = retry.next_startup_interrupt_retry(now);
    assert_eq!(exhausted, None);

    assert_eq!(STARTUP_INTERRUPT_MAX_RETRIES, 2);
}

#[test]
fn startup_interruption_window_starts_afresh_after_it_expires() {
    let mut retry = StartupInterruptRetry::new();
    assert_eq!(retry.next_startup_interrupt_retry(1_000), Some((1, 1_000)));
    assert_eq!(retry.next_startup_interrupt_retry(2_000), Some((2, 2_000)));
    assert_eq!(retry.next_startup_interrupt_retry(3_000), None);
    assert_eq!(retry.next_startup_interrupt_retry(20_000), Some((1, 1_000)));
    retry.reset();
    assert_eq!(retry.retry_count, 0);
}

#[test]
fn single_overload_step_is_undone_by_recovery_step() {
    let settings = adaptive_settings();
    let (down, there) = advance_runtime_profile_for_overload(&settings, 1);
    let there = there.expect("a step down from the second profile");
    assert_eq!(down, 2);
    let (up, back) = regress_runtime_profile_for_recovery(&settings, down);
    let back = back.expect("a step back up");
    assert_eq!(up, 1);
    assert_eq!(back.0, there.1);
    assert_eq!(back.1, there.0);
}

#[test]
fn recovery_at_top_profile_does_not_move() {
    let settings = adaptive_settings();
    assert_eq!(regress_runtime_profile_for_recovery(&settings, 0), (0, None));
}

#[test]
fn fourth_restart_in_window_is_a_crash_loop() {
    let mut window = RestartWindow::new();
    assert!(!window.record_restart_attempt(1_000));
    assert!(!window.record_restart_attempt(2_000));
    assert!(!window.record_restart_attempt(3_000));
    assert!(window.record_restart_attempt(4_000));
    assert_eq!(window.cooldown_until_ms, Some(14_000));
    window.clear_restart_window();
    assert!(window.history.is_empty());
    assert_eq!(window.cooldown_until_ms, None);
}

#[test]
fn old_restart_attempts_leave_the_window() {
    let mut window = RestartWindow::new();
    assert!(!window.record_restart_attempt(1_000));
    assert!(!window.record_restart_attempt(2_000));
    assert!(!window.record_restart_attempt(3_000));
    assert!(!window.record_restart_attempt(30_000));
    assert_eq!(window.history, vec![30_000]);
}
