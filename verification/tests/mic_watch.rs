use rewinder::mic_watch::{mic_observed, mic_silence_action, MicSignalObserver, SignalVerdict};

#[test]
fn silent_microphone_is_reported_once_after_the_hold() {
    let mut o = MicSignalObserver::new();
    assert_eq!(
        o.observe_signal(true, true, true, Some(true), 1_000),
        SignalVerdict { silent: None, warn: false }
    );
    assert_eq!(
        o.observe_signal(true, true, true, Some(true), 5_999),
        SignalVerdict { silent: None, warn: false }
    );
    assert_eq!(
        o.observe_signal(true, true, true, Some(true), 6_000),
        SignalVerdict { silent: Some(true), warn: true }
    );
    assert_eq!(
        o.observe_signal(true, true, true, Some(true), 9_000),
        SignalVerdict { silent: None, warn: false }
    );
    assert_eq!(
        o.observe_signal(true, true, true, None, 9_500),
        SignalVerdict { silent: None, warn: false }
    );
    assert_eq!(
        o.observe_signal(true, true, true, Some(false), 10_000),
        SignalVerdict { silent: Some(false), warn: false }
    );
    assert_eq!(o, MicSignalObserver::new());
}

#[test]
fn offline_microphone_is_reported_after_three_retry_intervals() {
    let mut o = MicSignalObserver::new();
    assert_eq!(o.observe_offline(true, false, 2, 0), None);
    assert_eq!(o.observe_offline(true, false, 2, 14_999), None);
    assert_eq!(o.observe_offline(true, false, 2, 15_000), Some(15));
    assert_eq!(o.observe_offline(true, false, 2, 30_000), None);
    assert_eq!(o.observe_offline(true, true, 2, 31_000), None);
    assert_eq!(o.offline_since_ms, None);
    assert!(!o.offline_warned);
    assert_eq!(o.observe_offline(true, false, 20, 40_000), None);
    assert_eq!(o.observe_offline(true, false, 20, 100_000), Some(60));
}

#[test]
fn microphone_watch_applies_to_mixed_capture_only() {
    assert!(mic_observed(true, "system_plus_mic", "system_plus_mic"));
    assert!(!mic_observed(true, "system_plus_mic", "system_only"));
    assert!(!mic_observed(false, "system_plus_mic", "system_plus_mic"));
    assert_eq!(
        mic_silence_action("required"),
        "Unmute or raise mic input level, or switch mic policy to best_effort."
    );
    assert_eq!(
        mic_silence_action("best_effort"),
        "Unmute or raise mic input level in macOS Sound settings."
    );
}
