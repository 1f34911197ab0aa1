use rewinder::projection::{
    capture_start_phase_applies, derive_capture_load_state, displayed_guard_state,
    effective_save_stage, LoadReadings,
};
use rewinder::state::{CaptureHealthDto, SaveStageDto};

/// The comparisons that the shell makes on the fractional readings.
fn load_readings(
    capture_speed_x: Option<f32>,
    playback_realtime_x: Option<f32>,
    queue_starvation_detected: bool,
    effective_output_fps: Option<f32>,
    requested_fps: u16,
) -> LoadReadings {
    LoadReadings {
        queue_starvation_detected,
        playback_outside_realtime_band: playback_realtime_x
            .map(|x| !(0.97..=1.03).contains(&x))
            .unwrap_or(false),
        capture_speed_low: capture_speed_x.map(|x| x < 0.95).unwrap_or(false),
        output_fps_low: effective_output_fps
            .map(|fps| fps < f32::from(requested_fps.max(1)) * 0.75)
            .unwrap_or(false),
        below_realtime: playback_realtime_x
            .map(|x| x < 1.0)
            .unwrap_or(capture_speed_x.map(|x| x < 1.0).unwrap_or(true)),
    }
}

#[test]
fn derive_capture_load_state_flags_stress_and_recovery() {
    assert_eq!(
        derive_capture_load_state(
            &load_readings(Some(0.80), Some(0.95), false, Some(58.0), 60),
            "normal",
            1080,
            1080,
            60,
            60
        ),
        "stressed"
    );
    assert_eq!(
        derive_capture_load_state(
            &load_readings(Some(1.10), Some(1.01), false, Some(60.0), 60),
            "normal",
            720,
            1080,
            30,
            60
        ),
        "recovering"
    );
    assert_eq!(
        derive_capture_load_state(
            &load_readings(Some(1.10), Some(1.01), false, Some(60.0), 60),
            "recovering",
            1080,
            1080,
            60,
            60
        ),
        "normal"
    );
    assert_eq!(
        derive_capture_load_state(
            &load_readings(Some(1.20), Some(1.08), false, Some(40.0), 60),
            "normal",
            1080,
            1080,
            60,
            60
        ),
        "stressed"
    );
}

#[test]
fn recovery_persists_until_realtime_is_reached() {
    assert_eq!(
        derive_capture_load_state(
            &load_readings(None, Some(0.98), false, None, 60),
            "recovering",
            1080,
            1080,
            60,
            60
        ),
        "recovering"
    );
}

#[test]
fn guard_state_shown_follows_capture_and_profile() {
    assert_eq!(displayed_guard_state(false, CaptureHealthDto::Running, "monitoring", 2), "idle");
    assert_eq!(displayed_guard_state(true, CaptureHealthDto::Stopped, "monitoring", 0), "idle");
    assert_eq!(
        displayed_guard_state(true, CaptureHealthDto::Running, "suppressed", 2),
        "suppressed"
    );
    assert_eq!(
        displayed_guard_state(true, CaptureHealthDto::Running, "monitoring", 1),
        "protecting"
    );
    assert_eq!(
        displayed_guard_state(true, CaptureHealthDto::Running, "protecting", 0),
        "monitoring"
    );
}

#[test]
fn save_stage_shown_matches_activity() {
    assert_eq!(effective_save_stage(true, false, SaveStageDto::Idle), SaveStageDto::SavingFast);
    assert_eq!(effective_save_stage(false, true, SaveStageDto::Idle), SaveStageDto::Queued);
    assert_eq!(effective_save_stage(false, false, SaveStageDto::Queued), SaveStageDto::Idle);
    assert!(capture_start_phase_applies(CaptureHealthDto::Running));
    assert!(!capture_start_phase_applies(CaptureHealthDto::Restarting));
}
