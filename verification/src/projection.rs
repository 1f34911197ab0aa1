//! Derived fields of the engine state shown to the user.
use vstd::prelude::*;
use crate::state::{CaptureHealthDto, SaveStageDto};
use crate::text::str_eq;

verus! {

/// The guard state shown: idle when replay is off or capture stopped, then
/// a suppression as recorded, protecting below the requested profile,
/// monitoring on it.
pub open spec fn spec_displayed_guard_state(
    replay_enabled: bool,
    capture_health: CaptureHealthDto,
    recorded_guard_state: Seq<char>,
    profile_index: int,
) -> Seq<char> {
    if !replay_enabled || capture_health == CaptureHealthDto::Stopped {
        "idle"@
    } else if recorded_guard_state == "suppressed"@ {
        "suppressed"@
    } else if profile_index > 0 {
        "protecting"@
    } else {
        "monitoring"@
    }
}

pub fn displayed_guard_state(
    replay_enabled: bool,
    capture_health: CaptureHealthDto,
    recorded_guard_state: &str,
    profile_index: usize,
) -> (r: &'static str)
    ensures
        r@ == spec_displayed_guard_state(
            replay_enabled,
            capture_health,
            recorded_guard_state@,
            profile_index as int,
        ),
{
    if !replay_enabled || capture_health == CaptureHealthDto::Stopped {
        "idle"
    } else if str_eq(recorded_guard_state, "suppressed") {
        "suppressed"
    } else if profile_index > 0 {
        "protecting"
    } else {
        "monitoring"
    }
}

/// The save stage shown: saving while a save runs, queued while one waits;
/// a queued or saving stage with neither is shown as idle.
pub open spec fn spec_effective_save_stage(
    is_saving: bool,
    pending_save: bool,
    stage: SaveStageDto,
) -> SaveStageDto {
    if is_saving {
        SaveStageDto::SavingFast
    } else if pending_save {
        SaveStageDto::Queued
    } else if stage == SaveStageDto::Queued || stage == SaveStageDto::SavingFast {
        SaveStageDto::Idle
    } else {
        stage
    }
}

pub fn effective_save_stage(is_saving: bool, pending_save: bool, stage: SaveStageDto) -> (r:
    SaveStageDto)
    ensures
        r == spec_effective_save_stage(is_saving, pending_save, stage),
{
    if is_saving {
        SaveStageDto::SavingFast
    } else if pending_save {
        SaveStageDto::Queued
    } else if stage == SaveStageDto::Queued || stage == SaveStageDto::SavingFast {
        SaveStageDto::Idle
    } else {
        stage
    }
}

/// The start phase is not read from the log while capture restarts.
pub fn capture_start_phase_applies(capture_health: CaptureHealthDto) -> (r: bool)
    ensures
        r == (capture_health != CaptureHealthDto::Restarting),
{
    capture_health != CaptureHealthDto::Restarting
}

/// The shown save stage never claims a save that is neither running nor
/// waiting.
pub proof fn shown_save_stage_is_truthful(is_saving: bool, pending_save: bool, stage: SaveStageDto)
    ensures
        spec_effective_save_stage(is_saving, pending_save, stage) == SaveStageDto::SavingFast
            ==> is_saving,
        spec_effective_save_stage(is_saving, pending_save, stage) == SaveStageDto::Queued
            ==> pending_save,
{
}

} // verus!

verus! {

/// The shell's comparisons of the fractional speed and frame-rate readings
/// behind the capture load state.
#[derive(Debug, Clone, Copy, PartialEq, Eq, Structural)]
pub struct LoadReadings {
    /// ffmpeg reported its input queues blocking.
    pub queue_starvation_detected: bool,
    /// Playback runs outside 0.97x to 1.03x realtime.
    pub playback_outside_realtime_band: bool,
    /// The encoder runs below 0.95x realtime.
    pub capture_speed_low: bool,
    /// The output frame rate is under three quarters of the requested one.
    pub output_fps_low: bool,
    /// Playback (or, without a playback sample, the encoder; with neither,
    /// assumed) runs below realtime.
    pub below_realtime: bool,
}

pub open spec fn spec_capture_load_state(
    rd: LoadReadings,
    previous: Seq<char>,
    effective_video_resolution: u16,
    requested_video_resolution: u16,
    effective_fps: u16,
    requested_fps: u16,
) -> Seq<char> {
    if rd.queue_starvation_detected || rd.playback_outside_realtime_band || rd.capture_speed_low
        || rd.output_fps_low {
        "stressed"@
    } else if effective_video_resolution < requested_video_resolution || effective_fps
        < requested_fps {
        "recovering"@
    } else if previous == "recovering"@ && rd.below_realtime {
        "recovering"@
    } else {
        "normal"@
    }
}

/// Stressed on any sign of overload; recovering while below the requested
/// profile, or while a recovery has not yet reached realtime; normal
/// otherwise.
pub fn derive_capture_load_state(
    readings: &LoadReadings,
    previous: &str,
    effective_video_resolution: u16,
    requested_video_resolution: u16,
    effective_fps: u16,
    requested_fps: u16,
) -> (r: &'static str)
    ensures
        r@ == spec_capture_load_state(
            *readings,
            previous@,
            effective_video_resolution,
            requested_video_resolution,
            effective_fps,
            requested_fps,
        ),
{
    if readings.queue_starvation_detected || readings.playback_outside_realtime_band
        || readings.capture_speed_low || readings.output_fps_low {
        return "stressed";
    }
    if effective_video_resolution < requested_video_resolution || effective_fps < requested_fps {
        return "recovering";
    }
    if str_eq(previous, "recovering") && readings.below_realtime {
        return "recovering";
    }
    "normal"
}

} // verus!
