//! When the running capture must be restarted: a capture that stopped,
//! stalled or errored, and the performance guard that steps the quality
//! profile down under sustained load and back up once capture is stable.
//!
//! The decision is taken on every tick of the recovery loop from the guard's
//! own state (timers and counters, in monotonic milliseconds) and a snapshot
//! of what the shell observed; the shell compares the fractional
//! measurements (speeds, frame rate, CPU load) with their thresholds and
//! hands over the outcomes.
use vstd::prelude::*;
use crate::text::{opt_str, opt_string, str_eq, texts};
use crate::capture_errors::{
    is_capture_start_interrupted_error, is_user_stopped_sharing_error,
    spec_is_capture_start_interrupted_error, spec_is_user_stopped_sharing_error,
};
use crate::engine_policy::{
    battery_floor_index, capture_stack_rss_delta_hard_budget_mb,
    capture_stack_rss_delta_soft_budget_mb, required_overload_signal_count,
    segment_stall_threshold_ms, spec_battery_floor_index, spec_rss_soft_budget,
    spec_segment_stall_threshold_ms,
};
use crate::guard::{
    push_guard_reason, select_primary_guard_reason_code, spec_primary_guard_reason,
    CaptureRestartReason,
};
use crate::runtime::{can_step_down_profile, spec_can_step_down};
use crate::settings::SettingsDto;
use crate::seqs::{filter_seq, lemma_filter_step};
use crate::state::LifecycleState;

verus! {

pub const STARTUP_PERF_GUARD_MS: u64 = 10_000;

pub const STARTUP_PROFILE_STABILIZATION_FREEZE_MS: u64 = 30_000;

pub const POST_PIPELINE_START_GRACE_MS: u64 = 3_500;

pub const POST_SAVE_START_GRACE_MS: u64 = 2_500;

pub const NON_CRITICAL_SAVE_RESTART_SUPPRESSION_MS: u64 = 5_000;

pub const PROFILE_CHANGE_COOLDOWN_MS: u64 = 12_000;

pub const PROFILE_CHANGE_DWELL_MS: u64 = 10_000;

pub const PLAYBACK_OVERLOAD_HOLD_MS: u64 = 8_000;

pub const PLAYBACK_RECOVER_HOLD_MS: u64 = 8_000;

pub const RESOURCE_SOFT_PRESSURE_HOLD_MS: u64 = 8_000;

pub const RESOURCE_HARD_PRESSURE_HOLD_MS: u64 = 4_000;

pub const RESOURCE_SOFT_TRIGGER_WINDOW_MS: u64 = 90_000;

pub const RESOURCE_HARD_TRIGGER_REPEAT_COUNT: usize = 2;

pub const OVERLOAD_DROP_DELTA_THRESHOLD: u64 = 20;

pub const OVERLOAD_DROP_EMERGENCY_DELTA_THRESHOLD: u64 = 40;

pub const NO_SEGMENTS_MISS_REQUIRED: u8 = 2;

pub const STARTUP_NO_SEGMENTS_EXTRA_THRESHOLD_MS: u64 = 4_500;

pub const BATTERY_FLOOR_HOLD_MS: u64 = 5_000;

/// What the shell's threshold comparisons of the fractional measurements
/// found.
#[derive(Debug, Clone, Copy, PartialEq, Eq, Structural)]
pub struct SpeedReadings {
    /// A playback or encoder speed sample exists.
    pub speed_sample_present: bool,
    /// Playback runs below 0.95x realtime.
    pub playback_realtime_low: bool,
    /// The encoder runs below 0.95x realtime.
    pub capture_speed_low: bool,
    /// Either speed is below 0.90x.
    pub speed_below_emergency: bool,
    /// Each speed that was sampled is at least 0.97x.
    pub speed_recovering: bool,
    /// The output frame rate is under three quarters of the profile's.
    pub output_fps_under_target: bool,
    /// The capture stack's CPU load is at least 120%.
    pub cpu_soft_signal: bool,
    /// The capture stack's CPU load is at least 180%.
    pub cpu_hard_signal: bool,
}

/// The guard's reading of one tick.
#[derive(Debug, Clone, Copy, PartialEq, Eq, Structural)]
pub struct ProfileGuardSignals {
    pub output_fps_under_target: bool,
    pub playback_realtime_low: bool,
    pub capture_speed_low: bool,
    pub speed_below_threshold: bool,
    pub speed_below_emergency: bool,
    pub speed_recovering: bool,
    pub drop_trigger: bool,
    pub overflow_trigger: bool,
    pub system_memory_pressure_warning: bool,
    pub system_memory_pressure_critical: bool,
    pub thermal_serious: bool,
    pub thermal_critical: bool,
    pub overload_signal_count: u8,
    pub overload_signal_requirement: u8,
    pub sustained_overload_signal_requirement: u8,
    pub recovery_signal: bool,
}

pub open spec fn is_level(o: Option<Seq<char>>, level: Seq<char>) -> bool {
    o == Some(level)
}

pub open spec fn b2n(b: bool) -> int {
    if b {
        1
    } else {
        0
    }
}

#[verifier::opaque]
pub open spec fn spec_guard_signals(
    rd: SpeedReadings,
    drop_delta: u64,
    overflow_delta: u64,
    resource_soft_signal: bool,
    resource_hard_signal: bool,
    memory_level: Option<Seq<char>>,
    thermal: Option<Seq<char>>,
    quality_preference: Seq<char>,
) -> ProfileGuardSignals {
    let speed_below_threshold = rd.playback_realtime_low || rd.capture_speed_low;
    let drop_trigger = drop_delta >= OVERLOAD_DROP_DELTA_THRESHOLD;
    let overflow_trigger = overflow_delta >= 4;
    let mem_warning = is_level(memory_level, "warning"@);
    let mem_critical = is_level(memory_level, "critical"@);
    let thermal_serious = is_level(thermal, "serious"@);
    let thermal_critical = is_level(thermal, "critical"@);
    let req: u8 = if quality_preference == "prefer_quality"@ {
        3
    } else {
        2
    };
    ProfileGuardSignals {
        output_fps_under_target: rd.output_fps_under_target,
        playback_realtime_low: rd.playback_realtime_low,
        capture_speed_low: rd.capture_speed_low,
        speed_below_threshold,
        speed_below_emergency: rd.speed_below_emergency,
        speed_recovering: rd.speed_recovering,
        drop_trigger,
        overflow_trigger,
        system_memory_pressure_warning: mem_warning,
        system_memory_pressure_critical: mem_critical,
        thermal_serious,
        thermal_critical,
        overload_signal_count: (b2n(speed_below_threshold) + b2n(rd.output_fps_under_target)
            + b2n(drop_trigger) + b2n(overflow_trigger)) as u8,
        overload_signal_requirement: req,
        sustained_overload_signal_requirement: req,
        recovery_signal: rd.speed_recovering && !rd.output_fps_under_target && drop_delta < 4
            && overflow_delta < 2 && !resource_soft_signal && !resource_hard_signal && !mem_warning
            && !mem_critical && !thermal_serious && !thermal_critical,
    }
}

fn level_is(o: Option<&str>, level: &str) -> (r: bool)
    ensures
        r == is_level(
            match o {
                Some(s) => Some(s@),
                None => None,
            },
            level@,
        ),
{
    match o {
        Some(s) => str_eq(s, level),
        None => false,
    }
}

/// The guard's signals of one tick: the speed and frame-rate readings, frame
/// drops (20 or more) and queue overflows (4 or more) since the last tick,
/// and the system's memory pressure and thermal levels; the signals needed
/// for a step down depend on the quality preference; recovery needs calm
/// readings on every count.
pub fn evaluate_profile_guard_signals(
    readings: &SpeedReadings,
    drop_delta: u64,
    overflow_delta: u64,
    resource_soft_signal: bool,
    resource_hard_signal: bool,
    system_memory_pressure_level: Option<&str>,
    thermal_state: Option<&str>,
    quality_preference: &str,
) -> (r: ProfileGuardSignals)
    ensures
        r == spec_guard_signals(
            *readings,
            drop_delta,
            overflow_delta,
            resource_soft_signal,
            resource_hard_signal,
            opt_str(system_memory_pressure_level),
            opt_str(thermal_state),
            quality_preference@,
        ),
{
    proof {
        reveal(spec_guard_signals);
    }
    let speed_below_threshold = readings.playback_realtime_low || readings.capture_speed_low;
    let drop_trigger = drop_delta >= OVERLOAD_DROP_DELTA_THRESHOLD;
    let overflow_trigger = overflow_delta >= 4;
    let mem_warning = level_is(system_memory_pressure_level, "warning");
    let mem_critical = level_is(system_memory_pressure_level, "critical");
    let thermal_serious = level_is(thermal_state, "serious");
    let thermal_critical = level_is(thermal_state, "critical");
    let count: u8 = (if speed_below_threshold {
        1u8
    } else {
        0u8
    }) + (if readings.output_fps_under_target {
        1u8
    } else {
        0u8
    }) + (if drop_trigger {
        1u8
    } else {
        0u8
    }) + (if overflow_trigger {
        1u8
    } else {
        0u8
    });
    let req = required_overload_signal_count(quality_preference);
    let recovery_signal = readings.speed_recovering && !readings.output_fps_under_target
        && drop_delta < 4 && overflow_delta < 2 && !resource_soft_signal && !resource_hard_signal
        && !mem_warning && !mem_critical && !thermal_serious && !thermal_critical;
    ProfileGuardSignals {
        output_fps_under_target: readings.output_fps_under_target,
        playback_realtime_low: readings.playback_realtime_low,
        capture_speed_low: readings.capture_speed_low,
        speed_below_threshold,
        speed_below_emergency: readings.speed_below_emergency,
        speed_recovering: readings.speed_recovering,
        drop_trigger,
        overflow_trigger,
        system_memory_pressure_warning: mem_warning,
        system_memory_pressure_critical: mem_critical,
        thermal_serious,
        thermal_critical,
        overload_signal_count: count,
        overload_signal_requirement: req,
        sustained_overload_signal_requirement: req,
        recovery_signal,
    }
}

} // verus!

verus! {

/// Why the guard held back a step down.
#[derive(Debug, Clone, Copy, PartialEq, Eq, Structural)]
pub enum GuardSuppression {
    StartupInitialGuard,
    StartupStepdownGuard,
    ProfileDwell,
    ProfileCooldown,
    RecentSaveSuppression,
}

pub open spec fn suppression_code(s: GuardSuppression) -> Seq<char> {
    match s {
        GuardSuppression::StartupInitialGuard => "startup_initial_guard"@,
        GuardSuppression::StartupStepdownGuard => "startup_stepdown_guard"@,
        GuardSuppression::ProfileDwell => "profile_dwell"@,
        GuardSuppression::ProfileCooldown => "profile_cooldown"@,
        GuardSuppression::RecentSaveSuppression => "recent_save_suppression"@,
    }
}

impl GuardSuppression {
    pub fn as_code(self) -> (r: &'static str)
        ensures
            r@ == suppression_code(self),
    {
        match self {
            GuardSuppression::StartupInitialGuard => "startup_initial_guard",
            GuardSuppression::StartupStepdownGuard => "startup_stepdown_guard",
            GuardSuppression::ProfileDwell => "profile_dwell",
            GuardSuppression::ProfileCooldown => "profile_cooldown",
            GuardSuppression::RecentSaveSuppression => "recent_save_suppression",
        }
    }
}

/// What set off a step down.
#[derive(Debug, Clone, Copy, PartialEq, Eq, Structural)]
pub enum StepdownKind {
    ResourceHard,
    Emergency,
    Metric,
}

/// What a tick records besides its decision, in order; the shell turns each
/// into a runtime marker or a guard transition.
#[derive(Debug, Clone, Copy, PartialEq, Eq, Structural)]
pub enum RestartNote {
    /// The capture start was interrupted: one more interruption to count.
    CaptureInterrupted,
    /// Resource pressure held past the soft hold.
    ResourceSoftPressure,
    /// Resource pressure held past the hard hold, or repeated soft pressure.
    ResourceHardPressure,
    /// Out of the startup window, still on the requested profile (once).
    StartupRequestedProfileHeld,
    /// A step down was held back.
    OverloadSuppressed { reason: GuardSuppression },
    /// A step down is requested; `startup_hard` when it happens during
    /// startup on the requested profile because of hard pressure.
    OverloadStepdown { kind: StepdownKind, startup_hard: bool },
    /// A step back up is requested.
    RecoveryReady,
    BatteryFloorEngaged,
    BatteryFloorReleased,
    /// No new segment within the threshold.
    NoSegmentsMiss { segment_age_ms: Option<u64>, threshold_ms: u64, miss_count: u8 },
}

/// The guard's timers (start times, in monotonic milliseconds) and counters.
pub struct RestartPolicy {
    pub no_segments_miss_count: u8,
    pub resource_soft_pressure_since_ms: Option<u64>,
    pub resource_hard_pressure_since_ms: Option<u64>,
    pub resource_soft_trigger_history: Vec<u64>,
    pub overload_since_ms: Option<u64>,
    pub recover_since_ms: Option<u64>,
    pub battery_floor_since_ms: Option<u64>,
    pub resource_hard_stepdown_pending: bool,
    pub startup_requested_profile_hold_logged: bool,
    pub last_drop_total: u64,
    pub last_overflow_total: u64,
}

/// The guard's state as plain values.
#[verifier::ext_equal]
pub struct PolicyView {
    pub miss: u8,
    pub soft_since: Option<u64>,
    pub hard_since: Option<u64>,
    pub soft_history: Seq<u64>,
    pub overload_since: Option<u64>,
    pub recover_since: Option<u64>,
    pub battery_since: Option<u64>,
    pub hard_pending: bool,
    pub hold_logged: bool,
    pub last_drop: u64,
    pub last_overflow: u64,
}

impl RestartPolicy {
    pub open spec fn view(&self) -> PolicyView {
        PolicyView {
            miss: self.no_segments_miss_count,
            soft_since: self.resource_soft_pressure_since_ms,
            hard_since: self.resource_hard_pressure_since_ms,
            soft_history: self.resource_soft_trigger_history@,
            overload_since: self.overload_since_ms,
            recover_since: self.recover_since_ms,
            battery_since: self.battery_floor_since_ms,
            hard_pending: self.resource_hard_stepdown_pending,
            hold_logged: self.startup_requested_profile_hold_logged,
            last_drop: self.last_drop_total,
            last_overflow: self.last_overflow_total,
        }
    }

    /// A guard with no timer running and nothing counted.
    pub fn new() -> (r: Self)
        ensures
            r.view() == (PolicyView {
                miss: 0,
                soft_since: None,
                hard_since: None,
                soft_history: Seq::empty(),
                overload_since: None,
                recover_since: None,
                battery_since: None,
                hard_pending: false,
                hold_logged: false,
                last_drop: 0,
                last_overflow: 0,
            }),
    {
        let r = RestartPolicy {
            no_segments_miss_count: 0,
            resource_soft_pressure_since_ms: None,
            resource_hard_pressure_since_ms: None,
            resource_soft_trigger_history: Vec::new(),
            overload_since_ms: None,
            recover_since_ms: None,
            battery_floor_since_ms: None,
            resource_hard_stepdown_pending: false,
            startup_requested_profile_hold_logged: false,
            last_drop_total: 0,
            last_overflow_total: 0,
        };
        assert(r.view().soft_history =~= Seq::<u64>::empty());
        r
    }
}

/// What the shell observed on this tick. Elapsed times are in milliseconds
/// since the event, `None` when it never happened.
pub struct RestartObservation {
    pub now_ms: u64,
    pub capture_paused: bool,
    pub lifecycle_state: LifecycleState,
    pub pipeline_present: bool,
    pub display_changed: bool,
    pub last_error: Option<String>,
    pub since_pipeline_start_ms: Option<u64>,
    pub since_save_start_ms: Option<u64>,
    pub since_profile_change_ms: Option<u64>,
    pub is_saving: bool,
    pub current_profile_index: usize,
    pub on_battery: bool,
    pub battery_floor_engaged: bool,
    pub current_session_has_stable_segment: bool,
    pub readings: SpeedReadings,
    pub capture_dropped_frames: u64,
    pub capture_queue_overflows: u64,
    pub capture_stack_rss_delta_mb: Option<u32>,
    pub system_memory_pressure_level: Option<String>,
    pub thermal_state: Option<String>,
    pub force_stepdown: bool,
    pub segment_age_ms: Option<u64>,
}

/// Milliseconds from `since` to `now`, zero when `since` is later.
pub open spec fn elapsed(now: u64, since: u64) -> int {
    if now >= since {
        now - since
    } else {
        0
    }
}

pub open spec fn within(o: Option<u64>, limit: u64) -> bool {
    match o {
        Some(e) => e < limit,
        None => false,
    }
}

} // verus!

verus! {

/// Outcome of the checks that come before the performance guard: a paused or
/// disarmed capture, a missing pipeline, a display change or a capture
/// error decide the tick on their own.
#[verifier::opaque]
pub open spec fn spec_gate(v: PolicyView, obs: RestartObservation) -> Option<
    (PolicyView, Seq<RestartNote>, Option<CaptureRestartReason>),
> {
    if obs.capture_paused || !(obs.lifecycle_state == LifecycleState::Armed || obs.lifecycle_state
        == LifecycleState::SavingReplay) {
        Some((PolicyView { miss: 0, soft_since: None, hard_since: None, ..v }, Seq::empty(), None))
    } else if !obs.pipeline_present {
        Some(
            (
                PolicyView { miss: 0, ..v },
                Seq::empty(),
                Some(CaptureRestartReason::MissingPipeline),
            ),
        )
    } else if obs.display_changed {
        Some((v, Seq::empty(), Some(CaptureRestartReason::DisplayChanged)))
    } else {
        match opt_string(obs.last_error) {
            None => None,
            Some(e) => {
                let v2 = PolicyView { overload_since: None, recover_since: None, miss: 0, ..v };
                if spec_is_user_stopped_sharing_error(e) {
                    Some((v2, Seq::empty(), Some(CaptureRestartReason::UserStoppedSharing)))
                } else if spec_is_capture_start_interrupted_error(e) {
                    Some(
                        (
                            v2,
                            seq![RestartNote::CaptureInterrupted],
                            Some(CaptureRestartReason::CaptureStartInterrupted),
                        ),
                    )
                } else {
                    Some((v2, Seq::empty(), Some(CaptureRestartReason::CaptureProcessExited)))
                }
            },
        }
    }
}

/// Values of one tick derived from the observation and the settings.
#[derive(Debug, Clone, Copy, PartialEq, Eq, Structural)]
pub struct TickContext {
    pub in_startup_window: bool,
    pub battery_floor: usize,
    pub drop_delta: u64,
    pub overflow_delta: u64,
    pub save_suppressed: bool,
    pub freeze: bool,
    pub memory_soft: bool,
    pub memory_hard: bool,
    pub mem_critical: bool,
    pub thermal_critical: bool,
    pub soft_signal: bool,
    pub hard_signal: bool,
}

pub open spec fn sat_sub(a: u64, b: u64) -> u64 {
    if a >= b {
        (a - b) as u64
    } else {
        0
    }
}

#[verifier::opaque]
pub open spec fn spec_context(v: PolicyView, obs: RestartObservation, s: SettingsDto) -> TickContext {
    let soft_budget = spec_rss_soft_budget(s.video_resolution, s.fps) as int;
    let hard_budget = soft_budget + if s.fps >= 60 {
        140int
    } else {
        100int
    };
    let memory_soft = match obs.capture_stack_rss_delta_mb {
        Some(d) => d >= soft_budget,
        None => false,
    };
    let memory_hard = match obs.capture_stack_rss_delta_mb {
        Some(d) => d >= hard_budget,
        None => false,
    };
    TickContext {
        in_startup_window: within(obs.since_pipeline_start_ms, STARTUP_PERF_GUARD_MS),
        battery_floor: spec_battery_floor_index(
            s,
            obs.on_battery,
            s.battery_guard_enabled,
            s.battery_max_fps,
        ) as usize,
        drop_delta: sat_sub(obs.capture_dropped_frames, v.last_drop),
        overflow_delta: sat_sub(obs.capture_queue_overflows, v.last_overflow),
        save_suppressed: obs.is_saving || within(
            obs.since_save_start_ms,
            NON_CRITICAL_SAVE_RESTART_SUPPRESSION_MS,
        ),
        freeze: obs.current_session_has_stable_segment && within(
            obs.since_pipeline_start_ms,
            STARTUP_PROFILE_STABILIZATION_FREEZE_MS,
        ),
        memory_soft,
        memory_hard,
        mem_critical: is_level(opt_string(obs.system_memory_pressure_level), "critical"@),
        thermal_critical: is_level(opt_string(obs.thermal_state), "critical"@),
        soft_signal: memory_soft || obs.readings.cpu_soft_signal,
        hard_signal: memory_hard || obs.readings.cpu_hard_signal,
    }
}

pub open spec fn soft_window_pred(now: u64) -> spec_fn(u64) -> bool {
    |at: u64| elapsed(now, at) <= RESOURCE_SOFT_TRIGGER_WINDOW_MS
}

/// Resource pressure: a signal that holds past its hold time triggers; soft
/// triggers are remembered for 90 s, at most one per soft hold, and two of
/// them within that window count as hard. Returns the new state, the notes,
/// and whether soft and hard pressure triggered.
#[verifier::opaque]
pub open spec fn spec_pressure(v: PolicyView, ctx: TickContext, now: u64) -> (
    PolicyView,
    Seq<RestartNote>,
    bool,
    bool,
) {
    let soft_start = match v.soft_since {
        Some(x) => x,
        None => now,
    };
    let soft_since = if ctx.soft_signal {
        Some(soft_start)
    } else {
        None
    };
    let soft_trig = ctx.soft_signal && elapsed(now, soft_start) >= RESOURCE_SOFT_PRESSURE_HOLD_MS;
    let hard_on = ctx.hard_signal || ctx.mem_critical || ctx.thermal_critical;
    let hard_start = match v.hard_since {
        Some(x) => x,
        None => now,
    };
    let hard_since = if hard_on {
        Some(hard_start)
    } else {
        None
    };
    let hard_trig0 = hard_on && elapsed(now, hard_start) >= RESOURCE_HARD_PRESSURE_HOLD_MS;
    let kept = filter_seq(v.soft_history, soft_window_pred(now));
    let record = kept.len() == 0 || elapsed(now, kept.last()) >= RESOURCE_SOFT_PRESSURE_HOLD_MS;
    let hist = if !soft_trig {
        v.soft_history
    } else if record {
        kept.push(now)
    } else {
        kept
    };
    let hard_trig = hard_trig0 || (soft_trig && hist.len() >= RESOURCE_HARD_TRIGGER_REPEAT_COUNT);
    let notes = (if soft_trig {
        seq![RestartNote::ResourceSoftPressure]
    } else {
        Seq::empty()
    }) + (if hard_trig {
        seq![RestartNote::ResourceHardPressure]
    } else {
        Seq::empty()
    });
    (
        PolicyView {
            soft_since,
            hard_since,
            soft_history: hist,
            hard_pending: if hard_trig {
                v.hard_pending
            } else {
                false
            },
            ..v
        },
        notes,
        soft_trig,
        hard_trig,
    )
}

pub open spec fn push_if(codes: Seq<Seq<char>>, cond: bool, code: Seq<char>) -> Seq<Seq<char>> {
    if cond && !codes.contains(code) {
        codes.push(code)
    } else {
        codes
    }
}

/// Adds, in order, each code whose condition holds and that is not listed
/// yet.
pub open spec fn push_all(pairs: Seq<(bool, Seq<char>)>) -> Seq<Seq<char>>
    decreases pairs.len(),
{
    if pairs.len() == 0 {
        Seq::empty()
    } else {
        push_if(push_all(pairs.drop_last()), pairs.last().0, pairs.last().1)
    }
}

/// Each contributing condition of a tick with its reason code, in order.
pub open spec fn guard_code_pairs(
    g: ProfileGuardSignals,
    rd: SpeedReadings,
    ctx: TickContext,
    on_battery_floor: bool,
) -> Seq<(bool, Seq<char>)> {
    seq![
        (g.playback_realtime_low, "playback_realtime_low"@),
        (g.capture_speed_low, "capture_speed_low"@),
        (g.output_fps_under_target, "output_fps_low"@),
        (g.drop_trigger, "frame_drop_spike"@),
        (g.overflow_trigger, "queue_overflow_spike"@),
        (rd.cpu_soft_signal, "capture_stack_cpu_soft"@),
        (rd.cpu_hard_signal, "capture_stack_cpu_hard"@),
        (ctx.memory_soft, "capture_stack_rss_growth_soft"@),
        (ctx.memory_hard, "capture_stack_rss_growth_hard"@),
        (g.system_memory_pressure_warning, "system_memory_pressure_warning"@),
        (g.system_memory_pressure_critical, "system_memory_pressure_critical"@),
        (g.thermal_serious, "thermal_serious"@),
        (g.thermal_critical, "thermal_critical"@),
        (on_battery_floor, "on_battery"@),
    ]
}

/// The contributing reason codes of a tick, in a fixed order.
#[verifier::opaque]
pub open spec fn spec_guard_codes(
    g: ProfileGuardSignals,
    rd: SpeedReadings,
    ctx: TickContext,
    on_battery_floor: bool,
) -> Seq<Seq<char>> {
    push_all(guard_code_pairs(g, rd, ctx, on_battery_floor))
}

} // verus!

verus! {

/// The performance guard: under an overload signal it steps the profile down
/// (at once for an emergency, after 8 s of sustained overload otherwise),
/// unless the startup guards or, for a non-hard overload, a recent profile
/// change or save hold it back; with calm readings it steps back up after
/// the recovery hold. Returns the new state, the notes, the restart reason
/// if any, and whether the overload and recovery timers keep running.
#[verifier::opaque]
pub open spec fn spec_profile_guard(
    v: PolicyView,
    obs: RestartObservation,
    s: SettingsDto,
    ctx: TickContext,
    g: ProfileGuardSignals,
    hard_trig: bool,
) -> (PolicyView, Seq<RestartNote>, Option<CaptureRestartReason>, bool, bool) {
    let now = obs.now_ms;
    let idx = obs.current_profile_index;
    let stable = obs.current_session_has_stable_segment;
    let activity = obs.readings.speed_sample_present || g.output_fps_under_target || g.drop_trigger
        || g.overflow_trigger || ctx.soft_signal || ctx.hard_signal || obs.force_stepdown;
    let cooldown = within(obs.since_profile_change_ms, PROFILE_CHANGE_COOLDOWN_MS);
    let dwell = within(obs.since_profile_change_ms, PROFILE_CHANGE_DWELL_MS);
    let overload_signal = hard_trig || g.overload_signal_count >= g.overload_signal_requirement;
    let cleared = PolicyView { overload_since: None, recover_since: None, ..v };
    if !activity || !(s.quality_policy@ == "adaptive_recover"@ && s.performance_guard_enabled) {
        (cleared, Seq::empty(), None, false, false)
    } else if ctx.freeze {
        (cleared, Seq::empty(), None, false, false)
    } else if overload_signal {
        let started = match v.overload_since {
            Some(x) => x,
            None => now,
        };
        let v1 = PolicyView { recover_since: None, overload_since: Some(started), ..v };
        let v_off = PolicyView { overload_since: None, ..v1 };
        if !spec_can_step_down(s, idx as int) {
            (v_off, Seq::empty(), None, false, false)
        } else if ctx.in_startup_window && !stable && idx == 0 && !hard_trig {
            (
                v_off,
                seq![RestartNote::OverloadSuppressed { reason: GuardSuppression::StartupInitialGuard }],
                None,
                false,
                false,
            )
        } else if ctx.in_startup_window && idx >= 1 {
            (
                v_off,
                seq![RestartNote::OverloadSuppressed { reason: GuardSuppression::StartupStepdownGuard }],
                None,
                false,
                false,
            )
        } else {
            let emergency = g.speed_below_emergency || g.overflow_trigger || ctx.drop_delta
                >= OVERLOAD_DROP_EMERGENCY_DELTA_THRESHOLD || hard_trig;
            let sustained = stable && g.overload_signal_count
                >= g.sustained_overload_signal_requirement && elapsed(now, started)
                >= PLAYBACK_OVERLOAD_HOLD_MS;
            if emergency || sustained {
                let non_critical_blocked = dwell || cooldown || ctx.save_suppressed;
                if !(non_critical_blocked && !hard_trig) {
                    let kind = if hard_trig {
                        StepdownKind::ResourceHard
                    } else if emergency {
                        StepdownKind::Emergency
                    } else {
                        StepdownKind::Metric
                    };
                    let startup_hard = ctx.in_startup_window && !stable && idx == 0 && hard_trig;
                    (
                        PolicyView { hard_pending: hard_trig, ..v1 },
                        seq![RestartNote::OverloadStepdown { kind, startup_hard }],
                        Some(CaptureRestartReason::Overloaded),
                        true,
                        false,
                    )
                } else {
                    let reason = if dwell {
                        GuardSuppression::ProfileDwell
                    } else if cooldown {
                        GuardSuppression::ProfileCooldown
                    } else {
                        GuardSuppression::RecentSaveSuppression
                    };
                    (v1, seq![RestartNote::OverloadSuppressed { reason }], None, true, false)
                }
            } else {
                (v1, Seq::empty(), None, true, false)
            }
        }
    } else {
        let v1 = PolicyView { overload_since: None, ..v };
        if g.recovery_signal {
            let started = match v.recover_since {
                Some(x) => x,
                None => now,
            };
            let v2 = PolicyView { recover_since: Some(started), ..v1 };
            if idx > 0 && idx > ctx.battery_floor {
                let hold: int = if s.profile_recover_hold_secs == 0 {
                    PLAYBACK_RECOVER_HOLD_MS as int
                } else {
                    s.profile_recover_hold_secs as int * 1000
                };
                let sustained = elapsed(now, started) >= hold;
                if sustained && !(dwell || cooldown || ctx.save_suppressed) {
                    (
                        v2,
                        seq![RestartNote::RecoveryReady],
                        Some(CaptureRestartReason::ProfileRecovered),
                        false,
                        true,
                    )
                } else {
                    (v2, Seq::empty(), None, false, true)
                }
            } else {
                (PolicyView { recover_since: None, ..v2 }, Seq::empty(), None, false, false)
            }
        } else {
            (PolicyView { recover_since: None, ..v1 }, Seq::empty(), None, false, false)
        }
    }
}

/// The battery floor: a floor above the current profile, or a released floor
/// below an engaged one, that holds for the battery hold asks for a restart
/// on the new power source.
#[verifier::opaque]
pub open spec fn spec_battery(v: PolicyView, obs: RestartObservation, ctx: TickContext) -> (
    PolicyView,
    Seq<RestartNote>,
    Option<CaptureRestartReason>,
) {
    let now = obs.now_ms;
    let idx = obs.current_profile_index;
    let floor = ctx.battery_floor;
    let started = match v.battery_since {
        Some(x) => x,
        None => now,
    };
    let held = elapsed(now, started) >= BATTERY_FLOOR_HOLD_MS;
    if floor > idx || (idx > floor && obs.battery_floor_engaged) {
        if held {
            (
                PolicyView { battery_since: None, ..v },
                seq![
                    if floor > idx {
                        RestartNote::BatteryFloorEngaged
                    } else {
                        RestartNote::BatteryFloorReleased
                    },
                ],
                Some(CaptureRestartReason::PowerSourceChanged),
            )
        } else {
            (PolicyView { battery_since: Some(started), ..v }, Seq::empty(), None)
        }
    } else {
        (PolicyView { battery_since: None, ..v }, Seq::empty(), None)
    }
}

/// The stall threshold: five segment durations within 2.5 s and 6 s, and at
/// least 4.5 s during the first 14 s of a pipeline.
pub open spec fn spec_adjusted_stall_threshold(obs: RestartObservation, s: SettingsDto) -> u64 {
    let threshold = spec_segment_stall_threshold_ms(s.segment_time_ms) as u64;
    match obs.since_pipeline_start_ms {
        Some(e) => if e < POST_PIPELINE_START_GRACE_MS * 4 && threshold
            < STARTUP_NO_SEGMENTS_EXTRA_THRESHOLD_MS {
            STARTUP_NO_SEGMENTS_EXTRA_THRESHOLD_MS
        } else {
            threshold
        },
        None => threshold,
    }
}

/// Stalled segments: outside the grace periods after a pipeline or save
/// start, and once the session has a stable segment, a newest segment older
/// than the threshold (or none) is a miss; two misses in a row restart.
#[verifier::opaque]
pub open spec fn spec_no_segments(v: PolicyView, obs: RestartObservation, s: SettingsDto) -> (
    PolicyView,
    Seq<RestartNote>,
    Option<CaptureRestartReason>,
) {
    let pipeline_grace = within(obs.since_pipeline_start_ms, POST_PIPELINE_START_GRACE_MS);
    let save_grace = within(obs.since_save_start_ms, POST_SAVE_START_GRACE_MS);
    if pipeline_grace || save_grace || !obs.current_session_has_stable_segment {
        (PolicyView { miss: 0, ..v }, Seq::empty(), None)
    } else {
        let adjusted = spec_adjusted_stall_threshold(obs, s);
        let stalled = match obs.segment_age_ms {
            Some(a) => a > adjusted,
            None => true,
        };
        if stalled {
            let m: u8 = if v.miss == 255 {
                255
            } else {
                (v.miss + 1) as u8
            };
            let note = RestartNote::NoSegmentsMiss {
                segment_age_ms: obs.segment_age_ms,
                threshold_ms: adjusted,
                miss_count: m,
            };
            if m >= NO_SEGMENTS_MISS_REQUIRED {
                (
                    PolicyView { overload_since: None, recover_since: None, miss: 0, ..v },
                    seq![note],
                    Some(
                        CaptureRestartReason::NoSegments {
                            segment_age_ms: obs.segment_age_ms,
                            threshold_ms: adjusted,
                            miss_count: m,
                        },
                    ),
                )
            } else {
                (PolicyView { miss: m, ..v }, seq![note], None)
            }
        } else {
            (PolicyView { miss: 0, ..v }, Seq::empty(), None)
        }
    }
}

pub open spec fn spec_tick_signals(
    obs: RestartObservation,
    s: SettingsDto,
    ctx: TickContext,
) -> ProfileGuardSignals {
    spec_guard_signals(
        obs.readings,
        ctx.drop_delta,
        ctx.overflow_delta,
        ctx.soft_signal,
        ctx.hard_signal || obs.force_stepdown,
        opt_string(obs.system_memory_pressure_level),
        opt_string(obs.thermal_state),
        s.quality_preference@,
    )
}

/// One tick of the restart policy: the new state, the notes in order, and
/// the restart reason, if a restart is needed.
pub open spec fn spec_restart_tick(v: PolicyView, obs: RestartObservation, s: SettingsDto) -> (
    PolicyView,
    Seq<RestartNote>,
    Option<CaptureRestartReason>,
) {
    match spec_gate(v, obs) {
        Some(t) => t,
        None => {
            let now = obs.now_ms;
            let ctx = spec_context(v, obs, s);
            let v1 = PolicyView {
                last_drop: obs.capture_dropped_frames,
                last_overflow: obs.capture_queue_overflows,
                ..v
            };
            let (v2, n2, soft_trig, hard_trig1) = spec_pressure(v1, ctx, now);
            let hard_trig = hard_trig1 || obs.force_stepdown;
            let g = spec_tick_signals(obs, s, ctx);
            let hold = !ctx.in_startup_window && obs.current_profile_index == 0 && !v2.hold_logged;
            let v3 = if hold {
                PolicyView { hold_logged: true, ..v2 }
            } else {
                v2
            };
            let n3 = n2 + if hold {
                seq![RestartNote::StartupRequestedProfileHeld]
            } else {
                Seq::empty()
            };
            let (v4, n4, r4, keep_o, keep_r) = spec_profile_guard(v3, obs, s, ctx, g, hard_trig);
            if r4 is Some {
                (v4, n3 + n4, r4)
            } else {
                let (v5, n5, r5) = spec_battery(v4, obs, ctx);
                if r5 is Some {
                    (v5, n3 + n4 + n5, r5)
                } else {
                    let (v6, n6, r6) = spec_no_segments(v5, obs, s);
                    if r6 is Some {
                        (v6, n3 + n4 + n5 + n6, r6)
                    } else {
                        (
                            PolicyView {
                                overload_since: if keep_o {
                                    v6.overload_since
                                } else {
                                    None
                                },
                                recover_since: if keep_r {
                                    v6.recover_since
                                } else {
                                    None
                                },
                                ..v6
                            },
                            n3 + n4 + n5 + n6,
                            None,
                        )
                    }
                }
            }
        },
    }
}

} // verus!

verus! {

fn opt_u64_within(o: Option<u64>, limit: u64) -> (r: bool)
    ensures
        r == within(o, limit),
{
    match o {
        Some(e) => e < limit,
        None => false,
    }
}

fn elapsed_exec(now: u64, since: u64) -> (r: u64)
    ensures
        r as int == elapsed(now, since),
{
    if now >= since {
        now - since
    } else {
        0
    }
}

fn opt_string_level(o: &Option<String>, level: &str) -> (r: bool)
    ensures
        r == is_level(opt_string(*o), level@),
{
    match o {
        Some(s) => str_eq(s.as_str(), level),
        None => false,
    }
}

fn opt_string_as_str(o: &Option<String>) -> (r: Option<&str>)
    ensures
        opt_str(r) == opt_string(*o),
{
    match o {
        Some(s) => Some(s.as_str()),
        None => None,
    }
}

impl RestartPolicy {
    fn gate(&mut self, obs: &RestartObservation, notes: &mut Vec<RestartNote>) -> (r: Option<
        Option<CaptureRestartReason>,
    >)
        ensures
            match spec_gate(old(self).view(), *obs) {
                Some((v, n, rr)) => r == Some(rr) && final(self).view() == v && final(notes)@
                    == old(notes)@ + n,
                None => r is None && final(self).view() == old(self).view() && final(notes)@
                    == old(notes)@,
            },
    {
        proof {
            reveal(spec_gate);
        }
        let running = obs.lifecycle_state == LifecycleState::Armed || obs.lifecycle_state
            == LifecycleState::SavingReplay;
        if obs.capture_paused || !running {
            self.no_segments_miss_count = 0;
            self.resource_soft_pressure_since_ms = None;
            self.resource_hard_pressure_since_ms = None;
            assert(old(notes)@ + Seq::<RestartNote>::empty() =~= old(notes)@);
            return Some(None);
        }
        if !obs.pipeline_present {
            self.no_segments_miss_count = 0;
            assert(old(notes)@ + Seq::<RestartNote>::empty() =~= old(notes)@);
            return Some(Some(CaptureRestartReason::MissingPipeline));
        }
        if obs.display_changed {
            assert(old(notes)@ + Seq::<RestartNote>::empty() =~= old(notes)@);
            return Some(Some(CaptureRestartReason::DisplayChanged));
        }
        match &obs.last_error {
            None => None,
            Some(e) => {
                self.overload_since_ms = None;
                self.recover_since_ms = None;
                self.no_segments_miss_count = 0;
                assert(old(notes)@ + Seq::<RestartNote>::empty() =~= old(notes)@);
                if is_user_stopped_sharing_error(e.as_str()) {
                    return Some(Some(CaptureRestartReason::UserStoppedSharing));
                }
                if is_capture_start_interrupted_error(e.as_str()) {
                    notes.push(RestartNote::CaptureInterrupted);
                    assert(final(notes)@ =~= old(notes)@ + seq![RestartNote::CaptureInterrupted]);
                    return Some(Some(CaptureRestartReason::CaptureStartInterrupted));
                }
                Some(Some(CaptureRestartReason::CaptureProcessExited))
            },
        }
    }

    fn context(&self, obs: &RestartObservation, settings: &SettingsDto) -> (r: TickContext)
        ensures
            r == spec_context(self.view(), *obs, *settings),
    {
        proof {
            reveal(spec_context);
        }
        let soft_budget = capture_stack_rss_delta_soft_budget_mb(
            settings.video_resolution,
            settings.fps,
        );
        let hard_budget = capture_stack_rss_delta_hard_budget_mb(
            settings.video_resolution,
            settings.fps,
        );
        let memory_soft = match obs.capture_stack_rss_delta_mb {
            Some(d) => d >= soft_budget,
            None => false,
        };
        let memory_hard = match obs.capture_stack_rss_delta_mb {
            Some(d) => d >= hard_budget,
            None => false,
        };
        let drop_delta = if obs.capture_dropped_frames >= self.last_drop_total {
            obs.capture_dropped_frames - self.last_drop_total
        } else {
            0
        };
        let overflow_delta = if obs.capture_queue_overflows >= self.last_overflow_total {
            obs.capture_queue_overflows - self.last_overflow_total
        } else {
            0
        };
        TickContext {
            in_startup_window: opt_u64_within(obs.since_pipeline_start_ms, STARTUP_PERF_GUARD_MS),
            battery_floor: battery_floor_index(
                settings,
                obs.on_battery,
                settings.battery_guard_enabled,
                settings.battery_max_fps,
            ),
            drop_delta,
            overflow_delta,
            save_suppressed: obs.is_saving || opt_u64_within(
                obs.since_save_start_ms,
                NON_CRITICAL_SAVE_RESTART_SUPPRESSION_MS,
            ),
            freeze: obs.current_session_has_stable_segment && opt_u64_within(
                obs.since_pipeline_start_ms,
                STARTUP_PROFILE_STABILIZATION_FREEZE_MS,
            ),
            memory_soft,
            memory_hard,
            mem_critical: opt_string_level(&obs.system_memory_pressure_level, "critical"),
            thermal_critical: opt_string_level(&obs.thermal_state, "critical"),
            soft_signal: memory_soft || obs.readings.cpu_soft_signal,
            hard_signal: memory_hard || obs.readings.cpu_hard_signal,
        }
    }

    fn pressure(&mut self, ctx: TickContext, now: u64, notes: &mut Vec<RestartNote>) -> (r: (
        bool,
        bool,
    ))
        ensures
            ({
                let (v, n, st, ht) = spec_pressure(old(self).view(), ctx, now);
                &&& final(self).view() == v
                &&& final(notes)@ == old(notes)@ + n
                &&& r == (st, ht)
            }),
    {
        proof {
            reveal(spec_pressure);
        }
        let soft_start = match self.resource_soft_pressure_since_ms {
            Some(x) => x,
            None => now,
        };
        let soft_trig = if ctx.soft_signal {
            self.resource_soft_pressure_since_ms = Some(soft_start);
            elapsed_exec(now, soft_start) >= RESOURCE_SOFT_PRESSURE_HOLD_MS
        } else {
            self.resource_soft_pressure_since_ms = None;
            false
        };
        let hard_on = ctx.hard_signal || ctx.mem_critical || ctx.thermal_critical;
        let hard_start = match self.resource_hard_pressure_since_ms {
            Some(x) => x,
            None => now,
        };
        let mut hard_trig = if hard_on {
            self.resource_hard_pressure_since_ms = Some(hard_start);
            elapsed_exec(now, hard_start) >= RESOURCE_HARD_PRESSURE_HOLD_MS
        } else {
            self.resource_hard_pressure_since_ms = None;
            false
        };
        if soft_trig {
            let ghost f = soft_window_pred(now);
            let ghost old_hist = self.resource_soft_trigger_history@;
            let mut kept: Vec<u64> = Vec::new();
            let mut i: usize = 0;
            assert(old_hist.take(0) =~= Seq::<u64>::empty());
            while i < self.resource_soft_trigger_history.len()
                invariant
                    i <= self.resource_soft_trigger_history.len(),
                    old_hist == self.resource_soft_trigger_history@,
                    f == soft_window_pred(now),
                    kept@ == filter_seq(old_hist.take(i as int), f),
                decreases self.resource_soft_trigger_history.len() - i,
            {
                let at = self.resource_soft_trigger_history[i];
                proof {
                    lemma_filter_step(old_hist, f, i as int);
                }
                if elapsed_exec(now, at) <= RESOURCE_SOFT_TRIGGER_WINDOW_MS {
                    kept.push(at);
                }
                i = i + 1;
            }
            assert(old_hist.take(old_hist.len() as int) =~= old_hist);
            let record = kept.len() == 0 || elapsed_exec(now, kept[kept.len() - 1])
                >= RESOURCE_SOFT_PRESSURE_HOLD_MS;
            if record {
                kept.push(now);
            }
            self.resource_soft_trigger_history = kept;
            if self.resource_soft_trigger_history.len() >= RESOURCE_HARD_TRIGGER_REPEAT_COUNT {
                hard_trig = true;
            }
        }
        if soft_trig {
            notes.push(RestartNote::ResourceSoftPressure);
        }
        if hard_trig {
            notes.push(RestartNote::ResourceHardPressure);
        } else {
            self.resource_hard_stepdown_pending = false;
        }
        proof {
            let (v, n, st, ht) = spec_pressure(old(self).view(), ctx, now);
            assert(final(notes)@ =~= old(notes)@ + n);
            assert(final(self).view() =~= v);
        }
        (soft_trig, hard_trig)
    }
}

} // verus!

verus! {

impl RestartPolicy {
    fn profile_guard(
        &mut self,
        obs: &RestartObservation,
        settings: &SettingsDto,
        ctx: TickContext,
        g: ProfileGuardSignals,
        hard_trig: bool,
        notes: &mut Vec<RestartNote>,
    ) -> (r: (Option<CaptureRestartReason>, bool, bool))
        ensures
            ({
                let (v, n, rr, ko, kr) = spec_profile_guard(
                    old(self).view(),
                    *obs,
                    *settings,
                    ctx,
                    g,
                    hard_trig,
                );
                &&& final(self).view() == v
                &&& final(notes)@ == old(notes)@ + n
                &&& r == (rr, ko, kr)
            }),
    {
        proof {
            reveal(spec_profile_guard);
        }
        let now = obs.now_ms;
        let idx = obs.current_profile_index;
        let stable = obs.current_session_has_stable_segment;
        let activity = obs.readings.speed_sample_present || g.output_fps_under_target
            || g.drop_trigger || g.overflow_trigger || ctx.soft_signal || ctx.hard_signal
            || obs.force_stepdown;
        let cooldown = opt_u64_within(obs.since_profile_change_ms, PROFILE_CHANGE_COOLDOWN_MS);
        let dwell = opt_u64_within(obs.since_profile_change_ms, PROFILE_CHANGE_DWELL_MS);
        let overload_signal = hard_trig || g.overload_signal_count >= g.overload_signal_requirement;
        let adaptive = str_eq(settings.quality_policy.as_str(), "adaptive_recover")
            && settings.performance_guard_enabled;
        assert(old(notes)@ + Seq::<RestartNote>::empty() =~= old(notes)@);
        if !activity || !adaptive || ctx.freeze {
            self.overload_since_ms = None;
            self.recover_since_ms = None;
            return (None, false, false);
        }
        if overload_signal {
            let started = match self.overload_since_ms {
                Some(x) => x,
                None => now,
            };
            self.recover_since_ms = None;
            self.overload_since_ms = Some(started);
            if !can_step_down_profile(settings, idx) {
                self.overload_since_ms = None;
                return (None, false, false);
            }
            if ctx.in_startup_window && !stable && idx == 0 && !hard_trig {
                self.overload_since_ms = None;
                notes.push(
                    RestartNote::OverloadSuppressed { reason: GuardSuppression::StartupInitialGuard },
                );
                return (None, false, false);
            }
            if ctx.in_startup_window && idx >= 1 {
                self.overload_since_ms = None;
                notes.push(
                    RestartNote::OverloadSuppressed { reason: GuardSuppression::StartupStepdownGuard },
                );
                return (None, false, false);
            }
            let emergency = g.speed_below_emergency || g.overflow_trigger || ctx.drop_delta
                >= OVERLOAD_DROP_EMERGENCY_DELTA_THRESHOLD || hard_trig;
            let sustained = stable && g.overload_signal_count
                >= g.sustained_overload_signal_requirement && elapsed_exec(now, started)
                >= PLAYBACK_OVERLOAD_HOLD_MS;
            if emergency || sustained {
                let non_critical_blocked = dwell || cooldown || ctx.save_suppressed;
                if !(non_critical_blocked && !hard_trig) {
                    self.resource_hard_stepdown_pending = hard_trig;
                    let kind = if hard_trig {
                        StepdownKind::ResourceHard
                    } else if emergency {
                        StepdownKind::Emergency
                    } else {
                        StepdownKind::Metric
                    };
                    let startup_hard = ctx.in_startup_window && !stable && idx == 0 && hard_trig;
                    notes.push(RestartNote::OverloadStepdown { kind, startup_hard });
                    return (Some(CaptureRestartReason::Overloaded), true, false);
                }
                let reason = if dwell {
                    GuardSuppression::ProfileDwell
                } else if cooldown {
                    GuardSuppression::ProfileCooldown
                } else {
                    GuardSuppression::RecentSaveSuppression
                };
                notes.push(RestartNote::OverloadSuppressed { reason });
            }
            return (None, true, false);
        }
        self.overload_since_ms = None;
        if g.recovery_signal {
            let started = match self.recover_since_ms {
                Some(x) => x,
                None => now,
            };
            self.recover_since_ms = Some(started);
            if idx > 0 && idx > ctx.battery_floor {
                let hold: u64 = if settings.profile_recover_hold_secs == 0 {
                    PLAYBACK_RECOVER_HOLD_MS
                } else {
                    settings.profile_recover_hold_secs as u64 * 1000
                };
                let sustained = elapsed_exec(now, started) >= hold;
                if sustained && !(dwell || cooldown || ctx.save_suppressed) {
                    notes.push(RestartNote::RecoveryReady);
                    return (Some(CaptureRestartReason::ProfileRecovered), false, true);
                }
                return (None, false, true);
            }
            self.recover_since_ms = None;
            return (None, false, false);
        }
        self.recover_since_ms = None;
        (None, false, false)
    }

    fn battery(
        &mut self,
        obs: &RestartObservation,
        ctx: TickContext,
        notes: &mut Vec<RestartNote>,
    ) -> (r: Option<CaptureRestartReason>)
        ensures
            ({
                let (v, n, rr) = spec_battery(old(self).view(), *obs, ctx);
                &&& final(self).view() == v
                &&& final(notes)@ == old(notes)@ + n
                &&& r == rr
            }),
    {
        proof {
            reveal(spec_battery);
        }
        let now = obs.now_ms;
        let idx = obs.current_profile_index;
        let floor = ctx.battery_floor;
        let started = match self.battery_floor_since_ms {
            Some(x) => x,
            None => now,
        };
        assert(old(notes)@ + Seq::<RestartNote>::empty() =~= old(notes)@);
        if floor > idx || (idx > floor && obs.battery_floor_engaged) {
            if elapsed_exec(now, started) >= BATTERY_FLOOR_HOLD_MS {
                self.battery_floor_since_ms = None;
                let note = if floor > idx {
                    RestartNote::BatteryFloorEngaged
                } else {
                    RestartNote::BatteryFloorReleased
                };
                notes.push(note);
                assert(final(notes)@ =~= old(notes)@ + seq![note]);
                return Some(CaptureRestartReason::PowerSourceChanged);
            }
            self.battery_floor_since_ms = Some(started);
            return None;
        }
        self.battery_floor_since_ms = None;
        None
    }

    fn no_segments(
        &mut self,
        obs: &RestartObservation,
        settings: &SettingsDto,
        notes: &mut Vec<RestartNote>,
    ) -> (r: Option<CaptureRestartReason>)
        ensures
            ({
                let (v, n, rr) = spec_no_segments(old(self).view(), *obs, *settings);
                &&& final(self).view() == v
                &&& final(notes)@ == old(notes)@ + n
                &&& r == rr
            }),
    {
        proof {
            reveal(spec_no_segments);
        }
        assert(old(notes)@ + Seq::<RestartNote>::empty() =~= old(notes)@);
        let pipeline_grace = opt_u64_within(obs.since_pipeline_start_ms, POST_PIPELINE_START_GRACE_MS);
        let save_grace = opt_u64_within(obs.since_save_start_ms, POST_SAVE_START_GRACE_MS);
        if pipeline_grace || save_grace || !obs.current_session_has_stable_segment {
            self.no_segments_miss_count = 0;
            return None;
        }
        let threshold = segment_stall_threshold_ms(settings.segment_time_ms);
        let adjusted = match obs.since_pipeline_start_ms {
            Some(e) => {
                if e < POST_PIPELINE_START_GRACE_MS * 4 && threshold
                    < STARTUP_NO_SEGMENTS_EXTRA_THRESHOLD_MS {
                    STARTUP_NO_SEGMENTS_EXTRA_THRESHOLD_MS
                } else {
                    threshold
                }
            },
            None => threshold,
        };
        let stalled = match obs.segment_age_ms {
            Some(a) => a > adjusted,
            None => true,
        };
        if !stalled {
            self.no_segments_miss_count = 0;
            return None;
        }
        let m: u8 = if self.no_segments_miss_count == 255 {
            255
        } else {
            self.no_segments_miss_count + 1
        };
        let note = RestartNote::NoSegmentsMiss {
            segment_age_ms: obs.segment_age_ms,
            threshold_ms: adjusted,
            miss_count: m,
        };
        notes.push(note);
        assert(final(notes)@ =~= old(notes)@ + seq![note]);
        if m >= NO_SEGMENTS_MISS_REQUIRED {
            self.overload_since_ms = None;
            self.recover_since_ms = None;
            self.no_segments_miss_count = 0;
            return Some(
                CaptureRestartReason::NoSegments {
                    segment_age_ms: obs.segment_age_ms,
                    threshold_ms: adjusted,
                    miss_count: m,
                },
            );
        }
        self.no_segments_miss_count = m;
        None
    }
}

} // verus!

verus! {

/// The contributing reason codes of a tick, in their fixed order.
pub fn guard_reason_codes(
    g: &ProfileGuardSignals,
    readings: &SpeedReadings,
    ctx: &TickContext,
    on_battery_floor: bool,
) -> (r: Vec<String>)
    ensures
        texts(r@) == spec_guard_codes(*g, *readings, *ctx, on_battery_floor),
{
    proof {
        reveal(spec_guard_codes);
    }
    let ghost pairs = guard_code_pairs(*g, *readings, *ctx, on_battery_floor);
    let conds = vec![
        g.playback_realtime_low,
        g.capture_speed_low,
        g.output_fps_under_target,
        g.drop_trigger,
        g.overflow_trigger,
        readings.cpu_soft_signal,
        readings.cpu_hard_signal,
        ctx.memory_soft,
        ctx.memory_hard,
        g.system_memory_pressure_warning,
        g.system_memory_pressure_critical,
        g.thermal_serious,
        g.thermal_critical,
        on_battery_floor,
    ];
    let names = vec![
        "playback_realtime_low",
        "capture_speed_low",
        "output_fps_low",
        "frame_drop_spike",
        "queue_overflow_spike",
        "capture_stack_cpu_soft",
        "capture_stack_cpu_hard",
        "capture_stack_rss_growth_soft",
        "capture_stack_rss_growth_hard",
        "system_memory_pressure_warning",
        "system_memory_pressure_critical",
        "thermal_serious",
        "thermal_critical",
        "on_battery",
    ];
    assert forall|k: int| 0 <= k < 14 implies conds@[k] == pairs[k].0 && names@[k]@ == pairs[k].1 by {
        assert(names@[k] == [
            "playback_realtime_low",
            "capture_speed_low",
            "output_fps_low",
            "frame_drop_spike",
            "queue_overflow_spike",
            "capture_stack_cpu_soft",
            "capture_stack_cpu_hard",
            "capture_stack_rss_growth_soft",
            "capture_stack_rss_growth_hard",
            "system_memory_pressure_warning",
            "system_memory_pressure_critical",
            "thermal_serious",
            "thermal_critical",
            "on_battery",
        ]@[k]);
    }
    let mut codes: Vec<String> = Vec::new();
    let mut i: usize = 0;
    assert(pairs.take(0) =~= Seq::<(bool, Seq<char>)>::empty());
    assert(texts(codes@) =~= Seq::<Seq<char>>::empty());
    while i < 14
        invariant
            i <= 14,
            conds@.len() == 14,
            names@.len() == 14,
            pairs.len() == 14,
            forall|k: int| 0 <= k < 14 ==> conds@[k] == pairs[k].0 && names@[k]@ == pairs[k].1,
            texts(codes@) == push_all(pairs.take(i as int)),
        decreases 14 - i,
    {
        proof {
            assert(pairs.take(i + 1).drop_last() =~= pairs.take(i as int));
            assert(pairs.take(i + 1).last() == pairs[i as int]);
        }
        push_guard_reason(&mut codes, conds[i], names[i]);
        i = i + 1;
    }
    assert(pairs.take(14) =~= pairs);
    codes
}

/// A tick's decision: the restart reason if any, the notes in order, and the
/// guard's reason codes (none when the tick ended before the guard ran).
pub struct RestartDecision {
    pub reason: Option<CaptureRestartReason>,
    pub notes: Vec<RestartNote>,
    pub primary_reason_code: Option<String>,
    pub contributing_reason_codes: Vec<String>,
}

impl RestartPolicy {
    /// One tick: whether the capture must restart, and why; the guard's
    /// timers and counters move on as `spec_restart_tick` says.
    #[verifier::rlimit(40)]
    pub fn restart_reason_if_needed(&mut self, settings: &SettingsDto, obs: &RestartObservation) -> (r:
        RestartDecision)
        ensures
            ({
                let (v, n, rr) = spec_restart_tick(old(self).view(), *obs, *settings);
                &&& final(self).view() == v
                &&& r.notes@ == n
                &&& r.reason == rr
            }),
            spec_gate(old(self).view(), *obs) is Some ==> r.contributing_reason_codes@.len() == 0
                && r.primary_reason_code is None,
            spec_gate(old(self).view(), *obs) is None ==> ({
                let ctx = spec_context(old(self).view(), *obs, *settings);
                let codes = spec_guard_codes(
                    spec_tick_signals(*obs, *settings, ctx),
                    obs.readings,
                    ctx,
                    obs.on_battery && ctx.battery_floor > 0,
                );
                &&& texts(r.contributing_reason_codes@) == codes
                &&& match spec_primary_guard_reason(codes) {
                    Some(c) => r.primary_reason_code matches Some(p) && p@ == c,
                    None => r.primary_reason_code is None,
                }
            }),
    {
        let mut notes: Vec<RestartNote> = Vec::new();
        match self.gate(obs, &mut notes) {
            Some(reason) => {
                proof {
                    let (gv, gn, gr) = spec_gate(old(self).view(), *obs)->0;
                    assert(notes@ =~= gn);
                }
                return RestartDecision {
                    reason,
                    notes,
                    primary_reason_code: None,
                    contributing_reason_codes: Vec::new(),
                };
            },
            None => {},
        }
        let ghost v0 = self.view();
        let now = obs.now_ms;
        let ctx = self.context(obs, settings);
        self.last_drop_total = obs.capture_dropped_frames;
        self.last_overflow_total = obs.capture_queue_overflows;
        let (_soft_trig, hard_trig1) = self.pressure(ctx, now, &mut notes);
        let hard_trig = hard_trig1 || obs.force_stepdown;
        let g = evaluate_profile_guard_signals(
            &obs.readings,
            ctx.drop_delta,
            ctx.overflow_delta,
            ctx.soft_signal,
            ctx.hard_signal || obs.force_stepdown,
            opt_string_as_str(&obs.system_memory_pressure_level),
            opt_string_as_str(&obs.thermal_state),
            settings.quality_preference.as_str(),
        );
        let codes = guard_reason_codes(
            &g,
            &obs.readings,
            &ctx,
            obs.on_battery && ctx.battery_floor > 0,
        );
        let primary = select_primary_guard_reason_code(&codes);
        let hold = !ctx.in_startup_window && obs.current_profile_index == 0
            && !self.startup_requested_profile_hold_logged;
        if hold {
            self.startup_requested_profile_hold_logged = true;
            notes.push(RestartNote::StartupRequestedProfileHeld);
        }
        let ghost n3 = notes@;
        let (r4, keep_o, keep_r) = self.profile_guard(obs, settings, ctx, g, hard_trig, &mut notes);
        let mut reason = r4;
        if reason.is_none() {
            reason = self.battery(obs, ctx, &mut notes);
            if reason.is_none() {
                reason = self.no_segments(obs, settings, &mut notes);
                if reason.is_none() {
                    if !keep_o {
                        self.overload_since_ms = None;
                    }
                    if !keep_r {
                        self.recover_since_ms = None;
                    }
                }
            }
        }
        proof {
            let (v, n, rr) = spec_restart_tick(v0, *obs, *settings);
            assert(final(self).view() =~= v);
            assert(notes@ =~= n);
        }
        RestartDecision {
            reason,
            notes,
            primary_reason_code: primary,
            contributing_reason_codes: codes,
        }
    }
}

} // verus!

verus! {

/// A capture the user paused, or an engine not armed, is never restarted:
/// the tick gives no reason and no note, and clears the stall counter and
/// the resource-pressure timers.
pub proof fn paused_capture_is_never_restarted(v: PolicyView, obs: RestartObservation, s: SettingsDto)
    requires
        obs.capture_paused || !(obs.lifecycle_state == LifecycleState::Armed
            || obs.lifecycle_state == LifecycleState::SavingReplay),
    ensures
        spec_restart_tick(v, obs, s).2 is None,
        spec_restart_tick(v, obs, s).1.len() == 0,
        spec_restart_tick(v, obs, s).0.miss == 0,
        spec_restart_tick(v, obs, s).0.soft_since is None,
        spec_restart_tick(v, obs, s).0.hard_since is None,
{
    reveal(spec_gate);
}

/// An error of a running capture always restarts it: a stopped share, an
/// interrupted start, or else an exited capture process.
pub proof fn capture_error_always_restarts(v: PolicyView, obs: RestartObservation, s: SettingsDto)
    requires
        !obs.capture_paused,
        obs.lifecycle_state == LifecycleState::Armed || obs.lifecycle_state
            == LifecycleState::SavingReplay,
        obs.pipeline_present,
        !obs.display_changed,
        obs.last_error is Some,
    ensures
        spec_restart_tick(v, obs, s).2 == Some(CaptureRestartReason::UserStoppedSharing)
            || spec_restart_tick(v, obs, s).2 == Some(CaptureRestartReason::CaptureStartInterrupted)
            || spec_restart_tick(v, obs, s).2 == Some(CaptureRestartReason::CaptureProcessExited),
{
    reveal(spec_gate);
}

/// While the session's first stable segment is under 30 s old, the guard
/// neither steps the profile down nor up.
pub proof fn no_profile_change_during_startup_freeze(
    v: PolicyView,
    obs: RestartObservation,
    s: SettingsDto,
)
    requires
        obs.current_session_has_stable_segment,
        within(obs.since_pipeline_start_ms, STARTUP_PROFILE_STABILIZATION_FREEZE_MS),
    ensures
        spec_restart_tick(v, obs, s).2 != Some(CaptureRestartReason::Overloaded),
        spec_restart_tick(v, obs, s).2 != Some(CaptureRestartReason::ProfileRecovered),
{
    reveal(spec_gate);
    reveal(spec_context);
    reveal(spec_profile_guard);
    reveal(spec_battery);
    reveal(spec_no_segments);
}

/// A running capture: not paused, armed, with its pipeline present, on the
/// same display and without a capture error.
pub open spec fn capture_running(obs: RestartObservation) -> bool {
    &&& !obs.capture_paused
    &&& obs.lifecycle_state == LifecycleState::Armed || obs.lifecycle_state
        == LifecycleState::SavingReplay
    &&& obs.pipeline_present
    &&& !obs.display_changed
    &&& obs.last_error is None
}

/// The battery floor index that the settings give for the observed power
/// source.
pub open spec fn observed_battery_floor(obs: RestartObservation, s: SettingsDto) -> int {
    spec_battery_floor_index(s, obs.on_battery, s.battery_guard_enabled, s.battery_max_fps)
}

/// On a running capture, a battery floor above the current profile that has
/// been in force since at least the battery hold ago restarts the capture on
/// the new power source with the floor engaged, unless the performance guard
/// restarts it on this tick first.
pub proof fn held_battery_floor_restarts_capture(
    v: PolicyView,
    obs: RestartObservation,
    s: SettingsDto,
    since: u64,
)
    requires
        capture_running(obs),
        observed_battery_floor(obs, s) > obs.current_profile_index as int,
        v.battery_since == Some(since),
        obs.now_ms as int >= since as int + BATTERY_FLOOR_HOLD_MS as int,
    ensures
        spec_restart_tick(v, obs, s).2 == Some(CaptureRestartReason::PowerSourceChanged)
            || spec_restart_tick(v, obs, s).2 == Some(CaptureRestartReason::Overloaded)
            || spec_restart_tick(v, obs, s).2 == Some(CaptureRestartReason::ProfileRecovered),
        spec_restart_tick(v, obs, s).2 == Some(CaptureRestartReason::PowerSourceChanged) ==> {
            &&& spec_restart_tick(v, obs, s).1.len() > 0
            &&& spec_restart_tick(v, obs, s).1.last() == RestartNote::BatteryFloorEngaged
            &&& spec_restart_tick(v, obs, s).0.battery_since is None
        },
{
    reveal(spec_gate);
    reveal(spec_context);
    reveal(spec_pressure);
    reveal(spec_profile_guard);
    reveal(spec_battery);
    let ctx = spec_context(v, obs, s);
    assert(ctx.battery_floor as int == observed_battery_floor(obs, s));
}

/// On a running capture whose battery floor is engaged, a floor that has
/// stayed below the current profile for the battery hold releases it: the
/// capture restarts on the new power source with the floor released, unless
/// the performance guard restarts it on this tick first.
pub proof fn held_battery_release_restarts_capture(
    v: PolicyView,
    obs: RestartObservation,
    s: SettingsDto,
    since: u64,
)
    requires
        capture_running(obs),
        obs.battery_floor_engaged,
        observed_battery_floor(obs, s) < obs.current_profile_index as int,
        v.battery_since == Some(since),
        obs.now_ms as int >= since as int + BATTERY_FLOOR_HOLD_MS as int,
    ensures
        spec_restart_tick(v, obs, s).2 == Some(CaptureRestartReason::PowerSourceChanged)
            || spec_restart_tick(v, obs, s).2 == Some(CaptureRestartReason::Overloaded)
            || spec_restart_tick(v, obs, s).2 == Some(CaptureRestartReason::ProfileRecovered),
        spec_restart_tick(v, obs, s).2 == Some(CaptureRestartReason::PowerSourceChanged) ==> {
            &&& spec_restart_tick(v, obs, s).1.len() > 0
            &&& spec_restart_tick(v, obs, s).1.last() == RestartNote::BatteryFloorReleased
            &&& spec_restart_tick(v, obs, s).0.battery_since is None
        },
{
    reveal(spec_gate);
    reveal(spec_context);
    reveal(spec_pressure);
    reveal(spec_profile_guard);
    reveal(spec_battery);
    let ctx = spec_context(v, obs, s);
    assert(ctx.battery_floor as int == observed_battery_floor(obs, s));
}

/// A restart for a new power source only comes once the battery floor has
/// differed from the current profile (above it, or below an engaged floor)
/// for the battery hold, counted from the tick that first saw it.
pub proof fn power_restart_needs_held_floor(v: PolicyView, obs: RestartObservation, s: SettingsDto)
    ensures
        spec_restart_tick(v, obs, s).2 == Some(CaptureRestartReason::PowerSourceChanged) ==> {
            &&& observed_battery_floor(obs, s) > obs.current_profile_index as int || (
            observed_battery_floor(obs, s) < obs.current_profile_index as int
                && obs.battery_floor_engaged)
            &&& v.battery_since matches Some(t) && obs.now_ms as int >= t as int
                + BATTERY_FLOOR_HOLD_MS as int
        },
{
    reveal(spec_gate);
    reveal(spec_context);
    reveal(spec_pressure);
    reveal(spec_profile_guard);
    reveal(spec_battery);
    reveal(spec_no_segments);
    let ctx = spec_context(v, obs, s);
    assert(ctx.battery_floor as int == observed_battery_floor(obs, s));
}

/// A battery floor that rises above the current profile is remembered: a
/// tick on a running capture that does not restart keeps the moment the
/// floor was first seen, and a later tick at least the battery hold after it,
/// with the floor still above the profile, restarts the capture on the new
/// power source (or for the performance guard, which comes first).
pub proof fn battery_floor_restarts_after_hold(
    v: PolicyView,
    first: RestartObservation,
    second: RestartObservation,
    s: SettingsDto,
)
    requires
        capture_running(first),
        capture_running(second),
        observed_battery_floor(first, s) > first.current_profile_index as int,
        observed_battery_floor(second, s) > second.current_profile_index as int,
        v.battery_since is None,
        spec_restart_tick(v, first, s).2 is None,
        second.now_ms as int >= first.now_ms as int + BATTERY_FLOOR_HOLD_MS as int,
    ensures
        spec_restart_tick(v, first, s).0.battery_since == Some(first.now_ms),
        spec_restart_tick(spec_restart_tick(v, first, s).0, second, s).2 == Some(
            CaptureRestartReason::PowerSourceChanged,
        ) || spec_restart_tick(spec_restart_tick(v, first, s).0, second, s).2 == Some(
            CaptureRestartReason::Overloaded,
        ) || spec_restart_tick(spec_restart_tick(v, first, s).0, second, s).2 == Some(
            CaptureRestartReason::ProfileRecovered,
        ),
{
    reveal(spec_gate);
    reveal(spec_context);
    reveal(spec_pressure);
    reveal(spec_profile_guard);
    reveal(spec_battery);
    reveal(spec_no_segments);
    let ctx = spec_context(v, first, s);
    assert(ctx.battery_floor as int == observed_battery_floor(first, s));
    let v1 = spec_restart_tick(v, first, s).0;
    assert(v1.battery_since == Some(first.now_ms));
    held_battery_floor_restarts_capture(v1, second, s, first.now_ms);
}

/// A step down that hard resource pressure did not cause never follows a
/// recent profile change (within 12 s) or a save in progress or started
/// within 5 s.
pub proof fn soft_stepdown_respects_cooldowns(
    v: PolicyView,
    obs: RestartObservation,
    s: SettingsDto,
    ctx: TickContext,
    g: ProfileGuardSignals,
    hard_trig: bool,
)
    requires
        !hard_trig,
        spec_profile_guard(v, obs, s, ctx, g, hard_trig).2 == Some(
            CaptureRestartReason::Overloaded,
        ),
    ensures
        !within(obs.since_profile_change_ms, PROFILE_CHANGE_COOLDOWN_MS),
        !ctx.save_suppressed,
{
    reveal(spec_profile_guard);
}

/// A stall restart is only asked for after consecutive misses, and reports
/// the miss count and the threshold it was measured against.
pub proof fn stall_restart_needs_repeated_misses(
    v: PolicyView,
    obs: RestartObservation,
    s: SettingsDto,
)
    ensures
        spec_no_segments(v, obs, s).2 matches Some(
            CaptureRestartReason::NoSegments { segment_age_ms, threshold_ms, miss_count },
        ) ==> miss_count >= NO_SEGMENTS_MISS_REQUIRED && threshold_ms == spec_adjusted_stall_threshold(
            obs,
            s,
        ) && segment_age_ms == obs.segment_age_ms && spec_no_segments(v, obs, s).0.miss == 0,
        spec_no_segments(v, obs, s).2 is Some ==> v.miss + 1 >= NO_SEGMENTS_MISS_REQUIRED,
{
    reveal(spec_no_segments);
}

} // verus!

verus! {

/// During startup, before the session has a stable segment, a capture on the
/// requested profile is not stepped down unless hard pressure demands it.
pub fn should_suppress_initial_startup_fallback(
    in_startup_window: bool,
    current_session_has_stable_segment: bool,
    current_profile_index: usize,
    resource_hard_triggered: bool,
) -> (r: bool)
    ensures
        r == (in_startup_window && !current_session_has_stable_segment && current_profile_index
            == 0 && !resource_hard_triggered),
{
    in_startup_window && !current_session_has_stable_segment && current_profile_index == 0
        && !resource_hard_triggered
}

} // verus!
