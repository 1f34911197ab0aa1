//! Moves along the runtime quality ladder, the restart crash-loop window,
//! the bounded retries after an interrupted capture start, and the reasons
//! for a capture restart.
use vstd::prelude::*;
use crate::engine_policy::{
    effective_profile_for_index, spec_effective_profile_for_index, spec_profile_label,
    EffectiveCaptureProfile, MAX_RUNTIME_PROFILE_INDEX,
};
use crate::settings::SettingsDto;
use crate::seqs::{filter_seq, lemma_filter_step};

verus! {

/// A profile change, as the labels of the profile left and the one entered.
pub open spec fn transition_view(t: Option<(String, String)>) -> Option<(Seq<char>, Seq<char>)> {
    match t {
        Some((a, b)) => Some((a@, b@)),
        None => None,
    }
}

pub open spec fn labels(
    s: SettingsDto,
    from: int,
    to: int,
) -> Option<(Seq<char>, Seq<char>)> {
    Some(
        (
            spec_profile_label(spec_effective_profile_for_index(s, from)),
            spec_profile_label(spec_effective_profile_for_index(s, to)),
        ),
    )
}

/// A step down the ladder is possible: the policy adapts, the index is below
/// the last step and the next step is a different profile.
pub open spec fn spec_can_step_down(s: SettingsDto, index: int) -> bool {
    &&& s.quality_policy@ == "adaptive_recover"@
    &&& index < MAX_RUNTIME_PROFILE_INDEX
    &&& spec_effective_profile_for_index(s, index + 1) != spec_effective_profile_for_index(s, index)
}

pub fn can_step_down_profile(settings: &SettingsDto, index: usize) -> (r: bool)
    ensures
        r == spec_can_step_down(*settings, index as int),
{
    if !crate::text::str_eq(settings.quality_policy.as_str(), "adaptive_recover") {
        return false;
    }
    if index >= MAX_RUNTIME_PROFILE_INDEX {
        return false;
    }
    let current = effective_profile_for_index(settings, index);
    let next = effective_profile_for_index(settings, index + 1);
    current != next
}

/// One step down for overload: the next index when it is below the last step
/// and changes the profile, else no move.
pub open spec fn spec_advance(s: SettingsDto, index: int) -> (int, Option<(Seq<char>, Seq<char>)>) {
    if index >= MAX_RUNTIME_PROFILE_INDEX || spec_effective_profile_for_index(s, index + 1)
        == spec_effective_profile_for_index(s, index) {
        (index, None)
    } else {
        (index + 1, labels(s, index, index + 1))
    }
}

fn profile_labels(a: EffectiveCaptureProfile, b: EffectiveCaptureProfile) -> (r: (String, String))
    ensures
        r.0@ == spec_profile_label(a),
        r.1@ == spec_profile_label(b),
{
    (a.label(), b.label())
}

/// Steps one profile down the ladder for overload.
pub fn advance_runtime_profile_for_overload(settings: &SettingsDto, index: usize) -> (r: (
    usize,
    Option<(String, String)>,
))
    ensures
        r.0 as int == spec_advance(*settings, index as int).0,
        transition_view(r.1) == spec_advance(*settings, index as int).1,
{
    let current = effective_profile_for_index(settings, index);
    if index >= MAX_RUNTIME_PROFILE_INDEX {
        return (index, None);
    }
    let next = effective_profile_for_index(settings, index + 1);
    if next == current {
        return (index, None);
    }
    (index + 1, Some(profile_labels(current, next)))
}

/// `steps` moves down (at least one), stopping at the first that does not
/// move; the transition runs from the first profile left to the last one
/// entered.
pub open spec fn spec_advance_steps(s: SettingsDto, index: int, steps: nat) -> (
    int,
    Option<(Seq<char>, Seq<char>)>,
)
    decreases steps,
{
    let (next, t) = spec_advance(s, index);
    if t is None {
        (index, None)
    } else if steps <= 1 {
        (next, t)
    } else {
        let (last, rest) = spec_advance_steps(s, next, (steps - 1) as nat);
        match (t, rest) {
            (Some((from, _)), Some((_, to))) => (last, Some((from, to))),
            _ => (next, t),
        }
    }
}

/// Steps `steps` profiles down at once (a hard overload takes two).
pub fn advance_runtime_profile_for_overload_steps(
    settings: &SettingsDto,
    index: usize,
    steps: usize,
) -> (r: (usize, Option<(String, String)>))
    requires
        index <= MAX_RUNTIME_PROFILE_INDEX,
    ensures
        r.0 as int == spec_advance_steps(
            *settings,
            index as int,
            if steps < 1 {
                1
            } else {
                steps as nat
            },
        ).0,
        transition_view(r.1) == spec_advance_steps(
            *settings,
            index as int,
            if steps < 1 {
                1
            } else {
                steps as nat
            },
        ).1,
    decreases steps,
{
    let (next, t) = advance_runtime_profile_for_overload(settings, index);
    match t {
        None => (index, None),
        Some((from, to)) => {
            if steps <= 1 {
                (next, Some((from, to)))
            } else {
                let (last, rest) = advance_runtime_profile_for_overload_steps(
                    settings,
                    next,
                    steps - 1,
                );
                match rest {
                    None => (next, Some((from, to))),
                    Some((_, last_to)) => (last, Some((from, last_to))),
                }
            }
        },
    }
}

/// One step up for recovery: the previous index when it changes the
/// profile, else no move.
pub open spec fn spec_regress(s: SettingsDto, index: int) -> (int, Option<(Seq<char>, Seq<char>)>) {
    if index == 0 || spec_effective_profile_for_index(s, index - 1)
        == spec_effective_profile_for_index(s, index) {
        (index, None)
    } else {
        (index - 1, labels(s, index, index - 1))
    }
}

/// Steps one profile back up the ladder after a stable stretch.
pub fn regress_runtime_profile_for_recovery(settings: &SettingsDto, index: usize) -> (r: (
    usize,
    Option<(String, String)>,
))
    ensures
        r.0 as int == spec_regress(*settings, index as int).0,
        transition_view(r.1) == spec_regress(*settings, index as int).1,
{
    if index == 0 {
        return (index, None);
    }
    let current = effective_profile_for_index(settings, index);
    let next = effective_profile_for_index(settings, index - 1);
    if next == current {
        return (index, None);
    }
    (index - 1, Some(profile_labels(current, next)))
}

pub open spec fn floor_target(floor: int) -> int {
    if floor < MAX_RUNTIME_PROFILE_INDEX {
        floor
    } else {
        MAX_RUNTIME_PROFILE_INDEX as int
    }
}

/// Raises the index to the floor (capped at the last step); the transition
/// is reported only when the profile changes.
pub open spec fn spec_at_least_floor(s: SettingsDto, index: int, floor: int) -> (
    int,
    Option<(Seq<char>, Seq<char>)>,
) {
    let target = floor_target(floor);
    if index >= target {
        (index, None)
    } else if spec_effective_profile_for_index(s, target) == spec_effective_profile_for_index(
        s,
        index,
    ) {
        (target, None)
    } else {
        (target, labels(s, index, target))
    }
}

pub fn set_runtime_profile_at_least_floor(settings: &SettingsDto, index: usize, floor: usize) -> (r:
    (usize, Option<(String, String)>))
    ensures
        r.0 as int == spec_at_least_floor(*settings, index as int, floor as int).0,
        transition_view(r.1) == spec_at_least_floor(*settings, index as int, floor as int).1,
{
    let target = if floor < MAX_RUNTIME_PROFILE_INDEX {
        floor
    } else {
        MAX_RUNTIME_PROFILE_INDEX
    };
    if index >= target {
        return (index, None);
    }
    let current = effective_profile_for_index(settings, index);
    let next = effective_profile_for_index(settings, target);
    if next == current {
        return (target, None);
    }
    (target, Some(profile_labels(current, next)))
}

/// Lowers the index to the floor (capped at the last step) when above it;
/// the transition is reported only when the profile changes.
pub open spec fn spec_lower_to_floor(s: SettingsDto, index: int, floor: int) -> (
    int,
    Option<(Seq<char>, Seq<char>)>,
) {
    let target = floor_target(floor);
    if index <= target {
        (index, None)
    } else if spec_effective_profile_for_index(s, target) == spec_effective_profile_for_index(
        s,
        index,
    ) {
        (target, None)
    } else {
        (target, labels(s, index, target))
    }
}

pub fn lower_runtime_profile_to_floor(settings: &SettingsDto, index: usize, floor: usize) -> (r: (
    usize,
    Option<(String, String)>,
))
    ensures
        r.0 as int == spec_lower_to_floor(*settings, index as int, floor as int).0,
        transition_view(r.1) == spec_lower_to_floor(*settings, index as int, floor as int).1,
{
    let target = if floor < MAX_RUNTIME_PROFILE_INDEX {
        floor
    } else {
        MAX_RUNTIME_PROFILE_INDEX
    };
    if index <= target {
        return (index, None);
    }
    let current = effective_profile_for_index(settings, index);
    let next = effective_profile_for_index(settings, target);
    if next == current {
        return (target, None);
    }
    (target, Some(profile_labels(current, next)))
}

/// A step down for overload is undone by one step up for recovery: the index
/// comes back and the two transitions mirror each other.
pub proof fn recovery_step_undoes_overload_step(s: SettingsDto, index: int)
    requires
        0 <= index,
        spec_advance(s, index).1 is Some,
    ensures
        spec_regress(s, spec_advance(s, index).0).0 == index,
        spec_advance(s, index).1 matches Some((from, to)) && spec_regress(
            s,
            spec_advance(s, index).0,
        ).1 == Some((to, from)),
{
}

/// Moves for overload never leave the ladder and never move up; a move
/// always changes the profile.
pub proof fn overload_steps_stay_on_ladder(s: SettingsDto, index: int, steps: nat)
    requires
        0 <= index <= MAX_RUNTIME_PROFILE_INDEX,
    ensures
        index <= spec_advance_steps(s, index, steps).0 <= MAX_RUNTIME_PROFILE_INDEX,
        spec_advance_steps(s, index, steps).1 is Some ==> spec_advance_steps(s, index, steps).0
            > index,
    decreases steps,
{
    let (next, t) = spec_advance(s, index);
    if t is Some && steps > 1 {
        overload_steps_stay_on_ladder(s, next, (steps - 1) as nat);
    }
}

/// Lowering to a floor never goes below the floor (as capped) and never
/// raises the index; raising to a floor never lowers it.
pub proof fn floor_moves_respect_the_floor(s: SettingsDto, index: int, floor: int)
    requires
        0 <= index,
        0 <= floor,
    ensures
        spec_lower_to_floor(s, index, floor).0 <= index,
        spec_lower_to_floor(s, index, floor).0 >= if index < floor_target(floor) {
            index
        } else {
            floor_target(floor)
        },
        spec_at_least_floor(s, index, floor).0 >= index,
        spec_at_least_floor(s, index, floor).0 >= floor_target(floor),
{
}

} // verus!

verus! {

pub const RESTART_LOOP_WINDOW_MS: u64 = 20_000;

pub const RESTART_LOOP_MAX_ATTEMPTS: usize = 3;

pub const RESTART_LOOP_COOLDOWN_MS: u64 = 10_000;

/// Recent restart attempts (monotonic milliseconds), and when a crash-loop
/// cooldown ends.
pub struct RestartWindow {
    pub history: Vec<u64>,
    pub cooldown_until_ms: Option<u64>,
}

/// An attempt at `at` still counts at `now`.
pub open spec fn within_restart_window(now: u64, at: u64) -> bool {
    now <= at || now - at <= RESTART_LOOP_WINDOW_MS
}

pub open spec fn restart_window_pred(now: u64) -> spec_fn(u64) -> bool {
    |at: u64| within_restart_window(now, at)
}

impl RestartWindow {
    pub fn new() -> (r: Self)
        ensures
            r.history@.len() == 0,
            r.cooldown_until_ms is None,
    {
        RestartWindow { history: Vec::new(), cooldown_until_ms: None }
    }

    /// Records an attempt at `now_ms`: attempts older than the window are
    /// forgotten; more than the allowed number within it is a crash loop,
    /// which starts the cooldown and is reported as `true`.
    pub fn record_restart_attempt(&mut self, now_ms: u64) -> (r: bool)
        requires
            now_ms + RESTART_LOOP_COOLDOWN_MS <= u64::MAX,
        ensures
            final(self).history@ == filter_seq(old(self).history@, restart_window_pred(now_ms)).push(
                now_ms,
            ),
            r == (final(self).history@.len() > RESTART_LOOP_MAX_ATTEMPTS),
            r ==> final(self).cooldown_until_ms == Some((now_ms + RESTART_LOOP_COOLDOWN_MS) as u64),
            !r ==> final(self).cooldown_until_ms == old(self).cooldown_until_ms,
    {
        let ghost f = restart_window_pred(now_ms);
        let mut kept: Vec<u64> = Vec::new();
        let mut i: usize = 0;
        assert(self.history@.take(0) =~= Seq::<u64>::empty());
        while i < self.history.len()
            invariant
                i <= self.history.len(),
                f == restart_window_pred(now_ms),
                kept@ == filter_seq(self.history@.take(i as int), f),
            decreases self.history.len() - i,
        {
            let at = self.history[i];
            proof {
                lemma_filter_step(self.history@, f, i as int);
            }
            if now_ms <= at || now_ms - at <= RESTART_LOOP_WINDOW_MS {
                kept.push(at);
            }
            i = i + 1;
        }
        assert(self.history@.take(self.history.len() as int) =~= self.history@);
        kept.push(now_ms);
        self.history = kept;
        if self.history.len() > RESTART_LOOP_MAX_ATTEMPTS {
            self.cooldown_until_ms = Some(now_ms + RESTART_LOOP_COOLDOWN_MS);
            return true;
        }
        false
    }

    /// Forgets all attempts and ends any cooldown.
    pub fn clear_restart_window(&mut self)
        ensures
            final(self).history@.len() == 0,
            final(self).cooldown_until_ms is None,
    {
        self.history = Vec::new();
        self.cooldown_until_ms = None;
    }
}

pub const STARTUP_INTERRUPT_MAX_RETRIES: u8 = 2;

pub const STARTUP_INTERRUPT_WINDOW_MS: u64 = 12_000;

/// Retries after an interrupted capture start within the current window.
pub struct StartupInterruptRetry {
    pub window_started_ms: Option<u64>,
    pub retry_count: u8,
}

/// The window has run out (or never started) at `now`.
pub open spec fn interrupt_window_expired(started: Option<u64>, now: u64) -> bool {
    match started {
        None => true,
        Some(s) => now > s && now - s > STARTUP_INTERRUPT_WINDOW_MS,
    }
}

/// One request for a retry at `now`: the window (restarted when expired),
/// the retry count after it, and the granted retry, as its attempt number
/// and the delay before it (one second, then two).
pub open spec fn spec_retry_step(started: Option<u64>, count: u8, now: u64) -> (
    Option<u64>,
    u8,
    Option<(u8, u64)>,
) {
    let expired = interrupt_window_expired(started, now);
    let s = if expired {
        Some(now)
    } else {
        started
    };
    let c: u8 = if expired {
        0
    } else {
        count
    };
    if c >= STARTUP_INTERRUPT_MAX_RETRIES {
        (s, c, None)
    } else {
        (
            s,
            (c + 1) as u8,
            Some(
                (
                    (c + 1) as u8,
                    if c + 1 == 1 {
                        1000u64
                    } else {
                        2000u64
                    },
                ),
            ),
        )
    }
}

impl StartupInterruptRetry {
    pub fn new() -> (r: Self)
        ensures
            r.window_started_ms is None,
            r.retry_count == 0,
    {
        StartupInterruptRetry { window_started_ms: None, retry_count: 0 }
    }

    pub fn reset(&mut self)
        ensures
            final(self).window_started_ms is None,
            final(self).retry_count == 0,
    {
        self.window_started_ms = None;
        self.retry_count = 0;
    }

    /// The next retry at `now_ms`; none once the retries of the window are
    /// used up. An expired window starts afresh at `now_ms`.
    pub fn next_startup_interrupt_retry(&mut self, now_ms: u64) -> (r: Option<(u8, u64)>)
        requires
            old(self).retry_count <= STARTUP_INTERRUPT_MAX_RETRIES,
        ensures
            ({
                let (s, c, g) = spec_retry_step(
                    old(self).window_started_ms,
                    old(self).retry_count,
                    now_ms,
                );
                &&& final(self).window_started_ms == s
                &&& final(self).retry_count == c
                &&& r == g
            }),
    {
        let expired = match self.window_started_ms {
            None => true,
            Some(s) => now_ms > s && now_ms - s > STARTUP_INTERRUPT_WINDOW_MS,
        };
        if expired {
            self.window_started_ms = Some(now_ms);
            self.retry_count = 0;
        }
        if self.retry_count >= STARTUP_INTERRUPT_MAX_RETRIES {
            return None;
        }
        self.retry_count = self.retry_count + 1;
        let attempt = self.retry_count;
        let delay: u64 = if attempt == 1 {
            1000
        } else {
            2000
        };
        Some((attempt, delay))
    }
}

/// The retry count never exceeds its bound, and interrupted starts are
/// retried at most twice in a window: from a fresh state, three requests
/// within the window give the first retry after one second, the second after
/// two, and then none.
pub proof fn startup_interrupt_retries_are_bounded(
    started: Option<u64>,
    count: u8,
    now: u64,
    t1: u64,
    t2: u64,
    t3: u64,
)
    requires
        count <= STARTUP_INTERRUPT_MAX_RETRIES,
        t1 <= t2 <= t3,
        t3 - t1 <= STARTUP_INTERRUPT_WINDOW_MS,
    ensures
        spec_retry_step(started, count, now).1 <= STARTUP_INTERRUPT_MAX_RETRIES,
        ({
            let (s1, c1, g1) = spec_retry_step(None, 0, t1);
            let (s2, c2, g2) = spec_retry_step(s1, c1, t2);
            let (s3, c3, g3) = spec_retry_step(s2, c2, t3);
            &&& g1 == Some((1u8, 1000u64))
            &&& g2 == Some((2u8, 2000u64))
            &&& g3 is None
        }),
{
}

} // verus!
