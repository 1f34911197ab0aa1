//! The performance guard's signals and reason codes, and the reasons for a
//! capture restart.
use vstd::prelude::*;
use crate::text::{append_str, chars_to_string, decimal, push_decimal, str_eq, texts};

verus! {

/// Why the capture pipeline is restarted.
#[derive(Debug, Clone, Copy, PartialEq, Eq, Structural)]
pub enum CaptureRestartReason {
    MissingPipeline,
    CaptureStartInterrupted,
    NoSegments { segment_age_ms: Option<u64>, threshold_ms: u64, miss_count: u8 },
    Overloaded,
    ProfileRecovered,
    UserStoppedSharing,
    CaptureProcessExited,
    DisplayChanged,
    PowerSourceChanged,
}

pub open spec fn restart_code(r: CaptureRestartReason) -> Seq<char> {
    match r {
        CaptureRestartReason::MissingPipeline => "missing_pipeline"@,
        CaptureRestartReason::CaptureStartInterrupted => "capture_start_interrupted"@,
        CaptureRestartReason::NoSegments { .. } => "no_segments"@,
        CaptureRestartReason::Overloaded => "capture_overloaded"@,
        CaptureRestartReason::ProfileRecovered => "capture_profile_recovered"@,
        CaptureRestartReason::UserStoppedSharing => "user_stopped_sharing"@,
        CaptureRestartReason::CaptureProcessExited => "capture_process_exited"@,
        CaptureRestartReason::DisplayChanged => "display_changed"@,
        CaptureRestartReason::PowerSourceChanged => "power_source_changed"@,
    }
}

pub open spec fn restart_message(r: CaptureRestartReason) -> Seq<char> {
    match r {
        CaptureRestartReason::MissingPipeline => "Capture pipeline missing; attempting restart."@,
        CaptureRestartReason::CaptureStartInterrupted => "Capture startup interrupted; retrying."@,
        CaptureRestartReason::NoSegments {
            ..
        } => "Capture stalled (no recent segments); restarting."@,
        CaptureRestartReason::Overloaded => "Capture overloaded; reducing quality profile."@,
        CaptureRestartReason::ProfileRecovered => "Capture stable; restoring quality profile."@,
        CaptureRestartReason::UserStoppedSharing => "Screen recording was interrupted. Click Restart Capture to resume."@,
        CaptureRestartReason::CaptureProcessExited => "Capture process exited; restarting."@,
        CaptureRestartReason::DisplayChanged => "Display source changed; restarting capture."@,
        CaptureRestartReason::PowerSourceChanged => "Power source changed; adjusting capture profile."@,
    }
}

pub open spec fn restart_detail(r: CaptureRestartReason) -> Option<Seq<char>> {
    match r {
        CaptureRestartReason::NoSegments { segment_age_ms, threshold_ms, miss_count } => Some(
            "segment_age_ms="@ + match segment_age_ms {
                Some(a) => decimal(a as nat),
                None => "none"@,
            } + " threshold_ms="@ + decimal(threshold_ms as nat) + " miss_count="@ + decimal(
                miss_count as nat,
            ),
        ),
        _ => None,
    }
}

impl CaptureRestartReason {
    /// The machine code announced with the restart.
    pub fn as_code(self) -> (r: &'static str)
        ensures
            r@ == restart_code(self),
    {
        match self {
            CaptureRestartReason::MissingPipeline => "missing_pipeline",
            CaptureRestartReason::CaptureStartInterrupted => "capture_start_interrupted",
            CaptureRestartReason::NoSegments { .. } => "no_segments",
            CaptureRestartReason::Overloaded => "capture_overloaded",
            CaptureRestartReason::ProfileRecovered => "capture_profile_recovered",
            CaptureRestartReason::UserStoppedSharing => "user_stopped_sharing",
            CaptureRestartReason::CaptureProcessExited => "capture_process_exited",
            CaptureRestartReason::DisplayChanged => "display_changed",
            CaptureRestartReason::PowerSourceChanged => "power_source_changed",
        }
    }

    /// The message shown while restarting.
    pub fn as_message(self) -> (r: &'static str)
        ensures
            r@ == restart_message(self),
    {
        match self {
            CaptureRestartReason::MissingPipeline => "Capture pipeline missing; attempting restart.",
            CaptureRestartReason::CaptureStartInterrupted => "Capture startup interrupted; retrying.",
            CaptureRestartReason::NoSegments {
                ..
            } => "Capture stalled (no recent segments); restarting.",
            CaptureRestartReason::Overloaded => "Capture overloaded; reducing quality profile.",
            CaptureRestartReason::ProfileRecovered => "Capture stable; restoring quality profile.",
            CaptureRestartReason::UserStoppedSharing => "Screen recording was interrupted. Click Restart Capture to resume.",
            CaptureRestartReason::CaptureProcessExited => "Capture process exited; restarting.",
            CaptureRestartReason::DisplayChanged => "Display source changed; restarting capture.",
            CaptureRestartReason::PowerSourceChanged => "Power source changed; adjusting capture profile.",
        }
    }

    /// The measurements behind a stall restart; none for the other reasons.
    pub fn detail(self) -> (r: Option<String>)
        ensures
            match restart_detail(self) {
                Some(d) => r matches Some(s) && s@ == d,
                None => r is None,
            },
    {
        match self {
            CaptureRestartReason::NoSegments { segment_age_ms, threshold_ms, miss_count } => {
                let mut v: Vec<char> = Vec::new();
                append_str(&mut v, "segment_age_ms=");
                match segment_age_ms {
                    Some(a) => push_decimal(&mut v, a),
                    None => append_str(&mut v, "none"),
                }
                append_str(&mut v, " threshold_ms=");
                push_decimal(&mut v, threshold_ms);
                append_str(&mut v, " miss_count=");
                push_decimal(&mut v, miss_count as u64);
                assert(v@ =~= restart_detail(self)->0);
                Some(chars_to_string(&v))
            },
            _ => None,
        }
    }
}

/// The status text of a restart: its message, with the profile change for
/// an overload or recovery that changed the profile, else with its detail
/// when it has one.
pub open spec fn spec_restart_status_message(
    reason: CaptureRestartReason,
    transition: Option<(Seq<char>, Seq<char>)>,
) -> Seq<char> {
    match (transition, reason) {
        (Some((from, to)), CaptureRestartReason::Overloaded) => restart_message(reason) + " ("@
            + from + " -> "@ + to + ")"@,
        (Some((from, to)), CaptureRestartReason::ProfileRecovered) => restart_message(reason)
            + " ("@ + from + " -> "@ + to + ")"@,
        _ => match restart_detail(reason) {
            Some(d) => restart_message(reason) + " ("@ + d + ")"@,
            None => restart_message(reason),
        },
    }
}

pub fn restart_status_message(
    reason: CaptureRestartReason,
    transition: &Option<(String, String)>,
) -> (r: String)
    ensures
        r@ == spec_restart_status_message(
            reason,
            match transition {
                Some((a, b)) => Some((a@, b@)),
                None => None,
            },
        ),
{
    let mut v: Vec<char> = Vec::new();
    append_str(&mut v, reason.as_message());
    let is_profile_change = match reason {
        CaptureRestartReason::Overloaded => true,
        CaptureRestartReason::ProfileRecovered => true,
        _ => false,
    };
    match transition {
        Some((from, to)) if is_profile_change => {
            append_str(&mut v, " (");
            append_str(&mut v, from.as_str());
            append_str(&mut v, " -> ");
            append_str(&mut v, to.as_str());
            append_str(&mut v, ")");
        },
        _ => match reason.detail() {
            Some(d) => {
                append_str(&mut v, " (");
                append_str(&mut v, d.as_str());
                append_str(&mut v, ")");
            },
            None => {},
        },
    }
    chars_to_string(&v)
}

/// Adds a contributing reason code when its condition holds and it is not
/// listed yet.
pub fn push_guard_reason(codes: &mut Vec<String>, condition: bool, code: &str)
    ensures
        if condition && !texts(old(codes)@).contains(code@) {
            texts(final(codes)@) == texts(old(codes)@).push(code@)
        } else {
            texts(final(codes)@) == texts(old(codes)@)
        },
{
    if !condition {
        return;
    }
    let mut i: usize = 0;
    while i < codes.len()
        invariant
            i <= codes.len(),
            forall|k: int| 0 <= k < i ==> texts(codes@)[k] != code@,
        decreases codes.len() - i,
    {
        if str_eq(codes[i].as_str(), code) {
            proof {
                assert(texts(codes@)[i as int] == code@);
            }
            return;
        }
        i = i + 1;
    }
    proof {
        assert(!texts(codes@).contains(code@));
    }
    codes.push(code.to_string());
    assert(texts(final(codes)@) =~= texts(old(codes)@).push(code@));
}

/// Reason codes by priority, most severe first.
pub open spec fn guard_reason_order() -> Seq<Seq<char>> {
    seq![
        "thermal_critical"@,
        "system_memory_pressure_critical"@,
        "capture_stack_cpu_hard"@,
        "capture_stack_rss_growth_hard"@,
        "queue_overflow_spike"@,
        "frame_drop_spike"@,
        "playback_realtime_low"@,
        "capture_speed_low"@,
        "output_fps_low"@,
        "thermal_serious"@,
        "system_memory_pressure_warning"@,
        "capture_stack_cpu_soft"@,
        "capture_stack_rss_growth_soft"@,
        "on_battery"@,
    ]
}

pub open spec fn first_listed(order: Seq<Seq<char>>, codes: Seq<Seq<char>>, i: int) -> Option<Seq<char>>
    decreases order.len() - i,
{
    if i < 0 || i >= order.len() {
        None
    } else if codes.contains(order[i]) {
        Some(order[i])
    } else {
        first_listed(order, codes, i + 1)
    }
}

/// The primary reason: the most severe listed code by the priority order,
/// else the first code given, else none.
pub open spec fn spec_primary_guard_reason(codes: Seq<Seq<char>>) -> Option<Seq<char>> {
    match first_listed(guard_reason_order(), codes, 0) {
        Some(c) => Some(c),
        None => if codes.len() > 0 {
            Some(codes[0])
        } else {
            None
        },
    }
}

fn codes_contain(codes: &Vec<String>, code: &str) -> (r: bool)
    ensures
        r == texts(codes@).contains(code@),
{
    let mut i: usize = 0;
    while i < codes.len()
        invariant
            i <= codes.len(),
            forall|k: int| 0 <= k < i ==> texts(codes@)[k] != code@,
        decreases codes.len() - i,
    {
        if str_eq(codes[i].as_str(), code) {
            proof {
                assert(texts(codes@)[i as int] == code@);
            }
            return true;
        }
        i = i + 1;
    }
    false
}

fn guard_order_exec() -> (r: Vec<&'static str>)
    ensures
        r@.len() == guard_reason_order().len(),
        forall|k: int| 0 <= k < r@.len() ==> r@[k]@ == guard_reason_order()[k],
{
    let r = vec![
        "thermal_critical",
        "system_memory_pressure_critical",
        "capture_stack_cpu_hard",
        "capture_stack_rss_growth_hard",
        "queue_overflow_spike",
        "frame_drop_spike",
        "playback_realtime_low",
        "capture_speed_low",
        "output_fps_low",
        "thermal_serious",
        "system_memory_pressure_warning",
        "capture_stack_cpu_soft",
        "capture_stack_rss_growth_soft",
        "on_battery",
    ];
    assert forall|k: int| 0 <= k < r@.len() implies r@[k]@ == guard_reason_order()[k] by {
        assert(r@[k] == [
            "thermal_critical",
            "system_memory_pressure_critical",
            "capture_stack_cpu_hard",
            "capture_stack_rss_growth_hard",
            "queue_overflow_spike",
            "frame_drop_spike",
            "playback_realtime_low",
            "capture_speed_low",
            "output_fps_low",
            "thermal_serious",
            "system_memory_pressure_warning",
            "capture_stack_cpu_soft",
            "capture_stack_rss_growth_soft",
            "on_battery",
        ]@[k]);
    }
    r
}

/// The primary guard reason among the contributing codes.
pub fn select_primary_guard_reason_code(codes: &Vec<String>) -> (r: Option<String>)
    ensures
        match spec_primary_guard_reason(texts(codes@)) {
            Some(c) => r matches Some(s) && s@ == c,
            None => r is None,
        },
{
    let order = guard_order_exec();
    let mut i: usize = 0;
    while i < order.len()
        invariant
            i <= order.len(),
            order@.len() == guard_reason_order().len(),
            forall|k: int| 0 <= k < order@.len() ==> order@[k]@ == guard_reason_order()[k],
            first_listed(guard_reason_order(), texts(codes@), 0) == first_listed(
                guard_reason_order(),
                texts(codes@),
                i as int,
            ),
        decreases order.len() - i,
    {
        let code = order[i];
        if codes_contain(codes, code) {
            return Some(code.to_string());
        }
        i = i + 1;
    }
    if codes.len() > 0 {
        Some(codes[0].clone())
    } else {
        None
    }
}

} // verus!
