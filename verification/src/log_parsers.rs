//! Parsers for the latest runtime metrics and microphone state that the
//! capture helper writes into its log, one `key=value` or `phase:` line at a
//! time. Each parser looks at the lines from the last one backwards and the
//! first line that decides gives the result.
use vstd::prelude::*;
use crate::text::{
    chars_to_string, contains, contains_str, find, find_exec, first_token, first_token_exec, lines,
    lower, lower_chars, opt_string, parse_u32, parse_u32_range, parse_u64, parse_u64_range,
    split_lines, starts_with, str_chars, strip_prefix_chars, sub_chars, trim, trim_chars, views,
};
use crate::log_markers::{
    FIRST_MIC_AUDIO_MARKER, MIC_LIVE_FRAMES_DETECTED_MARKER, MIC_LIVE_FRAMES_LOST_MARKER,
    MIC_SILENCE_FILLER_ACTIVE_MARKER,
};
use crate::seqs::{lemma_scan_back_empty, lemma_scan_back_step, scan_back};

verus! {

pub const MIC_SAMPLES_PER_SEC_PREFIX: &'static str = "mic_samples_per_sec=";

pub const VIDEO_FRAME_DROP_TOTAL_PREFIX: &'static str = "video_frame_drop_total=";

pub const VIDEO_QUEUE_OVERFLOW_COUNT_PREFIX: &'static str = "video_queue_overflow_count=";

pub const SYSTEM_MEMORY_PRESSURE_PREFIX: &'static str = "system_memory_pressure=";

pub const THERMAL_STATE_PREFIX: &'static str = "thermal_state=";

/// Microphone attach state reported by the helper.
#[derive(Debug, Clone, Copy, PartialEq, Eq, Structural)]
pub enum MicAttachRuntimeState {
    SilenceFiller,
    Live,
    Degraded,
}

// ---------------------------------------------------------------------------
// Line deciders
// ---------------------------------------------------------------------------

/// The value after `prefix` on a trimmed line, itself trimmed.
pub open spec fn prefixed_value(line: Seq<char>, prefix: Seq<char>) -> Option<Seq<char>> {
    let t = trim(line);
    if starts_with(t, prefix) {
        Some(trim(t.skip(prefix.len() as int)))
    } else {
        None
    }
}

pub open spec fn mic_samples_line(line: Seq<char>) -> Option<Option<u32>> {
    match prefixed_value(line, MIC_SAMPLES_PER_SEC_PREFIX@) {
        Some(v) => match parse_u32(v) {
            Some(n) => if n > 0 {
                Some(Some(n))
            } else {
                None
            },
            None => None,
        },
        None => None,
    }
}

pub open spec fn mic_attach_line(line: Seq<char>) -> Option<Option<MicAttachRuntimeState>> {
    let t = trim(line);
    if contains(t, MIC_LIVE_FRAMES_DETECTED_MARKER@) || contains(t, FIRST_MIC_AUDIO_MARKER@) {
        Some(Some(MicAttachRuntimeState::Live))
    } else if contains(t, MIC_LIVE_FRAMES_LOST_MARKER@) {
        Some(Some(MicAttachRuntimeState::Degraded))
    } else if contains(t, MIC_SILENCE_FILLER_ACTIVE_MARKER@) {
        Some(Some(MicAttachRuntimeState::SilenceFiller))
    } else {
        None
    }
}

pub open spec fn frame_drop_line(line: Seq<char>) -> Option<Option<u64>> {
    match prefixed_value_raw(line, VIDEO_FRAME_DROP_TOTAL_PREFIX@) {
        Some(v) => {
            let token = match first_token(v) {
                Some(t) => t,
                None => Seq::empty(),
            };
            match parse_u64(token) {
                Some(n) => Some(Some(n)),
                None => None,
            }
        },
        None => None,
    }
}

/// The (untrimmed) rest of a trimmed line after `prefix`.
pub open spec fn prefixed_value_raw(line: Seq<char>, prefix: Seq<char>) -> Option<Seq<char>> {
    let t = trim(line);
    if starts_with(t, prefix) {
        Some(t.skip(prefix.len() as int))
    } else {
        None
    }
}

pub open spec fn queue_overflow_line(line: Seq<char>) -> Option<Option<u64>> {
    match prefixed_value(line, VIDEO_QUEUE_OVERFLOW_COUNT_PREFIX@) {
        Some(v) => match parse_u64(v) {
            Some(n) => Some(Some(n)),
            None => None,
        },
        None => None,
    }
}

pub open spec fn is_memory_pressure_level(l: Seq<char>) -> bool {
    l == "normal"@ || l == "warning"@ || l == "critical"@
}

pub open spec fn is_thermal_level(l: Seq<char>) -> bool {
    l == "nominal"@ || l == "fair"@ || l == "serious"@ || l == "critical"@
}

pub open spec fn memory_pressure_line(line: Seq<char>) -> Option<Option<Seq<char>>> {
    match prefixed_value(line, SYSTEM_MEMORY_PRESSURE_PREFIX@) {
        Some(v) => if is_memory_pressure_level(lower(v)) {
            Some(Some(lower(v)))
        } else {
            None
        },
        None => None,
    }
}

pub open spec fn thermal_line(line: Seq<char>) -> Option<Option<Seq<char>>> {
    match prefixed_value(line, THERMAL_STATE_PREFIX@) {
        Some(v) => if is_thermal_level(lower(v)) {
            Some(Some(lower(v)))
        } else {
            None
        },
        None => None,
    }
}

pub open spec fn mic_recovery_line(line: Seq<char>) -> Option<Option<Seq<char>>> {
    let t = trim(line);
    if contains(t, "phase: mic_backend_recovered"@) || contains(t, "phase: mic_backend_ready"@) {
        Some(Some("ok"@))
    } else if contains(t, "phase: mic_backend_retry_scheduled"@) || contains(
        t,
        "phase: mic_backend_error"@,
    ) {
        Some(Some("retrying"@))
    } else {
        None
    }
}

pub open spec fn mic_name_line(line: Seq<char>) -> Option<Option<Seq<char>>> {
    let t = trim(line);
    if !(contains(t, "phase: mic_backend_attempt"@) || contains(t, "phase: mic_backend_ready"@)
        || contains(t, "phase: mic_backend_recovered"@)) {
        None
    } else {
        match find(t, "device_name="@) {
            None => None,
            Some(idx) => {
                let value = trim(t.skip(idx + "device_name="@.len()));
                if value.len() == 0 || value == "system_default"@ {
                    Some(None)
                } else {
                    Some(Some(value))
                }
            },
        }
    }
}

/// `parse_marker_token`: the first whitespace-separated token after `key`.
pub open spec fn spec_marker_token(line: Seq<char>, key: Seq<char>) -> Option<Seq<char>> {
    match find(line, key) {
        None => None,
        Some(start) => first_token(line.skip(start + key.len())),
    }
}

pub open spec fn mic_error_line(line: Seq<char>) -> Option<Option<(Seq<char>, Seq<char>)>> {
    let t = trim(line);
    if !contains(t, "phase: mic_backend_error"@) {
        None
    } else {
        match spec_marker_token(t, "code="@) {
            None => Some(None),
            Some(code) => match find(t, "reason="@) {
                None => Some(None),
                Some(ri) => {
                    let reason = trim(t.skip(ri + "reason="@.len()));
                    if reason.len() == 0 {
                        Some(Some((code, code)))
                    } else {
                        Some(Some((code, reason)))
                    }
                },
            },
        }
    }
}

pub open spec fn mic_samples_decider() -> spec_fn(Seq<char>) -> Option<Option<u32>> {
    |l: Seq<char>| mic_samples_line(l)
}

pub open spec fn mic_attach_decider() -> spec_fn(Seq<char>) -> Option<Option<MicAttachRuntimeState>> {
    |l: Seq<char>| mic_attach_line(l)
}

pub open spec fn frame_drop_decider() -> spec_fn(Seq<char>) -> Option<Option<u64>> {
    |l: Seq<char>| frame_drop_line(l)
}

pub open spec fn queue_overflow_decider() -> spec_fn(Seq<char>) -> Option<Option<u64>> {
    |l: Seq<char>| queue_overflow_line(l)
}

pub open spec fn memory_pressure_decider() -> spec_fn(Seq<char>) -> Option<Option<Seq<char>>> {
    |l: Seq<char>| memory_pressure_line(l)
}

pub open spec fn thermal_decider() -> spec_fn(Seq<char>) -> Option<Option<Seq<char>>> {
    |l: Seq<char>| thermal_line(l)
}

pub open spec fn mic_recovery_decider() -> spec_fn(Seq<char>) -> Option<Option<Seq<char>>> {
    |l: Seq<char>| mic_recovery_line(l)
}

pub open spec fn mic_name_decider() -> spec_fn(Seq<char>) -> Option<Option<Seq<char>>> {
    |l: Seq<char>| mic_name_line(l)
}

pub open spec fn mic_error_decider() -> spec_fn(Seq<char>) -> Option<Option<(Seq<char>, Seq<char>)>> {
    |l: Seq<char>| mic_error_line(l)
}

pub open spec fn spec_parse_latest_mic_samples_per_sec(log: Seq<char>) -> Option<u32> {
    scan_back(lines(log), mic_samples_decider())
}

pub open spec fn spec_parse_latest_mic_attach_runtime_state(log: Seq<char>) -> Option<
    MicAttachRuntimeState,
> {
    scan_back(lines(log), mic_attach_decider())
}

pub open spec fn spec_parse_latest_video_frame_drop_total(log: Seq<char>) -> Option<u64> {
    scan_back(lines(log), frame_drop_decider())
}

pub open spec fn spec_parse_latest_video_queue_overflow_count(log: Seq<char>) -> Option<u64> {
    scan_back(lines(log), queue_overflow_decider())
}

pub open spec fn spec_parse_latest_system_memory_pressure_level(log: Seq<char>) -> Option<
    Seq<char>,
> {
    scan_back(lines(log), memory_pressure_decider())
}

pub open spec fn spec_parse_latest_helper_thermal_state(log: Seq<char>) -> Option<Seq<char>> {
    scan_back(lines(log), thermal_decider())
}

pub open spec fn spec_parse_latest_mic_recovery_state(log: Seq<char>) -> Option<Seq<char>> {
    scan_back(lines(log), mic_recovery_decider())
}

pub open spec fn spec_parse_latest_selected_microphone_name(log: Seq<char>) -> Option<Seq<char>> {
    scan_back(lines(log), mic_name_decider())
}

pub open spec fn spec_parse_latest_mic_backend_error(log: Seq<char>) -> Option<
    (Seq<char>, Seq<char>),
> {
    scan_back(lines(log), mic_error_decider())
}

pub open spec fn opt_pair_view(o: Option<(String, String)>) -> Option<(Seq<char>, Seq<char>)> {
    match o {
        Some((a, b)) => Some((a@, b@)),
        None => None,
    }
}

// ---------------------------------------------------------------------------
// Executable deciders
// ---------------------------------------------------------------------------

/// The trimmed value after `prefix` on a trimmed line.
fn prefixed_value_exec(line: &Vec<char>, prefix: &str) -> (r: Option<Vec<char>>)
    ensures
        r matches Some(v) ==> prefixed_value(line@, prefix@) == Some(v@),
        r is None ==> prefixed_value(line@, prefix@) is None,
{
    let t = trim_chars(line);
    match strip_prefix_chars(&t, prefix) {
        Some(rest) => Some(trim_chars(&rest)),
        None => None,
    }
}

fn prefixed_value_raw_exec(line: &Vec<char>, prefix: &str) -> (r: Option<Vec<char>>)
    ensures
        r matches Some(v) ==> prefixed_value_raw(line@, prefix@) == Some(v@),
        r is None ==> prefixed_value_raw(line@, prefix@) is None,
{
    let t = trim_chars(line);
    strip_prefix_chars(&t, prefix)
}

fn mic_samples_line_exec(line: &Vec<char>) -> (r: Option<Option<u32>>)
    ensures
        r == mic_samples_line(line@),
{
    match prefixed_value_exec(line, MIC_SAMPLES_PER_SEC_PREFIX) {
        Some(v) => {
            proof {
                assert(v@.subrange(0, v@.len() as int) =~= v@);
            }
            match parse_u32_range(&v, 0, v.len()) {
                Some(n) => if n > 0 {
                    Some(Some(n))
                } else {
                    None
                },
                None => None,
            }
        },
        None => None,
    }
}

fn mic_attach_line_exec(line: &Vec<char>) -> (r: Option<Option<MicAttachRuntimeState>>)
    ensures
        r == mic_attach_line(line@),
{
    let t = trim_chars(line);
    if contains_str(&t, MIC_LIVE_FRAMES_DETECTED_MARKER) || contains_str(&t, FIRST_MIC_AUDIO_MARKER) {
        Some(Some(MicAttachRuntimeState::Live))
    } else if contains_str(&t, MIC_LIVE_FRAMES_LOST_MARKER) {
        Some(Some(MicAttachRuntimeState::Degraded))
    } else if contains_str(&t, MIC_SILENCE_FILLER_ACTIVE_MARKER) {
        Some(Some(MicAttachRuntimeState::SilenceFiller))
    } else {
        None
    }
}

fn frame_drop_line_exec(line: &Vec<char>) -> (r: Option<Option<u64>>)
    ensures
        r == frame_drop_line(line@),
{
    match prefixed_value_raw_exec(line, VIDEO_FRAME_DROP_TOTAL_PREFIX) {
        Some(v) => {
            let token = match first_token_exec(&v) {
                Some(t) => t,
                None => Vec::new(),
            };
            proof {
                assert(token@.subrange(0, token@.len() as int) =~= token@);
                if first_token(v@) is None {
                    assert(token@ =~= Seq::<char>::empty());
                }
            }
            match parse_u64_range(&token, 0, token.len()) {
                Some(n) => Some(Some(n)),
                None => None,
            }
        },
        None => None,
    }
}

fn queue_overflow_line_exec(line: &Vec<char>) -> (r: Option<Option<u64>>)
    ensures
        r == queue_overflow_line(line@),
{
    match prefixed_value_exec(line, VIDEO_QUEUE_OVERFLOW_COUNT_PREFIX) {
        Some(v) => {
            proof {
                assert(v@.subrange(0, v@.len() as int) =~= v@);
            }
            match parse_u64_range(&v, 0, v.len()) {
                Some(n) => Some(Some(n)),
                None => None,
            }
        },
        None => None,
    }
}

fn chars_eq_str(a: &Vec<char>, b: &str) -> (r: bool)
    ensures
        r == (a@ == b@),
{
    let bc = str_chars(b);
    if a.len() != bc.len() {
        proof {
            assert(a@.len() != b@.len());
        }
        return false;
    }
    let mut i: usize = 0;
    while i < a.len()
        invariant
            i <= a.len(),
            a.len() == bc.len(),
            bc@ == b@,
            forall|k: int| 0 <= k < i ==> a@[k] == bc@[k],
        decreases a.len() - i,
    {
        if a[i] != bc[i] {
            proof {
                assert(a@[i as int] != bc@[i as int]);
            }
            return false;
        }
        i = i + 1;
    }
    assert(a@ =~= bc@);
    true
}

fn memory_pressure_line_exec(line: &Vec<char>) -> (r: Option<Option<Vec<char>>>)
    ensures
        r matches Some(Some(v)) ==> memory_pressure_line(line@) == Some(Some(v@)),
        r matches Some(None) ==> memory_pressure_line(line@) == Some(None::<Seq<char>>),
        r is None ==> memory_pressure_line(line@) is None,
{
    match prefixed_value_exec(line, SYSTEM_MEMORY_PRESSURE_PREFIX) {
        Some(v) => {
            let level = lower_chars(&v);
            if chars_eq_str(&level, "normal") || chars_eq_str(&level, "warning") || chars_eq_str(
                &level,
                "critical",
            ) {
                Some(Some(level))
            } else {
                None
            }
        },
        None => None,
    }
}

fn thermal_line_exec(line: &Vec<char>) -> (r: Option<Option<Vec<char>>>)
    ensures
        r matches Some(Some(v)) ==> thermal_line(line@) == Some(Some(v@)),
        r matches Some(None) ==> thermal_line(line@) == Some(None::<Seq<char>>),
        r is None ==> thermal_line(line@) is None,
{
    match prefixed_value_exec(line, THERMAL_STATE_PREFIX) {
        Some(v) => {
            let level = lower_chars(&v);
            if chars_eq_str(&level, "nominal") || chars_eq_str(&level, "fair") || chars_eq_str(
                &level,
                "serious",
            ) || chars_eq_str(&level, "critical") {
                Some(Some(level))
            } else {
                None
            }
        },
        None => None,
    }
}

fn mic_recovery_line_exec(line: &Vec<char>) -> (r: Option<Option<Vec<char>>>)
    ensures
        r matches Some(Some(v)) ==> mic_recovery_line(line@) == Some(Some(v@)),
        r matches Some(None) ==> mic_recovery_line(line@) == Some(None::<Seq<char>>),
        r is None ==> mic_recovery_line(line@) is None,
{
    let t = trim_chars(line);
    if contains_str(&t, "phase: mic_backend_recovered") || contains_str(
        &t,
        "phase: mic_backend_ready",
    ) {
        Some(Some(str_chars("ok")))
    } else if contains_str(&t, "phase: mic_backend_retry_scheduled") || contains_str(
        &t,
        "phase: mic_backend_error",
    ) {
        Some(Some(str_chars("retrying")))
    } else {
        None
    }
}

fn mic_name_line_exec(line: &Vec<char>) -> (r: Option<Option<Vec<char>>>)
    ensures
        r matches Some(Some(v)) ==> mic_name_line(line@) == Some(Some(v@)),
        r matches Some(None) ==> mic_name_line(line@) == Some(None::<Seq<char>>),
        r is None ==> mic_name_line(line@) is None,
{
    let t = trim_chars(line);
    if !(contains_str(&t, "phase: mic_backend_attempt") || contains_str(
        &t,
        "phase: mic_backend_ready",
    ) || contains_str(&t, "phase: mic_backend_recovered")) {
        return None;
    }
    let key = str_chars("device_name=");
    match find_exec(&t, &key) {
        None => None,
        Some(idx) => {
            proof {
                crate::text::lemma_find_from_props(t@, key@, 0);
                assert(crate::text::matches_at(t@, key@, idx as int));
            }
            let rest = sub_chars(&t, idx + key.len(), t.len());
            proof {
                assert(rest@ =~= t@.skip(idx + key@.len()));
            }
            let value = trim_chars(&rest);
            if value.len() == 0 || chars_eq_str(&value, "system_default") {
                Some(None)
            } else {
                Some(Some(value))
            }
        },
    }
}

/// The first whitespace-separated token after `key` on `line`.
pub fn parse_marker_token(line: &Vec<char>, key: &str) -> (r: Option<Vec<char>>)
    ensures
        r matches Some(v) ==> spec_marker_token(line@, key@) == Some(v@),
        r is None ==> spec_marker_token(line@, key@) is None,
{
    let k = str_chars(key);
    match find_exec(line, &k) {
        None => None,
        Some(start) => {
            proof {
                crate::text::lemma_find_from_props(line@, k@, 0);
                assert(crate::text::matches_at(line@, k@, start as int));
                assert(start + k@.len() <= line@.len());
                assert(k@.len() == k.len());
                assert(line@.len() == line.len());
            }
            let rest = sub_chars(line, start + k.len(), line.len());
            proof {
                assert(rest@ =~= line@.skip(start + k@.len()));
            }
            first_token_exec(&rest)
        },
    }
}

fn mic_error_line_exec(line: &Vec<char>) -> (r: Option<Option<(Vec<char>, Vec<char>)>>)
    ensures
        r matches Some(Some((a, b))) ==> mic_error_line(line@) == Some(Some((a@, b@))),
        r matches Some(None) ==> mic_error_line(line@) == Some(None::<(Seq<char>, Seq<char>)>),
        r is None ==> mic_error_line(line@) is None,
{
    let t = trim_chars(line);
    if !contains_str(&t, "phase: mic_backend_error") {
        return None;
    }
    let code = match parse_marker_token(&t, "code=") {
        None => {
            return Some(None);
        },
        Some(c) => c,
    };
    let key = str_chars("reason=");
    match find_exec(&t, &key) {
        None => Some(None),
        Some(ri) => {
            proof {
                crate::text::lemma_find_from_props(t@, key@, 0);
                assert(crate::text::matches_at(t@, key@, ri as int));
            }
            let rest = sub_chars(&t, ri + key.len(), t.len());
            proof {
                assert(rest@ =~= t@.skip(ri + key@.len()));
            }
            let reason = trim_chars(&rest);
            if reason.len() == 0 {
                let code2 = code.clone();
                Some(Some((code, code2)))
            } else {
                Some(Some((code, reason)))
            }
        },
    }
}

// ---------------------------------------------------------------------------
// Public parsers
// ---------------------------------------------------------------------------

/// The latest positive `mic_samples_per_sec=` value.
pub fn parse_latest_mic_samples_per_sec(log: &str) -> (r: Option<u32>)
    ensures
        r == spec_parse_latest_mic_samples_per_sec(log@),
{
    let ls = split_lines(&str_chars(log));
    let ghost l = lines(log@);
    let ghost f = mic_samples_decider();
    let mut i = ls.len();
    proof {
        assert(l.take(l.len() as int) =~= l);
    }
    while i > 0
        invariant
            f == (mic_samples_decider()),
            i <= ls.len(),
            views(ls@) == l,
            l == lines(log@),
            scan_back(l.take(i as int), f) == scan_back(l, f),
        decreases i,
    {
        proof {
            lemma_scan_back_step(l, f, i as int);
            assert(ls@[i - 1]@ == l[i - 1]);
        }
        match mic_samples_line_exec(&ls[i - 1]) {
            Some(d) => {
                return d;
            },
            None => {},
        }
        i = i - 1;
    }
    proof {
        lemma_scan_back_empty(l, f);
    }
    None
}

/// The latest microphone attach state marker.
pub fn parse_latest_mic_attach_runtime_state(log: &str) -> (r: Option<MicAttachRuntimeState>)
    ensures
        r == spec_parse_latest_mic_attach_runtime_state(log@),
{
    let ls = split_lines(&str_chars(log));
    let ghost l = lines(log@);
    let ghost f = mic_attach_decider();
    let mut i = ls.len();
    proof {
        assert(l.take(l.len() as int) =~= l);
    }
    while i > 0
        invariant
            f == (mic_attach_decider()),
            i <= ls.len(),
            views(ls@) == l,
            l == lines(log@),
            scan_back(l.take(i as int), f) == scan_back(l, f),
        decreases i,
    {
        proof {
            lemma_scan_back_step(l, f, i as int);
            assert(ls@[i - 1]@ == l[i - 1]);
        }
        match mic_attach_line_exec(&ls[i - 1]) {
            Some(d) => {
                return d;
            },
            None => {},
        }
        i = i - 1;
    }
    proof {
        lemma_scan_back_empty(l, f);
    }
    None
}

/// The latest `video_frame_drop_total=` count (its first token).
pub fn parse_latest_video_frame_drop_total(log: &str) -> (r: Option<u64>)
    ensures
        r == spec_parse_latest_video_frame_drop_total(log@),
{
    let ls = split_lines(&str_chars(log));
    let ghost l = lines(log@);
    let ghost f = frame_drop_decider();
    let mut i = ls.len();
    proof {
        assert(l.take(l.len() as int) =~= l);
    }
    while i > 0
        invariant
            f == (frame_drop_decider()),
            i <= ls.len(),
            views(ls@) == l,
            l == lines(log@),
            scan_back(l.take(i as int), f) == scan_back(l, f),
        decreases i,
    {
        proof {
            lemma_scan_back_step(l, f, i as int);
            assert(ls@[i - 1]@ == l[i - 1]);
        }
        match frame_drop_line_exec(&ls[i - 1]) {
            Some(d) => {
                return d;
            },
            None => {},
        }
        i = i - 1;
    }
    proof {
        lemma_scan_back_empty(l, f);
    }
    None
}

/// The latest `video_queue_overflow_count=` value.
pub fn parse_latest_video_queue_overflow_count(log: &str) -> (r: Option<u64>)
    ensures
        r == spec_parse_latest_video_queue_overflow_count(log@),
{
    let ls = split_lines(&str_chars(log));
    let ghost l = lines(log@);
    let ghost f = queue_overflow_decider();
    let mut i = ls.len();
    proof {
        assert(l.take(l.len() as int) =~= l);
    }
    while i > 0
        invariant
            f == (queue_overflow_decider()),
            i <= ls.len(),
            views(ls@) == l,
            l == lines(log@),
            scan_back(l.take(i as int), f) == scan_back(l, f),
        decreases i,
    {
        proof {
            lemma_scan_back_step(l, f, i as int);
            assert(ls@[i - 1]@ == l[i - 1]);
        }
        match queue_overflow_line_exec(&ls[i - 1]) {
            Some(d) => {
                return d;
            },
            None => {},
        }
        i = i - 1;
    }
    proof {
        lemma_scan_back_empty(l, f);
    }
    None
}

/// Shared backwards scan for the deciders that produce text.
fn scan_back_text(
    ls: &Vec<Vec<char>>,
    which: u8,
    Ghost(f): Ghost<spec_fn(Seq<char>) -> Option<Option<Seq<char>>>>,
) -> (r: Option<Vec<char>>)
    requires
        which == 0 ==> f == (memory_pressure_decider()),
        which == 1 ==> f == (thermal_decider()),
        which == 2 ==> f == (mic_recovery_decider()),
        which == 3 ==> f == (mic_name_decider()),
        which <= 3,
    ensures
        r matches Some(v) ==> scan_back(views(ls@), f) == Some(v@),
        r is None ==> scan_back(views(ls@), f) is None,
{
    let ghost l = views(ls@);
    let mut i = ls.len();
    proof {
        assert(l.take(l.len() as int) =~= l);
    }
    while i > 0
        invariant
            i <= ls.len(),
            l == views(ls@),
            scan_back(l.take(i as int), f) == scan_back(l, f),
            which == 0 ==> f == (memory_pressure_decider()),
            which == 1 ==> f == (thermal_decider()),
            which == 2 ==> f == (mic_recovery_decider()),
            which == 3 ==> f == (mic_name_decider()),
            which <= 3,
        decreases i,
    {
        proof {
            lemma_scan_back_step(l, f, i as int);
            assert(ls@[i - 1]@ == l[i - 1]);
        }
        let d = if which == 0 {
            memory_pressure_line_exec(&ls[i - 1])
        } else if which == 1 {
            thermal_line_exec(&ls[i - 1])
        } else if which == 2 {
            mic_recovery_line_exec(&ls[i - 1])
        } else {
            mic_name_line_exec(&ls[i - 1])
        };
        match d {
            Some(Some(v)) => {
                return Some(v);
            },
            Some(None) => {
                return None;
            },
            None => {},
        }
        i = i - 1;
    }
    proof {
        lemma_scan_back_empty(l, f);
    }
    None
}

fn opt_chars_to_string(o: Option<Vec<char>>) -> (r: Option<String>)
    ensures
        opt_string(r) == match o {
            Some(v) => Some(v@),
            None => None::<Seq<char>>,
        },
{
    match o {
        Some(v) => Some(chars_to_string(&v)),
        None => None,
    }
}

/// The latest recognised `system_memory_pressure=` level, lower-cased.
pub fn parse_latest_system_memory_pressure_level(log: &str) -> (r: Option<String>)
    ensures
        opt_string(r) == spec_parse_latest_system_memory_pressure_level(log@),
{
    let ls = split_lines(&str_chars(log));
    opt_chars_to_string(scan_back_text(&ls, 0, Ghost(memory_pressure_decider())))
}

/// The latest recognised `thermal_state=` level, lower-cased.
pub fn parse_latest_helper_thermal_state(log: &str) -> (r: Option<String>)
    ensures
        opt_string(r) == spec_parse_latest_helper_thermal_state(log@),
{
    let ls = split_lines(&str_chars(log));
    opt_chars_to_string(scan_back_text(&ls, 1, Ghost(thermal_decider())))
}

/// `ok` after a ready/recovered mic backend, `retrying` after an error or a
/// scheduled retry, whichever was logged last.
pub fn parse_latest_mic_recovery_state(log: &str) -> (r: Option<String>)
    ensures
        opt_string(r) == spec_parse_latest_mic_recovery_state(log@),
{
    let ls = split_lines(&str_chars(log));
    opt_chars_to_string(scan_back_text(&ls, 2, Ghost(mic_recovery_decider())))
}

/// The device name of the latest mic backend attempt/ready/recovered line;
/// `None` when that line names the system default or no device.
pub fn parse_latest_selected_microphone_name(log: &str) -> (r: Option<String>)
    ensures
        opt_string(r) == spec_parse_latest_selected_microphone_name(log@),
{
    let ls = split_lines(&str_chars(log));
    opt_chars_to_string(scan_back_text(&ls, 3, Ghost(mic_name_decider())))
}

/// `(code, reason)` of the latest mic backend error line.
pub fn parse_latest_mic_backend_error(log: &str) -> (r: Option<(String, String)>)
    ensures
        opt_pair_view(r) == spec_parse_latest_mic_backend_error(log@),
{
    let ls = split_lines(&str_chars(log));
    let ghost l = lines(log@);
    let ghost f = mic_error_decider();
    let mut i = ls.len();
    proof {
        assert(l.take(l.len() as int) =~= l);
    }
    while i > 0
        invariant
            f == (mic_error_decider()),
            i <= ls.len(),
            views(ls@) == l,
            l == lines(log@),
            scan_back(l.take(i as int), f) == scan_back(l, f),
        decreases i,
    {
        proof {
            lemma_scan_back_step(l, f, i as int);
            assert(ls@[i - 1]@ == l[i - 1]);
        }
        match mic_error_line_exec(&ls[i - 1]) {
            Some(Some((a, b))) => {
                return Some((chars_to_string(&a), chars_to_string(&b)));
            },
            Some(None) => {
                return None;
            },
            None => {},
        }
        i = i - 1;
    }
    proof {
        lemma_scan_back_empty(l, f);
    }
    None
}

} // verus!
