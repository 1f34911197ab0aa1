//! Starting the live capture: waiting for the first segment of an attempt,
//! the error of an attempt that failed, the error carried when capture fell
//! back to another audio mode, and the watch over the running helper,
//! encoder and segment folder.
use vstd::prelude::*;
use crate::log_markers::{
    helper_exit_indicates_user_stopped_sharing, is_startup_interrupted_log, HELPER_INTERRUPTED_EXIT_CODE,
    is_user_stopped_sharing_log, spec_helper_exit_indicates_user_stopped_sharing,
    spec_is_startup_interrupted_log, spec_is_user_stopped_sharing_log, spec_startup_stall_kind,
    stall_code, stall_guidance, startup_timeout_guidance, startup_timeout_reason_code,
};
use crate::replay_window::{seg_views, SegView, SegmentEntry};
use crate::seqs::{join, join_strings};
use crate::write_order::{lemma_write_order_prefix, write_order, write_order_indices};
use crate::startup::{
    is_output_dir_permission_error, mode_name, spec_is_output_dir_permission_error,
    strip_output_dir_permission_prefix, AudioMode,
};
use crate::text::{append_str, chars_to_string, contains, contains_str, decimal, push_decimal, str_chars, texts, trim};

verus! {

pub const STARTUP_SOFT_READY_EXTENSION_MS: u64 = 2_000;

pub const SEGMENT_DIR_PERMISSION_FAILURE_THRESHOLD: u8 = 3;

/// What one look at a starting attempt found.
#[derive(Debug, Clone, Copy, PartialEq, Eq, Structural)]
pub struct StartupProbeReadings {
    /// A stable segment of this session exists.
    pub stable_segment_ready: bool,
    /// A segment of this session has started to grow.
    pub segment_progress_ready: bool,
    /// The log of the attempt shows the first system-audio frame.
    pub system_audio_marker_ready: bool,
    /// The log of the attempt shows the soft-ready markers.
    pub soft_ready_markers_present: bool,
    /// The encoder has exited.
    pub ffmpeg_exited: bool,
    /// The capture helper has exited.
    pub helper_exited: bool,
    /// The log of the attempt shows the first microphone frame.
    pub mic_frames_flowing: bool,
    /// Milliseconds since the attempt started.
    pub elapsed_ms: u64,
}

/// The time limit of an attempt and the extensions it has had.
#[derive(Debug, Clone, Copy, PartialEq, Eq, Structural)]
pub struct StartupProbeState {
    pub timeout_limit_ms: u64,
    pub soft_ready_extension_applied: bool,
    pub mic_extension_applied: bool,
}

/// The verdict of one look.
#[derive(Debug, Clone, Copy, PartialEq, Eq, Structural)]
pub enum StartupProbeVerdict {
    /// Capture is up: with a stable segment, or only soft-ready.
    Ready { stable_segment: bool },
    FfmpegExited,
    HelperExited,
    /// Video segments but no system audio within the limit.
    TimeoutNoAudio,
    /// No segment within the limit.
    TimeoutNoSegments,
    /// The limit was extended because capture is almost ready.
    ExtendedSoftReady,
    /// The limit was extended because microphone frames flow.
    ExtendedMicFrames,
    /// Look again later.
    Waiting,
}

pub open spec fn extended(limit: u64) -> u64 {
    if limit > u64::MAX - STARTUP_SOFT_READY_EXTENSION_MS {
        u64::MAX
    } else {
        (limit + STARTUP_SOFT_READY_EXTENSION_MS) as u64
    }
}

/// One look at a starting attempt: ready once a stable segment (with
/// system audio when it is required) or the soft-ready signs are there;
/// failed when the encoder or the helper exited; at the limit, extended
/// once for soft-ready signs and once for flowing microphone frames, then
/// ready when soft-ready, else timed out for missing audio or segments.
pub open spec fn spec_startup_probe_step(
    st: StartupProbeState,
    rd: StartupProbeReadings,
    require_system_audio_marker: bool,
) -> (StartupProbeState, StartupProbeVerdict) {
    let audio_ok = !require_system_audio_marker || rd.system_audio_marker_ready;
    let soft_from_progress = rd.segment_progress_ready && audio_ok;
    let soft_ready = rd.soft_ready_markers_present || soft_from_progress;
    if rd.stable_segment_ready && audio_ok {
        (st, StartupProbeVerdict::Ready { stable_segment: true })
    } else if soft_ready {
        (st, StartupProbeVerdict::Ready { stable_segment: false })
    } else if rd.ffmpeg_exited {
        (st, StartupProbeVerdict::FfmpegExited)
    } else if rd.helper_exited {
        (st, StartupProbeVerdict::HelperExited)
    } else if rd.elapsed_ms < st.timeout_limit_ms {
        (st, StartupProbeVerdict::Waiting)
    } else if !st.soft_ready_extension_applied && (rd.soft_ready_markers_present
        || rd.segment_progress_ready) {
        (
            StartupProbeState {
                timeout_limit_ms: extended(st.timeout_limit_ms),
                soft_ready_extension_applied: true,
                ..st
            },
            StartupProbeVerdict::ExtendedSoftReady,
        )
    } else if !st.mic_extension_applied && rd.mic_frames_flowing {
        (
            StartupProbeState {
                timeout_limit_ms: extended(st.timeout_limit_ms),
                mic_extension_applied: true,
                ..st
            },
            StartupProbeVerdict::ExtendedMicFrames,
        )
    } else if require_system_audio_marker && (rd.stable_segment_ready || rd.segment_progress_ready)
        && !rd.system_audio_marker_ready {
        (st, StartupProbeVerdict::TimeoutNoAudio)
    } else {
        (st, StartupProbeVerdict::TimeoutNoSegments)
    }
}

impl StartupProbeState {
    pub fn new(timeout_ms: u64) -> (r: Self)
        ensures
            r.timeout_limit_ms == timeout_ms,
            !r.soft_ready_extension_applied,
            !r.mic_extension_applied,
    {
        StartupProbeState {
            timeout_limit_ms: timeout_ms,
            soft_ready_extension_applied: false,
            mic_extension_applied: false,
        }
    }

    /// See `spec_startup_probe_step`.
    pub fn step(&mut self, readings: &StartupProbeReadings, require_system_audio_marker: bool) -> (r:
        StartupProbeVerdict)
        ensures
            (*final(self), r) == spec_startup_probe_step(
                *old(self),
                *readings,
                require_system_audio_marker,
            ),
    {
        let audio_ok = !require_system_audio_marker || readings.system_audio_marker_ready;
        let soft_from_progress = readings.segment_progress_ready && audio_ok;
        let soft_ready = readings.soft_ready_markers_present || soft_from_progress;
        if readings.stable_segment_ready && audio_ok {
            return StartupProbeVerdict::Ready { stable_segment: true };
        }
        if soft_ready {
            return StartupProbeVerdict::Ready { stable_segment: false };
        }
        if readings.ffmpeg_exited {
            return StartupProbeVerdict::FfmpegExited;
        }
        if readings.helper_exited {
            return StartupProbeVerdict::HelperExited;
        }
        if readings.elapsed_ms < self.timeout_limit_ms {
            return StartupProbeVerdict::Waiting;
        }
        let next_limit = if self.timeout_limit_ms > u64::MAX - STARTUP_SOFT_READY_EXTENSION_MS {
            u64::MAX
        } else {
            self.timeout_limit_ms + STARTUP_SOFT_READY_EXTENSION_MS
        };
        if !self.soft_ready_extension_applied && (readings.soft_ready_markers_present
            || readings.segment_progress_ready) {
            self.soft_ready_extension_applied = true;
            self.timeout_limit_ms = next_limit;
            return StartupProbeVerdict::ExtendedSoftReady;
        }
        if !self.mic_extension_applied && readings.mic_frames_flowing {
            self.mic_extension_applied = true;
            self.timeout_limit_ms = next_limit;
            return StartupProbeVerdict::ExtendedMicFrames;
        }
        if require_system_audio_marker && (readings.stable_segment_ready
            || readings.segment_progress_ready) && !readings.system_audio_marker_ready {
            return StartupProbeVerdict::TimeoutNoAudio;
        }
        StartupProbeVerdict::TimeoutNoSegments
    }
}

/// An attempt's limit grows by at most two extensions: each kind of
/// extension is granted once.
pub proof fn startup_probe_extends_at_most_twice(
    st: StartupProbeState,
    rd: StartupProbeReadings,
    require_system_audio_marker: bool,
)
    ensures
        ({
            let (next, v) = spec_startup_probe_step(st, rd, require_system_audio_marker);
            &&& v == StartupProbeVerdict::ExtendedSoftReady ==> !st.soft_ready_extension_applied
                && next.soft_ready_extension_applied
            &&& v == StartupProbeVerdict::ExtendedMicFrames ==> !st.mic_extension_applied
                && next.mic_extension_applied
            &&& !(v == StartupProbeVerdict::ExtendedSoftReady || v
                == StartupProbeVerdict::ExtendedMicFrames) ==> next == st
        }),
{
}

/// The log lines written when an attempt is ready.
pub open spec fn spec_ready_log_lines(stable_segment: bool, require_system_audio_marker: bool) -> Seq<
    Seq<char>,
> {
    (if require_system_audio_marker {
        seq!["phase: first_audio_path_ready"@]
    } else {
        Seq::empty()
    }) + seq![
        if stable_segment {
            "phase: first_stable_segment"@
        } else {
            "phase: startup_soft_ready_no_stable_segment_yet"@
        },
        "phase: first_segment_closed"@,
    ]
}

pub fn ready_log_lines(stable_segment: bool, require_system_audio_marker: bool) -> (r: Vec<String>)
    ensures
        texts(r@) == spec_ready_log_lines(stable_segment, require_system_audio_marker),
{
    let mut v: Vec<String> = Vec::new();
    if require_system_audio_marker {
        v.push("phase: first_audio_path_ready".to_string());
    }
    if stable_segment {
        v.push("phase: first_stable_segment".to_string());
    } else {
        v.push("phase: startup_soft_ready_no_stable_segment_yet".to_string());
    }
    v.push("phase: first_segment_closed".to_string());
    assert(texts(v@) =~= spec_ready_log_lines(stable_segment, require_system_audio_marker));
    v
}

/// The error of an attempt whose encoder exited.
pub open spec fn spec_ffmpeg_startup_exit_error(status: Seq<char>, mode: AudioMode, log_tail: Seq<
    char,
>) -> Seq<char> {
    "ffmpeg encoder exited during startup with status "@ + status + " (mode="@ + mode_name(mode)
        + "). log: "@ + log_tail
}

pub fn ffmpeg_startup_exit_error(status: &str, mode: AudioMode, log_tail: &str) -> (r: String)
    ensures
        r@ == spec_ffmpeg_startup_exit_error(status@, mode, log_tail@),
{
    let mut v: Vec<char> = Vec::new();
    append_str(&mut v, "ffmpeg encoder exited during startup with status ");
    append_str(&mut v, status);
    append_str(&mut v, " (mode=");
    append_str(&mut v, mode.as_str());
    append_str(&mut v, "). log: ");
    append_str(&mut v, log_tail);
    chars_to_string(&v)
}

/// The error of an attempt whose helper exited: a user stop, an
/// interrupted start, or a plain exit.
pub open spec fn spec_helper_startup_exit_error(
    exit_code: Option<i32>,
    status: Seq<char>,
    mode: AudioMode,
    log_tail: Seq<char>,
) -> Seq<char> {
    if spec_helper_exit_indicates_user_stopped_sharing(exit_code, log_tail) {
        "user_stopped_sharing: ScreenCaptureKit capture was stopped by macOS screen-recording controls during startup (status "@
            + status + ", mode="@ + mode_name(mode) + "). log: "@ + log_tail
    } else if spec_is_startup_interrupted_log(log_tail) {
        "capture_start_interrupted: ScreenCaptureKit startup interrupted (status "@ + status
            + ", mode="@ + mode_name(mode) + "). log: "@ + log_tail
    } else {
        "ScreenCaptureKit helper exited during startup with status "@ + status + " (mode="@
            + mode_name(mode) + "). log: "@ + log_tail
    }
}

pub fn helper_startup_exit_error(
    exit_code: Option<i32>,
    status: &str,
    mode: AudioMode,
    log_tail: &str,
) -> (r: String)
    ensures
        r@ == spec_helper_startup_exit_error(exit_code, status@, mode, log_tail@),
{
    let mut v: Vec<char> = Vec::new();
    if helper_exit_indicates_user_stopped_sharing(exit_code, log_tail) {
        append_str(
            &mut v,
            "user_stopped_sharing: ScreenCaptureKit capture was stopped by macOS screen-recording controls during startup (status ",
        );
        append_str(&mut v, status);
        append_str(&mut v, ", mode=");
    } else if is_startup_interrupted_log(log_tail) {
        append_str(
            &mut v,
            "capture_start_interrupted: ScreenCaptureKit startup interrupted (status ",
        );
        append_str(&mut v, status);
        append_str(&mut v, ", mode=");
    } else {
        append_str(&mut v, "ScreenCaptureKit helper exited during startup with status ");
        append_str(&mut v, status);
        append_str(&mut v, " (mode=");
    }
    append_str(&mut v, mode.as_str());
    append_str(&mut v, "). log: ");
    append_str(&mut v, log_tail);
    chars_to_string(&v)
}

/// The error of an attempt that produced no segment in time: the stall
/// read from the attempt's whole log, its guidance and both tails.
/// `timeout` is the limit as shown.
pub open spec fn spec_startup_timeout_error(
    timeout: Seq<char>,
    mode: AudioMode,
    helper_tail: Seq<char>,
    ffmpeg_tail: Seq<char>,
    combined_tail: Seq<char>,
) -> Seq<char> {
    let k = spec_startup_stall_kind(combined_tail);
    "capture_start_timeout: reason_code="@ + stall_code(k)
        + " ScreenCaptureKit pipeline produced no stable segments within "@ + timeout + " (mode="@
        + mode_name(mode) + "). guidance: "@ + stall_guidance(k) + ". helper_tail: "@ + helper_tail
        + ". ffmpeg_tail: "@ + ffmpeg_tail
}

pub fn startup_timeout_error(
    timeout: &str,
    mode: AudioMode,
    helper_tail: &str,
    ffmpeg_tail: &str,
    combined_tail: &str,
) -> (r: String)
    ensures
        r@ == spec_startup_timeout_error(timeout@, mode, helper_tail@, ffmpeg_tail@, combined_tail@),
{
    let mut v: Vec<char> = Vec::new();
    append_str(&mut v, "capture_start_timeout: reason_code=");
    append_str(&mut v, startup_timeout_reason_code(combined_tail));
    append_str(&mut v, " ScreenCaptureKit pipeline produced no stable segments within ");
    append_str(&mut v, timeout);
    append_str(&mut v, " (mode=");
    append_str(&mut v, mode.as_str());
    append_str(&mut v, "). guidance: ");
    append_str(&mut v, startup_timeout_guidance(combined_tail));
    append_str(&mut v, ". helper_tail: ");
    append_str(&mut v, helper_tail);
    append_str(&mut v, ". ffmpeg_tail: ");
    append_str(&mut v, ffmpeg_tail);
    chars_to_string(&v)
}

/// The error of an attempt with video segments but no audio in time.
pub open spec fn spec_audio_start_timeout_error(
    timeout: Seq<char>,
    mode: AudioMode,
    helper_tail: Seq<char>,
    ffmpeg_tail: Seq<char>,
    combined_tail: Seq<char>,
) -> Seq<char> {
    "audio_start_timeout: ScreenCaptureKit produced video segments but no first audio frame marker within "@
        + timeout + " (mode="@ + mode_name(mode) + "). guidance: "@ + stall_guidance(
        spec_startup_stall_kind(combined_tail),
    ) + ". helper_tail: "@ + helper_tail + ". ffmpeg_tail: "@ + ffmpeg_tail
}

pub fn audio_start_timeout_error(
    timeout: &str,
    mode: AudioMode,
    helper_tail: &str,
    ffmpeg_tail: &str,
    combined_tail: &str,
) -> (r: String)
    ensures
        r@ == spec_audio_start_timeout_error(
            timeout@,
            mode,
            helper_tail@,
            ffmpeg_tail@,
            combined_tail@,
        ),
{
    let mut v: Vec<char> = Vec::new();
    append_str(
        &mut v,
        "audio_start_timeout: ScreenCaptureKit produced video segments but no first audio frame marker within ",
    );
    append_str(&mut v, timeout);
    append_str(&mut v, " (mode=");
    append_str(&mut v, mode.as_str());
    append_str(&mut v, "). guidance: ");
    append_str(&mut v, startup_timeout_guidance(combined_tail));
    append_str(&mut v, ". helper_tail: ");
    append_str(&mut v, helper_tail);
    append_str(&mut v, ". ffmpeg_tail: ");
    append_str(&mut v, ffmpeg_tail);
    chars_to_string(&v)
}

/// How a failed attempt is listed: mode, microphone backend and error.
pub open spec fn spec_mode_error_entry(mode: AudioMode, mic_backend: Seq<char>, err: Seq<char>) -> Seq<
    char,
> {
    mode_name(mode) + " ["@ + mic_backend + "] => "@ + err
}

pub fn mode_error_entry(mode: AudioMode, mic_backend: &str, err: &str) -> (r: String)
    ensures
        r@ == spec_mode_error_entry(mode, mic_backend@, err@),
{
    let mut v: Vec<char> = Vec::new();
    append_str(&mut v, mode.as_str());
    append_str(&mut v, " [");
    append_str(&mut v, mic_backend);
    append_str(&mut v, "] => ");
    append_str(&mut v, err);
    chars_to_string(&v)
}

/// The error when every audio mode failed: the attempts' errors and the
/// log's tail.
pub open spec fn spec_all_modes_failed_error(mode_errors: Seq<Seq<char>>, log_tail: Seq<char>) -> Seq<
    char,
> {
    "failed to start capture after trying all audio modes: "@ + join(mode_errors, " || "@)
        + ". ffmpeg log: "@ + log_tail
}

pub fn all_modes_failed_error(mode_errors: &Vec<String>, log_tail: &str) -> (r: String)
    ensures
        r@ == spec_all_modes_failed_error(texts(mode_errors@), log_tail@),
{
    let joined = join_strings(mode_errors, " || ");
    let mut v: Vec<char> = Vec::new();
    append_str(&mut v, "failed to start capture after trying all audio modes: ");
    append_str(&mut v, joined.as_str());
    append_str(&mut v, ". ffmpeg log: ");
    append_str(&mut v, log_tail);
    chars_to_string(&v)
}

pub open spec fn names_mic_stall(e: Seq<char>) -> bool {
    contains(e, "mic_pipe_startup_stalled"@) || contains(e, "mic_first_frame_startup_stalled"@)
}

pub open spec fn any_names_mic_stall(es: Seq<Seq<char>>) -> bool {
    exists|i: int| 0 <= i < es.len() && names_mic_stall(#[trigger] es[i])
}

pub open spec fn any_names_first_frame_stall(es: Seq<Seq<char>>) -> bool {
    exists|i: int| 0 <= i < es.len() && contains(#[trigger] es[i], "mic_first_frame_startup_stalled"@)
}

/// Why capture started in another audio mode than asked: a microphone
/// stall named by a failed attempt (the first-frame stall first), else the
/// last attempt's error; none when capture runs in the mode asked for or no
/// attempt failed.
pub open spec fn spec_startup_fallback_error(
    active_mode: AudioMode,
    requested_mode: Seq<char>,
    mode_errors: Seq<Seq<char>>,
) -> Option<Seq<char>> {
    if mode_name(active_mode) == requested_mode || mode_errors.len() == 0 {
        None
    } else if any_names_mic_stall(mode_errors) {
        if any_names_first_frame_stall(mode_errors) {
            Some(
                "mic_first_frame_startup_stalled: mixed microphone backend started but no first usable mic frame reached ffmpeg; continuing with system audio only."@,
            )
        } else {
            Some(
                "mic_pipe_startup_stalled: mixed microphone pipe startup stalled before stable segments; continuing with system audio only."@,
            )
        }
    } else {
        Some(mode_errors.last())
    }
}

pub fn startup_fallback_error(
    active_mode: AudioMode,
    requested_mode: &str,
    mode_errors: &Vec<String>,
) -> (r: Option<String>)
    ensures
        match spec_startup_fallback_error(active_mode, requested_mode@, texts(mode_errors@)) {
            Some(e) => r matches Some(s) && s@ == e,
            None => r is None,
        },
{
    let ghost es = texts(mode_errors@);
    if crate::text::str_eq(active_mode.as_str(), requested_mode) || mode_errors.len() == 0 {
        return None;
    }
    let mut any_stall = false;
    let mut any_first_frame = false;
    let mut i: usize = 0;
    while i < mode_errors.len()
        invariant
            i <= mode_errors.len(),
            es == texts(mode_errors@),
            any_stall == exists|k: int| 0 <= k < i && names_mic_stall(#[trigger] es[k]),
            any_first_frame == exists|k: int|
                0 <= k < i && contains(#[trigger] es[k], "mic_first_frame_startup_stalled"@),
        decreases mode_errors.len() - i,
    {
        let e = str_chars(mode_errors[i].as_str());
        assert(e@ == es[i as int]);
        let first_frame = contains_str(&e, "mic_first_frame_startup_stalled");
        let stall = contains_str(&e, "mic_pipe_startup_stalled") || first_frame;
        any_stall = any_stall || stall;
        any_first_frame = any_first_frame || first_frame;
        i = i + 1;
    }
    if any_stall {
        if any_first_frame {
            Some(
                "mic_first_frame_startup_stalled: mixed microphone backend started but no first usable mic frame reached ffmpeg; continuing with system audio only.".to_string(),
            )
        } else {
            Some(
                "mic_pipe_startup_stalled: mixed microphone pipe startup stalled before stable segments; continuing with system audio only.".to_string(),
            )
        }
    } else {
        Some(mode_errors[mode_errors.len() - 1].clone())
    }
}

/// The microphone stall named by a fallback error, if any.
pub open spec fn spec_fallback_cause_code(e: Seq<char>) -> Option<Seq<char>> {
    if contains(e, "mic_first_frame_startup_stalled"@) {
        Some("mic_first_frame_startup_stalled"@)
    } else if contains(e, "mic_pipe_startup_stalled"@) {
        Some("mic_pipe_startup_stalled"@)
    } else {
        None
    }
}

pub fn fallback_cause_code(error: &str) -> (r: Option<&'static str>)
    ensures
        match spec_fallback_cause_code(error@) {
            Some(c) => r matches Some(s) && s@ == c,
            None => r is None,
        },
{
    let e = str_chars(error);
    if contains_str(&e, "mic_first_frame_startup_stalled") {
        Some("mic_first_frame_startup_stalled")
    } else if contains_str(&e, "mic_pipe_startup_stalled") {
        Some("mic_pipe_startup_stalled")
    } else {
        None
    }
}

/// After one pruning of the segment folder: the count of permission
/// failures in a row (reset by a success or another error) and, at the
/// third, the error that stops capture.
pub open spec fn spec_prune_failure_step(failures: u8, prune_error: Option<Seq<char>>) -> (
    u8,
    Option<Seq<char>>,
) {
    match prune_error {
        Some(e) => if spec_is_output_dir_permission_error(e) {
            let n: u8 = if failures == 255 {
                255
            } else {
                (failures + 1) as u8
            };
            if n >= SEGMENT_DIR_PERMISSION_FAILURE_THRESHOLD {
                (
                    n,
                    Some(
                        "output_dir_permission_required: "@ + trim(
                            e.skip("output_dir_permission_required:"@.len() as int),
                        ),
                    ),
                )
            } else {
                (n, None)
            }
        } else {
            (0, None)
        },
        None => (0, None),
    }
}

pub fn prune_failure_step(failures: u8, prune_error: Option<&str>) -> (r: (u8, Option<String>))
    ensures
        ({
            let (n, e) = spec_prune_failure_step(
                failures,
                match prune_error {
                    Some(e) => Some(e@),
                    None => None,
                },
            );
            &&& r.0 == n
            &&& match e {
                Some(m) => r.1 matches Some(s) && s@ == m,
                None => r.1 is None,
            }
        }),
{
    match prune_error {
        Some(e) => {
            if is_output_dir_permission_error(e) {
                let n: u8 = if failures == 255 {
                    255
                } else {
                    failures + 1
                };
                if n >= SEGMENT_DIR_PERMISSION_FAILURE_THRESHOLD {
                    let mut v: Vec<char> = Vec::new();
                    append_str(&mut v, "output_dir_permission_required: ");
                    append_str(&mut v, strip_output_dir_permission_prefix(e).as_str());
                    (n, Some(chars_to_string(&v)))
                } else {
                    (n, None)
                }
            } else {
                (0, None)
            }
        },
        None => (0, None),
    }
}

/// The error recorded when the helper exits while capture runs: a user stop
/// for the interrupted exit code or a user-stop log, else an unexpected exit.
pub open spec fn spec_helper_runtime_exit_error(
    exit_code: Option<i32>,
    status: Seq<char>,
    log_tail: Seq<char>,
) -> Seq<char> {
    if exit_code == Some(HELPER_INTERRUPTED_EXIT_CODE) || spec_is_user_stopped_sharing_log(log_tail) {
        "user_stopped_sharing: ScreenCaptureKit capture was stopped by macOS screen-recording controls. status="@
            + status + ". log: "@ + log_tail
    } else {
        "ScreenCaptureKit helper exited unexpectedly with status "@ + status
    }
}

pub fn helper_runtime_exit_error(exit_code: Option<i32>, status: &str, log_tail: &str) -> (r: String)
    ensures
        r@ == spec_helper_runtime_exit_error(exit_code, status@, log_tail@),
{
    let mut v: Vec<char> = Vec::new();
    if exit_code == Some(HELPER_INTERRUPTED_EXIT_CODE) || is_user_stopped_sharing_log(log_tail) {
        append_str(
            &mut v,
            "user_stopped_sharing: ScreenCaptureKit capture was stopped by macOS screen-recording controls. status=",
        );
        append_str(&mut v, status);
        append_str(&mut v, ". log: ");
        append_str(&mut v, log_tail);
    } else {
        append_str(&mut v, "ScreenCaptureKit helper exited unexpectedly with status ");
        append_str(&mut v, status);
    }
    chars_to_string(&v)
}

/// The log line of a capture lock taken over from a stale owner.
pub open spec fn spec_stale_lock_reclaimed_line(owner_pid: Option<u32>, session_id: Option<Seq<char>>) -> Seq<
    char,
> {
    "phase: stale_capture_lock_reclaimed owner_pid="@ + match owner_pid {
        Some(p) => decimal(p as nat),
        None => "unknown"@,
    } + " session_id="@ + match session_id {
        Some(s) => s,
        None => "unknown_session"@,
    }
}

pub fn stale_lock_reclaimed_line(owner_pid: Option<u32>, session_id: Option<&str>) -> (r: String)
    ensures
        r@ == spec_stale_lock_reclaimed_line(
            owner_pid,
            match session_id {
                Some(s) => Some(s@),
                None => None,
            },
        ),
{
    let mut v: Vec<char> = Vec::new();
    append_str(&mut v, "phase: stale_capture_lock_reclaimed owner_pid=");
    match owner_pid {
        Some(p) => push_decimal(&mut v, p as u64),
        None => append_str(&mut v, "unknown"),
    }
    append_str(&mut v, " session_id=");
    match session_id {
        Some(s) => append_str(&mut v, s),
        None => append_str(&mut v, "unknown_session"),
    }
    assert(v@ =~= spec_stale_lock_reclaimed_line(
        owner_pid,
        match session_id {
            Some(s) => Some(s@),
            None => None,
        },
    ));
    chars_to_string(&v)
}

/// The error when another instance holds the capture lock: its owner and
/// session as the lock file names them, the lock's path and the lock error.
pub open spec fn spec_capture_owner_exists_error(
    owner_pid: Option<u32>,
    session_id: Option<Seq<char>>,
    lock_path: Seq<char>,
    lock_err: Seq<char>,
) -> Seq<char> {
    "capture_owner_exists: Another Rewinder instance is already capturing."@ + match owner_pid {
        Some(p) => " owner_pid="@ + decimal(p as nat),
        None => ""@,
    } + match session_id {
        Some(s) => " session_id="@ + s,
        None => ""@,
    } + " lock_path="@ + lock_path + " lock_err="@ + lock_err
}

pub fn capture_owner_exists_error(
    owner_pid: Option<u32>,
    session_id: Option<&str>,
    lock_path: &str,
    lock_err: &str,
) -> (r: String)
    ensures
        r@ == spec_capture_owner_exists_error(
            owner_pid,
            match session_id {
                Some(s) => Some(s@),
                None => None,
            },
            lock_path@,
            lock_err@,
        ),
{
    let mut v: Vec<char> = Vec::new();
    append_str(&mut v, "capture_owner_exists: Another Rewinder instance is already capturing.");
    let ghost a = v@;
    match owner_pid {
        Some(p) => {
            append_str(&mut v, " owner_pid=");
            push_decimal(&mut v, p as u64);
        },
        None => {},
    }
    let ghost b = v@;
    match session_id {
        Some(s) => {
            append_str(&mut v, " session_id=");
            append_str(&mut v, s);
        },
        None => {},
    }
    let ghost c = v@;
    append_str(&mut v, " lock_path=");
    append_str(&mut v, lock_path);
    append_str(&mut v, " lock_err=");
    append_str(&mut v, lock_err);
    proof {
        reveal_strlit("");
        assert(b =~= a + match owner_pid {
            Some(p) => " owner_pid="@ + decimal(p as nat),
            None => ""@,
        });
        assert(c =~= b + match session_id {
            Some(s) => " session_id="@ + s@,
            None => ""@,
        });
    }
    assert(v@ =~= spec_capture_owner_exists_error(
        owner_pid,
        match session_id {
            Some(s) => Some(s@),
            None => None,
        },
        lock_path@,
        lock_err@,
    ));
    chars_to_string(&v)
}

/// The lock's recorded owner is another process that no longer runs: the
/// lock is taken over and reported as stale.
pub fn is_stale_lock_owner(owner_pid: Option<u32>, self_pid: u32, owner_running: bool) -> (r: bool)
    ensures
        r == (match owner_pid {
            Some(p) => p != self_pid && !owner_running,
            None => false,
        }),
{
    match owner_pid {
        Some(p) => p != self_pid && !owner_running,
        None => false,
    }
}

pub const RETENTION_MARGIN_SEGMENTS: usize = 12;

/// The segment length the capture cuts: the configured one kept between a
/// quarter second and two seconds, in milliseconds.
pub open spec fn segment_ms_clamped(segment_time_ms: u16) -> int {
    if segment_time_ms < 250 {
        250
    } else if segment_time_ms > 2000 {
        2000
    } else {
        segment_time_ms as int
    }
}

/// The segments to keep for the buffer: enough to cover it (at least one),
/// and a margin.
pub open spec fn spec_keep_segment_count(buffer_duration_secs: u16, segment_time_ms: u16) -> int {
    let seg = segment_ms_clamped(segment_time_ms);
    let cover = (buffer_duration_secs as int * 1000 + seg - 1) / seg;
    (if cover < 1 {
        1
    } else {
        cover
    }) + RETENTION_MARGIN_SEGMENTS
}

pub fn keep_segment_count_for_duration(buffer_duration_secs: u16, segment_time_ms: u16) -> (r: usize)
    ensures
        r as int == spec_keep_segment_count(buffer_duration_secs, segment_time_ms),
{
    let seg: u64 = if segment_time_ms < 250 {
        250
    } else if segment_time_ms > 2000 {
        2000
    } else {
        segment_time_ms as u64
    };
    let num: u64 = buffer_duration_secs as u64 * 1000 + seg - 1;
    let cover = num / seg;
    proof {
        vstd::arithmetic::div_mod::lemma_div_is_ordered_by_denominator(num as int, 250, seg as int);
        vstd::arithmetic::div_mod::lemma_div_is_ordered(num as int, 65_536_999, 250);
    }
    let c: usize = if cover < 1 {
        1
    } else {
        cover as usize
    };
    c + RETENTION_MARGIN_SEGMENTS
}

/// How many of the oldest segments a pruning removes: those beyond the
/// kept count and a second margin.
pub open spec fn spec_segments_to_prune(
    segment_count: int,
    buffer_duration_secs: u16,
    segment_time_ms: u16,
) -> int {
    let keep = spec_keep_segment_count(buffer_duration_secs, segment_time_ms)
        + RETENTION_MARGIN_SEGMENTS;
    if segment_count <= keep {
        0
    } else {
        segment_count - keep
    }
}

pub fn segments_to_prune(segment_count: usize, buffer_duration_secs: u16, segment_time_ms: u16) -> (r:
    usize)
    ensures
        r as int == spec_segments_to_prune(
            segment_count as int,
            buffer_duration_secs,
            segment_time_ms,
        ),
{
    let keep = keep_segment_count_for_duration(buffer_duration_secs, segment_time_ms)
        + RETENTION_MARGIN_SEGMENTS;
    if segment_count <= keep {
        0
    } else {
        segment_count - keep
    }
}

pub open spec fn bool_text(b: bool) -> Seq<char> {
    if b {
        "true"@
    } else {
        "false"@
    }
}

/// The log lines of a stopped worker: how it was reaped, and a second line
/// when its exit status is unknown or it still runs.
pub open spec fn spec_reap_log_lines(
    name: Seq<char>,
    pid: u32,
    forced_kill: bool,
    status: Option<Seq<char>>,
    still_running: bool,
) -> Seq<Seq<char>> {
    let first = "phase: process_reaped name="@ + name + " pid="@ + decimal(pid as nat)
        + " forced_kill="@ + bool_text(forced_kill) + " status="@ + match status {
        Some(s) => s,
        None => "unknown"@,
    };
    if status is None || still_running {
        seq![
            first,
            "phase: process_reap_incomplete name="@ + name + " pid="@ + decimal(pid as nat)
                + " forced_kill="@ + bool_text(forced_kill) + " status_known="@ + bool_text(
                status is Some,
            ),
        ]
    } else {
        seq![first]
    }
}

fn push_bool(v: &mut Vec<char>, b: bool)
    ensures
        final(v)@ == old(v)@ + bool_text(b),
{
    if b {
        append_str(v, "true");
    } else {
        append_str(v, "false");
    }
}

pub fn reap_log_lines(
    name: &str,
    pid: u32,
    forced_kill: bool,
    status: Option<&str>,
    still_running: bool,
) -> (r: Vec<String>)
    ensures
        texts(r@) == spec_reap_log_lines(
            name@,
            pid,
            forced_kill,
            match status {
                Some(s) => Some(s@),
                None => None,
            },
            still_running,
        ),
{
    let mut a: Vec<char> = Vec::new();
    append_str(&mut a, "phase: process_reaped name=");
    append_str(&mut a, name);
    append_str(&mut a, " pid=");
    push_decimal(&mut a, pid as u64);
    append_str(&mut a, " forced_kill=");
    push_bool(&mut a, forced_kill);
    append_str(&mut a, " status=");
    match status {
        Some(s) => append_str(&mut a, s),
        None => append_str(&mut a, "unknown"),
    }
    let mut out: Vec<String> = Vec::new();
    out.push(chars_to_string(&a));
    if status.is_none() || still_running {
        let mut b: Vec<char> = Vec::new();
        append_str(&mut b, "phase: process_reap_incomplete name=");
        append_str(&mut b, name);
        append_str(&mut b, " pid=");
        push_decimal(&mut b, pid as u64);
        append_str(&mut b, " forced_kill=");
        push_bool(&mut b, forced_kill);
        append_str(&mut b, " status_known=");
        push_bool(&mut b, status.is_some());
        out.push(chars_to_string(&b));
    }
    assert(texts(out@) =~= spec_reap_log_lines(
        name@,
        pid,
        forced_kill,
        match status {
            Some(s) => Some(s@),
            None => None,
        },
        still_running,
    ));
    out
}

/// The segments a pruning of the listing deletes: the oldest by write time
/// (ties in listing order), as many as `spec_segments_to_prune` says; by
/// index into the listing.
pub open spec fn spec_segments_to_delete(
    es: Seq<SegView>,
    buffer_duration_secs: u16,
    segment_time_ms: u16,
) -> Seq<int> {
    write_order(es).take(
        spec_segments_to_prune(es.len() as int, buffer_duration_secs, segment_time_ms),
    )
}

/// The listing's segments that a pruning deletes; see
/// `spec_segments_to_delete`.
pub fn segments_to_delete(entries: &Vec<SegmentEntry>, buffer_duration_secs: u16, segment_time_ms: u16) -> (r:
    Vec<usize>)
    ensures
        r@.map_values(|x: usize| x as int) == spec_segments_to_delete(
            seg_views(entries@),
            buffer_duration_secs,
            segment_time_ms,
        ),
{
    let order = write_order_indices(entries);
    let count = segments_to_prune(entries.len(), buffer_duration_secs, segment_time_ms);
    let ghost ord = order@.map_values(|x: usize| x as int);
    let mut out: Vec<usize> = Vec::new();
    let mut k: usize = 0;
    while k < count
        invariant
            k <= count,
            count <= order.len(),
            ord == order@.map_values(|x: usize| x as int),
            out@.map_values(|x: usize| x as int) == ord.take(k as int),
        decreases count - k,
    {
        let ghost before = out@;
        out.push(order[k]);
        assert(out@ == before.push(order@[k as int]));
        assert(ord[k as int] == order@[k as int] as int);
        assert(out@.map_values(|x: usize| x as int) =~= before.map_values(|x: usize| x as int).push(
            ord[k as int],
        ));
        assert(ord.take(k + 1) =~= ord.take(k as int).push(ord[k as int]));
        k = k + 1;
    }
    out
}

/// A pruning deletes only the oldest segments: each deleted one was written
/// no later than every kept one, no segment is deleted twice, and the
/// kept ones are the newest `keep` count (all of them when there are
/// fewer).
pub proof fn pruning_deletes_only_the_oldest(
    es: Seq<SegView>,
    buffer_duration_secs: u16,
    segment_time_ms: u16,
)
    ensures
        ({
            let del = spec_segments_to_delete(es, buffer_duration_secs, segment_time_ms);
            let ord = write_order(es);
            &&& del.len() == spec_segments_to_prune(
                es.len() as int,
                buffer_duration_secs,
                segment_time_ms,
            )
            &&& del.no_duplicates()
            &&& forall|k: int| 0 <= k < del.len() ==> 0 <= #[trigger] del[k] < es.len()
            &&& forall|d: int, k: int|
                0 <= d < del.len() <= k < ord.len() ==> es[#[trigger] del[d]].modified
                    <= es[#[trigger] ord[k]].modified
            &&& ord.len() - del.len() == if es.len() <= spec_keep_segment_count(
                buffer_duration_secs,
                segment_time_ms,
            ) + RETENTION_MARGIN_SEGMENTS {
                es.len() as int
            } else {
                spec_keep_segment_count(buffer_duration_secs, segment_time_ms)
                    + RETENTION_MARGIN_SEGMENTS
            }
        }),
{
    lemma_write_order_prefix(es, es.len() as int);
    let ord = write_order(es);
    let n = spec_segments_to_prune(es.len() as int, buffer_duration_secs, segment_time_ms);
    let del = ord.take(n);
    assert forall|a: int, b: int| 0 <= a < b < del.len() implies del[a] != del[b] by {
        assert(del[a] == ord[a] && del[b] == ord[b]);
    }
    assert forall|d: int, k: int|
        0 <= d < del.len() <= k < ord.len() implies es[#[trigger] del[d]].modified
            <= es[#[trigger] ord[k]].modified by {
        assert(del[d] == ord[d]);
    }
}

/// The error of a segment folder that could not be read: marked as the
/// output-folder permission when access was denied.
pub open spec fn spec_segment_dir_error(context: Seq<char>, detail: Seq<char>, permission_denied: bool) -> Seq<
    char,
> {
    if permission_denied {
        "output_dir_permission_required: "@ + context + ": "@ + detail
    } else {
        context + ": "@ + detail
    }
}

pub fn segment_dir_error(context: &str, detail: &str, permission_denied: bool) -> (r: String)
    ensures
        r@ == spec_segment_dir_error(context@, detail@, permission_denied),
{
    let mut v: Vec<char> = Vec::new();
    if permission_denied {
        append_str(&mut v, "output_dir_permission_required: ");
    }
    append_str(&mut v, context);
    append_str(&mut v, ": ");
    append_str(&mut v, detail);
    proof {
        reveal_strlit("");
    }
    assert(v@ =~= spec_segment_dir_error(context@, detail@, permission_denied));
    chars_to_string(&v)
}

/// A pruning of the segment folder: its listing, or why it could not be
/// read (with whether access was denied). An unreadable folder gives its
/// error and deletes nothing; a listing gives the segments to delete.
pub fn prune_old_segments(
    listing: Result<&Vec<SegmentEntry>, (&str, bool)>,
    buffer_duration_secs: u16,
    segment_time_ms: u16,
) -> (r: Result<Vec<usize>, String>)
    ensures
        match listing {
            Ok(entries) => r matches Ok(del) && del@.map_values(|x: usize| x as int)
                == spec_segments_to_delete(seg_views(entries@), buffer_duration_secs, segment_time_ms),
            Err((detail, denied)) => r matches Err(e) && e@ == spec_segment_dir_error(
                "failed to list segment dir"@,
                detail@,
                denied,
            ),
        },
{
    match listing {
        Ok(entries) => Ok(segments_to_delete(entries, buffer_duration_secs, segment_time_ms)),
        Err((detail, denied)) => Err(segment_dir_error("failed to list segment dir", detail, denied)),
    }
}

} // verus!
