//! Readiness and stop-signature markers in the capture log written by the
//! ScreenCaptureKit helper and ffmpeg.
//!
//! Each predicate is stated over the characters of the log text; the
//! functions that read the log file live with the caller, which hands the
//! text to these functions.
use vstd::prelude::*;
use crate::text::{
    contains, contains_str, lines, lower, lower_chars, split_lines, str_chars, views,
};

verus! {

pub const FIRST_SYSTEM_AUDIO_MARKER: &'static str = "first system audio frame delivered";

pub const FIRST_MIC_AUDIO_MARKER: &'static str = "first microphone audio frame delivered";

pub const FIRST_VIDEO_MARKER: &'static str = "first video frame delivered";

pub const MIC_CAPTURE_SESSION_RUNNING_MARKER: &'static str = "phase: mic_capture_session_running";

pub const MIC_SILENCE_FILLER_ACTIVE_MARKER: &'static str = "phase: mic_silence_filler_active";

pub const MIC_LIVE_FRAMES_DETECTED_MARKER: &'static str = "phase: mic_live_frames_detected";

pub const MIC_LIVE_FRAMES_LOST_MARKER: &'static str = "phase: mic_live_frames_lost";

pub const MIC_SUSTAINED_SILENCE_MARKER: &'static str = "phase: mic_sustained_silence_detected";

pub const FFMPEG_QUEUE_STARVATION_MARKER: &'static str = "Thread message queue blocking";

pub const MIC_SELECTED_DEVICE_NOT_FOUND_MARKER: &'static str =
    "phase: mic_selected_device_not_found";

/// Exit status of the helper when the stream was interrupted.
pub const HELPER_INTERRUPTED_EXIT_CODE: i32 = 73;

// ---------------------------------------------------------------------------
// Specifications
// ---------------------------------------------------------------------------

pub open spec fn spec_has_first_system_audio_frame_marker(log: Seq<char>) -> bool {
    ||| contains(log, FIRST_SYSTEM_AUDIO_MARKER@)
    ||| contains(log, "phase: system_audio_pipe_connected"@)
    ||| contains(log, "phase: first_audio_path_ready"@)
}

pub open spec fn spec_has_first_audio_frame_marker(log: Seq<char>) -> bool {
    ||| contains(log, FIRST_SYSTEM_AUDIO_MARKER@)
    ||| contains(log, FIRST_MIC_AUDIO_MARKER@)
    ||| contains(log, "phase: system_audio_pipe_connected"@)
    ||| contains(log, "phase: first_audio_path_ready"@)
}

pub open spec fn spec_has_first_video_frame_marker(log: Seq<char>) -> bool {
    contains(log, FIRST_VIDEO_MARKER@)
}

pub open spec fn segment_open_line(line: Seq<char>) -> bool {
    contains(line, "Opening '"@) && contains(line, ".mp4' for writing"@)
}

/// Some line of the log announces that ffmpeg opened an `.mp4` segment.
pub open spec fn spec_has_ffmpeg_segment_open_marker(log: Seq<char>) -> bool {
    exists|i: int| 0 <= i < lines(log).len() && segment_open_line(#[trigger] lines(log)[i])
}

pub open spec fn spec_is_startup_interrupted_log(log: Seq<char>) -> bool {
    let lw = lower(log);
    let has_stop_marker = contains(lw, "phase: stream_stopped_error"@);
    let has_interruption_code = contains(lw, "code=-3805"@) || contains(
        lw,
        "scstreamerrordomain code=-3805"@,
    ) || contains(lw, "application connection being interrupted"@);
    has_stop_marker && has_interruption_code && !spec_has_first_video_frame_marker(log)
}

pub open spec fn spec_is_user_stopped_sharing_log(log: Seq<char>) -> bool {
    let lw = lower(log);
    if contains(lw, "phase: stream_stop_user_intent"@) || contains(lw, "code=-3817"@) || contains(
        lw,
        "code=-3821"@,
    ) {
        true
    } else {
        let has_post_start_marker = spec_has_first_video_frame_marker(log) || contains(
            lw,
            "phase: first_segment_closed"@,
        ) || contains(lw, "phase: first_stable_segment"@);
        (contains(lw, "scstreamerrordomain code=-3805"@) || contains(
            lw,
            "application connection being interrupted"@,
        )) && has_post_start_marker
    }
}

pub open spec fn spec_has_startup_soft_ready_markers(
    log: Seq<char>,
    require_system_audio_marker: bool,
) -> bool {
    let system_audio_ready = !require_system_audio_marker
        || spec_has_first_system_audio_frame_marker(log);
    spec_has_first_video_frame_marker(log) && spec_has_ffmpeg_segment_open_marker(log)
        && system_audio_ready
}

pub open spec fn spec_has_first_mic_audio_frame_marker(log: Seq<char>) -> bool {
    contains(log, FIRST_MIC_AUDIO_MARKER@)
}

pub open spec fn spec_has_mic_path_ready_marker(log: Seq<char>) -> bool {
    ||| spec_has_first_mic_audio_frame_marker(log)
    ||| contains(log, MIC_SILENCE_FILLER_ACTIVE_MARKER@)
    ||| contains(log, "phase: mic_audio_pipe_connected"@)
}

pub open spec fn spec_has_mic_capture_session_running_marker(log: Seq<char>) -> bool {
    contains(log, MIC_CAPTURE_SESSION_RUNNING_MARKER@)
}

pub open spec fn spec_has_mic_selected_device_not_found_marker(log: Seq<char>) -> bool {
    contains(log, MIC_SELECTED_DEVICE_NOT_FOUND_MARKER@)
}

pub open spec fn has_stream_stop_signature(lw: Seq<char>) -> bool {
    ||| contains(lw, "phase: stream_stopped_error"@)
    ||| contains(lw, "phase: stream_stop_details"@)
    ||| contains(lw, "phase: stream_stop_classified"@)
    ||| contains(lw, "phase: stream_inactive_watchdog_triggered"@)
    ||| contains(lw, "application connection being interrupted"@)
    ||| contains(lw, "scstreamerrordomain code=-3805"@)
}

/// The helper exited with the interruption status, and its log shows a stream
/// stop or a user stop.
pub open spec fn spec_helper_exit_indicates_user_stopped_sharing(
    status_code: Option<i32>,
    log_tail: Seq<char>,
) -> bool {
    status_code == Some(HELPER_INTERRUPTED_EXIT_CODE) && (has_stream_stop_signature(
        lower(log_tail),
    ) || spec_is_user_stopped_sharing_log(log_tail))
}

/// Why the startup probe timed out, from the log of the attempt.
#[derive(Clone, Copy, PartialEq, Eq, Structural)]
pub enum StartupStallKind {
    HelperStartupStalled,
    SystemAudioStartupStalled,
    MicPipeStartupStalled,
    MicFirstFrameStartupStalled,
    FfmpegPipeMuxStalled,
    StartupTimeout,
}

pub open spec fn mixed_mode_logged(t: Seq<char>) -> bool {
    contains(t, "mode=system_plus_mic"@) || contains(t, "audio mode: system_plus_mic"@)
}

pub open spec fn spec_startup_stall_kind(t: Seq<char>) -> StartupStallKind {
    let video = contains(t, FIRST_VIDEO_MARKER@);
    let system_audio = spec_has_first_system_audio_frame_marker(t);
    if !contains(t, "stream started"@) && !video {
        StartupStallKind::HelperStartupStalled
    } else if video && !system_audio && (contains(t, "mode=system_only"@) || contains(
        t,
        "mode=system_plus_mic"@,
    )) {
        StartupStallKind::SystemAudioStartupStalled
    } else if mixed_mode_logged(t) && video && system_audio && !spec_has_mic_path_ready_marker(t) {
        StartupStallKind::MicPipeStartupStalled
    } else if mixed_mode_logged(t) && video && system_audio
        && !spec_has_first_mic_audio_frame_marker(t) && (contains(t, "phase: mic_backend_ready"@)
        || contains(t, "mic source format:"@) || contains(t, "mic converter configured:"@)) {
        StartupStallKind::MicFirstFrameStartupStalled
    } else if video && !contains(t, "phase: first_stable_segment"@) {
        StartupStallKind::FfmpegPipeMuxStalled
    } else {
        StartupStallKind::StartupTimeout
    }
}

pub open spec fn stall_code(k: StartupStallKind) -> Seq<char> {
    match k {
        StartupStallKind::HelperStartupStalled => "helper_startup_stalled"@,
        StartupStallKind::SystemAudioStartupStalled => "system_audio_startup_stalled"@,
        StartupStallKind::MicPipeStartupStalled => "mic_pipe_startup_stalled"@,
        StartupStallKind::MicFirstFrameStartupStalled => "mic_first_frame_startup_stalled"@,
        StartupStallKind::FfmpegPipeMuxStalled => "ffmpeg_pipe_mux_stalled"@,
        StartupStallKind::StartupTimeout => "startup_timeout"@,
    }
}

pub open spec fn stall_guidance(k: StartupStallKind) -> Seq<char> {
    match k {
        StartupStallKind::HelperStartupStalled =>
            "no first video frame marker; helper startup likely stalled"@,
        StartupStallKind::SystemAudioStartupStalled =>
            "first video frame seen but no system-audio marker; audio path likely stalled"@,
        StartupStallKind::MicPipeStartupStalled =>
            "first video and system audio seen but no microphone path; mixed audio pipe startup likely stalled"@,
        StartupStallKind::MicFirstFrameStartupStalled =>
            "microphone backend initialized but no first microphone frame reached ffmpeg; mixed mic startup likely stalled"@,
        StartupStallKind::FfmpegPipeMuxStalled =>
            "first video frame seen but no stable segment; ffmpeg pipe/mux path likely stalled"@,
        StartupStallKind::StartupTimeout => "startup timed out before first stable segment"@,
    }
}

// ---------------------------------------------------------------------------
// Predicates on character vectors
// ---------------------------------------------------------------------------

pub fn first_system_audio_marker_in(log: &Vec<char>) -> (r: bool)
    ensures
        r == spec_has_first_system_audio_frame_marker(log@),
{
    contains_str(log, FIRST_SYSTEM_AUDIO_MARKER) || contains_str(
        log,
        "phase: system_audio_pipe_connected",
    ) || contains_str(log, "phase: first_audio_path_ready")
}

pub fn first_audio_marker_in(log: &Vec<char>) -> (r: bool)
    ensures
        r == spec_has_first_audio_frame_marker(log@),
{
    contains_str(log, FIRST_SYSTEM_AUDIO_MARKER) || contains_str(log, FIRST_MIC_AUDIO_MARKER)
        || contains_str(log, "phase: system_audio_pipe_connected") || contains_str(
        log,
        "phase: first_audio_path_ready",
    )
}

pub fn first_video_marker_in(log: &Vec<char>) -> (r: bool)
    ensures
        r == spec_has_first_video_frame_marker(log@),
{
    contains_str(log, FIRST_VIDEO_MARKER)
}

pub fn segment_open_marker_in(log: &Vec<char>) -> (r: bool)
    ensures
        r == spec_has_ffmpeg_segment_open_marker(log@),
{
    let ls = split_lines(log);
    let ghost l = lines(log@);
    let mut i: usize = 0;
    while i < ls.len()
        invariant
            i <= ls.len(),
            views(ls@) == l,
            l == lines(log@),
            forall|j: int| 0 <= j < i ==> !segment_open_line(#[trigger] l[j]),
        decreases ls.len() - i,
    {
        proof {
            assert(ls@[i as int]@ == l[i as int]);
        }
        if contains_str(&ls[i], "Opening '") && contains_str(&ls[i], ".mp4' for writing") {
            return true;
        }
        i = i + 1;
    }
    false
}

pub fn startup_interrupted_in(log: &Vec<char>) -> (r: bool)
    ensures
        r == spec_is_startup_interrupted_log(log@),
{
    let lw = lower_chars(log);
    let has_stop_marker = contains_str(&lw, "phase: stream_stopped_error");
    let has_interruption_code = contains_str(&lw, "code=-3805") || contains_str(
        &lw,
        "scstreamerrordomain code=-3805",
    ) || contains_str(&lw, "application connection being interrupted");
    has_stop_marker && has_interruption_code && !first_video_marker_in(log)
}

pub fn user_stopped_sharing_in(log: &Vec<char>) -> (r: bool)
    ensures
        r == spec_is_user_stopped_sharing_log(log@),
{
    let lw = lower_chars(log);
    if contains_str(&lw, "phase: stream_stop_user_intent") || contains_str(&lw, "code=-3817")
        || contains_str(&lw, "code=-3821") {
        return true;
    }
    let has_post_start_marker = first_video_marker_in(log) || contains_str(
        &lw,
        "phase: first_segment_closed",
    ) || contains_str(&lw, "phase: first_stable_segment");
    (contains_str(&lw, "scstreamerrordomain code=-3805") || contains_str(
        &lw,
        "application connection being interrupted",
    )) && has_post_start_marker
}

pub fn first_mic_audio_marker_in(log: &Vec<char>) -> (r: bool)
    ensures
        r == spec_has_first_mic_audio_frame_marker(log@),
{
    contains_str(log, FIRST_MIC_AUDIO_MARKER)
}

pub fn mic_path_ready_marker_in(log: &Vec<char>) -> (r: bool)
    ensures
        r == spec_has_mic_path_ready_marker(log@),
{
    first_mic_audio_marker_in(log) || contains_str(log, MIC_SILENCE_FILLER_ACTIVE_MARKER)
        || contains_str(log, "phase: mic_audio_pipe_connected")
}

pub fn startup_stall_kind_in(t: &Vec<char>) -> (r: StartupStallKind)
    ensures
        r == spec_startup_stall_kind(t@),
{
    let video = contains_str(t, FIRST_VIDEO_MARKER);
    let system_audio = first_system_audio_marker_in(t);
    let mixed = contains_str(t, "mode=system_plus_mic") || contains_str(
        t,
        "audio mode: system_plus_mic",
    );
    if !contains_str(t, "stream started") && !video {
        StartupStallKind::HelperStartupStalled
    } else if video && !system_audio && (contains_str(t, "mode=system_only") || contains_str(
        t,
        "mode=system_plus_mic",
    )) {
        StartupStallKind::SystemAudioStartupStalled
    } else if mixed && video && system_audio && !mic_path_ready_marker_in(t) {
        StartupStallKind::MicPipeStartupStalled
    } else if mixed && video && system_audio && !first_mic_audio_marker_in(t) && (contains_str(
        t,
        "phase: mic_backend_ready",
    ) || contains_str(t, "mic source format:") || contains_str(t, "mic converter configured:")) {
        StartupStallKind::MicFirstFrameStartupStalled
    } else if video && !contains_str(t, "phase: first_stable_segment") {
        StartupStallKind::FfmpegPipeMuxStalled
    } else {
        StartupStallKind::StartupTimeout
    }
}

fn stall_code_str(k: StartupStallKind) -> (r: &'static str)
    ensures
        r@ == stall_code(k),
{
    match k {
        StartupStallKind::HelperStartupStalled => "helper_startup_stalled",
        StartupStallKind::SystemAudioStartupStalled => "system_audio_startup_stalled",
        StartupStallKind::MicPipeStartupStalled => "mic_pipe_startup_stalled",
        StartupStallKind::MicFirstFrameStartupStalled => "mic_first_frame_startup_stalled",
        StartupStallKind::FfmpegPipeMuxStalled => "ffmpeg_pipe_mux_stalled",
        StartupStallKind::StartupTimeout => "startup_timeout",
    }
}

fn stall_guidance_str(k: StartupStallKind) -> (r: &'static str)
    ensures
        r@ == stall_guidance(k),
{
    match k {
        StartupStallKind::HelperStartupStalled =>
            "no first video frame marker; helper startup likely stalled",
        StartupStallKind::SystemAudioStartupStalled =>
            "first video frame seen but no system-audio marker; audio path likely stalled",
        StartupStallKind::MicPipeStartupStalled =>
            "first video and system audio seen but no microphone path; mixed audio pipe startup likely stalled",
        StartupStallKind::MicFirstFrameStartupStalled =>
            "microphone backend initialized but no first microphone frame reached ffmpeg; mixed mic startup likely stalled",
        StartupStallKind::FfmpegPipeMuxStalled =>
            "first video frame seen but no stable segment; ffmpeg pipe/mux path likely stalled",
        StartupStallKind::StartupTimeout => "startup timed out before first stable segment",
    }
}

// ---------------------------------------------------------------------------
// Public predicates on log text
// ---------------------------------------------------------------------------

/// A system-audio or microphone frame, or the audio path, has been reported.
pub fn has_first_audio_frame_marker(log: &str) -> (r: bool)
    ensures
        r == spec_has_first_audio_frame_marker(log@),
{
    first_audio_marker_in(&str_chars(log))
}

/// The first system-audio frame, or a connected system-audio path, has been reported.
pub fn has_first_system_audio_frame_marker(log: &str) -> (r: bool)
    ensures
        r == spec_has_first_system_audio_frame_marker(log@),
{
    first_system_audio_marker_in(&str_chars(log))
}

pub fn has_first_video_frame_marker(log: &str) -> (r: bool)
    ensures
        r == spec_has_first_video_frame_marker(log@),
{
    first_video_marker_in(&str_chars(log))
}

pub fn has_ffmpeg_segment_open_marker(log: &str) -> (r: bool)
    ensures
        r == spec_has_ffmpeg_segment_open_marker(log@),
{
    segment_open_marker_in(&str_chars(log))
}

/// ScreenCaptureKit stopped with the interruption code before any video frame.
pub fn is_startup_interrupted_log(log: &str) -> (r: bool)
    ensures
        r == spec_is_startup_interrupted_log(log@),
{
    startup_interrupted_in(&str_chars(log))
}

/// The log shows that the user (or macOS) stopped the screen sharing.
pub fn is_user_stopped_sharing_log(log: &str) -> (r: bool)
    ensures
        r == spec_is_user_stopped_sharing_log(log@),
{
    user_stopped_sharing_in(&str_chars(log))
}

/// First video frame, an opened segment and (when required) system audio.
pub fn has_startup_soft_ready_markers(log: &str, require_system_audio_marker: bool) -> (r: bool)
    ensures
        r == spec_has_startup_soft_ready_markers(log@, require_system_audio_marker),
{
    let l = str_chars(log);
    let system_audio_ready = !require_system_audio_marker || first_system_audio_marker_in(&l);
    first_video_marker_in(&l) && segment_open_marker_in(&l) && system_audio_ready
}

pub fn has_first_mic_audio_frame_marker(log: &str) -> (r: bool)
    ensures
        r == spec_has_first_mic_audio_frame_marker(log@),
{
    first_mic_audio_marker_in(&str_chars(log))
}

/// A microphone frame, the silence filler or a connected mic pipe has been reported.
pub fn has_mic_path_ready_marker(log: &str) -> (r: bool)
    ensures
        r == spec_has_mic_path_ready_marker(log@),
{
    mic_path_ready_marker_in(&str_chars(log))
}

pub fn has_mic_capture_session_running_marker(log: &str) -> (r: bool)
    ensures
        r == spec_has_mic_capture_session_running_marker(log@),
{
    contains_str(&str_chars(log), MIC_CAPTURE_SESSION_RUNNING_MARKER)
}

pub fn has_mic_selected_device_not_found_marker(log: &str) -> (r: bool)
    ensures
        r == spec_has_mic_selected_device_not_found_marker(log@),
{
    contains_str(&str_chars(log), MIC_SELECTED_DEVICE_NOT_FOUND_MARKER)
}

/// The helper's exit means that the user stopped sharing.
pub fn helper_exit_indicates_user_stopped_sharing(status_code: Option<i32>, log_tail: &str) -> (r:
    bool)
    ensures
        r == spec_helper_exit_indicates_user_stopped_sharing(status_code, log_tail@),
{
    if status_code != Some(HELPER_INTERRUPTED_EXIT_CODE) {
        return false;
    }
    let t = str_chars(log_tail);
    let lw = lower_chars(&t);
    let has_signature = contains_str(&lw, "phase: stream_stopped_error") || contains_str(
        &lw,
        "phase: stream_stop_details",
    ) || contains_str(&lw, "phase: stream_stop_classified") || contains_str(
        &lw,
        "phase: stream_inactive_watchdog_triggered",
    ) || contains_str(&lw, "application connection being interrupted") || contains_str(
        &lw,
        "scstreamerrordomain code=-3805",
    );
    has_signature || user_stopped_sharing_in(&t)
}

/// Code naming why startup timed out.
pub fn startup_timeout_reason_code(log_tail: &str) -> (r: &'static str)
    ensures
        r@ == stall_code(spec_startup_stall_kind(log_tail@)),
{
    stall_code_str(startup_stall_kind_in(&str_chars(log_tail)))
}

/// Operator guidance for the startup timeout cause.
pub fn startup_timeout_guidance(log_tail: &str) -> (r: &'static str)
    ensures
        r@ == stall_guidance(spec_startup_stall_kind(log_tail@)),
{
    stall_guidance_str(startup_stall_kind_in(&str_chars(log_tail)))
}

} // verus!
