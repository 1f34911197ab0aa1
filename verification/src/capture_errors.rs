//! Classification of capture failure messages into operator-facing codes and
//! actions.
use vstd::prelude::*;
use crate::text::{
    contains, contains_str, lower, lower_chars, opt_string, starts_with, starts_with_str,
    str_chars,
};

verus! {

pub open spec fn spec_is_transient_capture_error(m: Seq<char>) -> bool {
    starts_with(m, "capture initialization failed:"@) || starts_with(
        m,
        "capture recovery retry failed:"@,
    )
}

/// Messages from the initial start and the recovery retry, which the
/// recovery loop retries quietly.
pub fn is_transient_capture_error(message: &str) -> (r: bool)
    ensures
        r == spec_is_transient_capture_error(message@),
{
    let m = str_chars(message);
    starts_with_str(&m, "capture initialization failed:") || starts_with_str(
        &m,
        "capture recovery retry failed:",
    )
}

pub open spec fn spec_is_user_stopped_sharing_error(m: Seq<char>) -> bool {
    let lw = lower(m);
    if contains(lw, "user_stopped_sharing"@) {
        true
    } else if contains(lw, "phase: stream_inactive_watchdog_triggered"@) {
        true
    } else if contains(lw, "phase: stream_stop_user_intent"@) || contains(lw, "code=-3817"@)
        || contains(lw, "code=-3821"@) {
        true
    } else {
        let has_stream_stop_marker = contains(lw, "phase: stream_stopped_error"@) || contains(
            lw,
            "phase: stream_stop_details"@,
        ) || contains(lw, "phase: stream_stop_classified"@) || contains(
            lw,
            "screencapturekit stopped with error"@,
        );
        let has_exit_73 = contains(lw, "status=exit status: 73"@) || contains(
            lw,
            "status exit status: 73"@,
        ) || contains(lw, "exit status: 73"@) || contains(lw, "exit_code=73"@);
        if has_stream_stop_marker && has_exit_73 {
            true
        } else {
            let has_post_start_marker = contains(lw, "first video frame delivered"@) || contains(
                lw,
                "phase: first_segment_closed"@,
            ) || contains(lw, "phase: first_stable_segment"@);
            (contains(lw, "scstreamerrordomain code=-3805"@) || contains(
                lw,
                "application connection being interrupted"@,
            )) && has_post_start_marker
        }
    }
}

fn user_stopped_in_lower(lw: &Vec<char>) -> (r: bool)
    ensures
        forall|m: Seq<char>| lower(m) == lw@ ==> r == spec_is_user_stopped_sharing_error(m),
{
    if contains_str(lw, "user_stopped_sharing") {
        return true;
    }
    if contains_str(lw, "phase: stream_inactive_watchdog_triggered") {
        return true;
    }
    if contains_str(lw, "phase: stream_stop_user_intent") || contains_str(lw, "code=-3817")
        || contains_str(lw, "code=-3821") {
        return true;
    }
    let has_stream_stop_marker = contains_str(lw, "phase: stream_stopped_error") || contains_str(
        lw,
        "phase: stream_stop_details",
    ) || contains_str(lw, "phase: stream_stop_classified") || contains_str(
        lw,
        "screencapturekit stopped with error",
    );
    let has_exit_73 = contains_str(lw, "status=exit status: 73") || contains_str(
        lw,
        "status exit status: 73",
    ) || contains_str(lw, "exit status: 73") || contains_str(lw, "exit_code=73");
    if has_stream_stop_marker && has_exit_73 {
        return true;
    }
    let has_post_start_marker = contains_str(lw, "first video frame delivered") || contains_str(
        lw,
        "phase: first_segment_closed",
    ) || contains_str(lw, "phase: first_stable_segment");
    (contains_str(lw, "scstreamerrordomain code=-3805") || contains_str(
        lw,
        "application connection being interrupted",
    )) && has_post_start_marker
}

/// The failure message shows that the user (or macOS) stopped the sharing.
pub fn is_user_stopped_sharing_error(message: &str) -> (r: bool)
    ensures
        r == spec_is_user_stopped_sharing_error(message@),
{
    let lw = lower_chars(&str_chars(message));
    user_stopped_in_lower(&lw)
}

pub open spec fn spec_is_capture_start_interrupted_error(m: Seq<char>) -> bool {
    let lw = lower(m);
    if spec_is_user_stopped_sharing_error(m) {
        false
    } else if contains(lw, "capture_start_interrupted"@) {
        true
    } else {
        let has_interruption_code = contains(lw, "code=-3805"@) || contains(
            lw,
            "scstreamerrordomain code=-3805"@,
        ) || contains(lw, "application connection being interrupted"@);
        contains(lw, "phase: stream_stopped_error"@) && has_interruption_code && !contains(
            lw,
            "first video frame delivered"@,
        )
    }
}

fn start_interrupted_in_lower(lw: &Vec<char>) -> (r: bool)
    ensures
        forall|m: Seq<char>| lower(m) == lw@ ==> r == spec_is_capture_start_interrupted_error(m),
{
    if user_stopped_in_lower(lw) {
        return false;
    }
    if contains_str(lw, "capture_start_interrupted") {
        return true;
    }
    let has_interruption_code = contains_str(lw, "code=-3805") || contains_str(
        lw,
        "scstreamerrordomain code=-3805",
    ) || contains_str(lw, "application connection being interrupted");
    contains_str(lw, "phase: stream_stopped_error") && has_interruption_code && !contains_str(
        lw,
        "first video frame delivered",
    )
}

/// ScreenCaptureKit was interrupted during startup (and not by the user).
pub fn is_capture_start_interrupted_error(message: &str) -> (r: bool)
    ensures
        r == spec_is_capture_start_interrupted_error(message@),
{
    let lw = lower_chars(&str_chars(message));
    start_interrupted_in_lower(&lw)
}

/// A start interruption is never also a user stop: the two classes exclude
/// each other on every message.
pub proof fn start_interruption_excludes_user_stop(m: Seq<char>)
    ensures
        spec_is_capture_start_interrupted_error(m) ==> !spec_is_user_stopped_sharing_error(m),
{
}

/// Capture failure classes, in the order of precedence of
/// `classify_capture_failure`.
#[derive(Clone, Copy, PartialEq, Eq, Structural)]
pub enum CaptureFailureClass {
    OutputDirPermissionRequired,
    PermissionRequired,
    CaptureOwnerExists,
    UserStoppedSharing,
    CaptureStartInterrupted,
    MicStartTimeout,
    AudioStartTimeout,
    MicFirstFrameStartupStalled,
    MicPipeStartupStalled,
    SystemAudioUnavailable,
    ProfileDegraded,
    CaptureOverloaded,
    CaptureNotReady,
    TimeoutMicPipeStalled,
    TimeoutMicFirstFrameStalled,
    TimeoutAudioStart,
    TimeoutNoFrames,
    TimeoutMuxStalled,
    TimeoutOther,
    CaptureUnavailable,
}

pub open spec fn spec_classify(m: Seq<char>) -> CaptureFailureClass {
    let lw = lower(m);
    if contains(lw, "output_dir_permission_required"@) || contains(
        lw,
        "failed to list segment dir: operation not permitted"@,
    ) || contains(lw, "failed to read live segment directory: operation not permitted"@)
        || contains(lw, "downloads folder access is denied for rewinder"@) {
        CaptureFailureClass::OutputDirPermissionRequired
    } else if contains(lw, "permission_required"@) || contains(
        lw,
        "screen recording permission is not granted"@,
    ) || contains(lw, "screen recording access is denied"@) {
        CaptureFailureClass::PermissionRequired
    } else if contains(lw, "capture_owner_exists"@) || contains(
        lw,
        "another rewinder instance is already capturing"@,
    ) {
        CaptureFailureClass::CaptureOwnerExists
    } else if spec_is_user_stopped_sharing_error(m) {
        CaptureFailureClass::UserStoppedSharing
    } else if spec_is_capture_start_interrupted_error(m) {
        CaptureFailureClass::CaptureStartInterrupted
    } else if contains(lw, "mic_required_unavailable"@) || contains(
        lw,
        "required microphone path"@,
    ) || contains(lw, "microphone path is not ready"@) {
        CaptureFailureClass::MicStartTimeout
    } else if contains(lw, "audio_start_timeout"@) {
        CaptureFailureClass::AudioStartTimeout
    } else if contains(lw, "mic_first_frame_startup_stalled"@) {
        CaptureFailureClass::MicFirstFrameStartupStalled
    } else if contains(lw, "mic_pipe_startup_stalled"@) {
        CaptureFailureClass::MicPipeStartupStalled
    } else if contains(lw, "required audio path unavailable"@) || contains(
        lw,
        "audio_required_unavailable"@,
    ) || contains(lw, "microphone permission denied"@) || (contains(
        lw,
        "failed to start capture after trying all audio modes"@,
    ) && !contains(lw, "video_only =>"@)) {
        CaptureFailureClass::SystemAudioUnavailable
    } else if contains(lw, "auto-fallback applied"@) || contains(lw, "runtime fallback active"@)
        || contains(lw, "profile degraded"@) {
        CaptureFailureClass::ProfileDegraded
    } else if contains(lw, "capture overloaded"@) || contains(lw, "capture_overloaded"@) {
        CaptureFailureClass::CaptureOverloaded
    } else if contains(lw, "warming up"@) || contains(lw, "no stable segments"@) {
        CaptureFailureClass::CaptureNotReady
    } else if contains(lw, "capture_start_timeout"@) {
        if contains(lw, "mic_pipe_startup_stalled"@) {
            CaptureFailureClass::TimeoutMicPipeStalled
        } else if contains(lw, "mic_first_frame_startup_stalled"@) {
            CaptureFailureClass::TimeoutMicFirstFrameStalled
        } else if contains(lw, "mode=system_plus_mic"@) || contains(lw, "mode=system_only"@) {
            CaptureFailureClass::TimeoutAudioStart
        } else if contains(lw, "no first video frame marker"@) || contains(
            lw,
            "helper startup likely stalled"@,
        ) {
            CaptureFailureClass::TimeoutNoFrames
        } else if contains(lw, "first video frame seen but no stable segment"@) || contains(
            lw,
            "ffmpeg pipe/mux path likely stalled"@,
        ) {
            CaptureFailureClass::TimeoutMuxStalled
        } else {
            CaptureFailureClass::TimeoutOther
        }
    } else {
        CaptureFailureClass::CaptureUnavailable
    }
}

pub open spec fn class_code(c: CaptureFailureClass) -> Seq<char> {
    match c {
        CaptureFailureClass::OutputDirPermissionRequired => "output_dir_permission_required"@,
        CaptureFailureClass::PermissionRequired => "permission_required"@,
        CaptureFailureClass::CaptureOwnerExists => "capture_owner_exists"@,
        CaptureFailureClass::UserStoppedSharing => "user_stopped_sharing"@,
        CaptureFailureClass::CaptureStartInterrupted => "capture_start_interrupted"@,
        CaptureFailureClass::MicStartTimeout => "mic_start_timeout"@,
        CaptureFailureClass::AudioStartTimeout => "audio_start_timeout"@,
        CaptureFailureClass::MicFirstFrameStartupStalled => "mic_first_frame_startup_stalled"@,
        CaptureFailureClass::MicPipeStartupStalled => "mic_pipe_startup_stalled"@,
        CaptureFailureClass::SystemAudioUnavailable => "system_audio_unavailable"@,
        CaptureFailureClass::ProfileDegraded => "profile_degraded"@,
        CaptureFailureClass::CaptureOverloaded => "capture_overloaded"@,
        CaptureFailureClass::CaptureNotReady => "capture_not_ready"@,
        CaptureFailureClass::TimeoutMicPipeStalled => "mic_pipe_startup_stalled"@,
        CaptureFailureClass::TimeoutMicFirstFrameStalled => "mic_first_frame_startup_stalled"@,
        CaptureFailureClass::TimeoutAudioStart => "audio_start_timeout"@,
        CaptureFailureClass::TimeoutNoFrames => "capture_start_timeout"@,
        CaptureFailureClass::TimeoutMuxStalled => "capture_start_timeout"@,
        CaptureFailureClass::TimeoutOther => "capture_start_timeout"@,
        CaptureFailureClass::CaptureUnavailable => "capture_unavailable"@,
    }
}

pub open spec fn class_action(c: CaptureFailureClass) -> Seq<char> {
    match c {
        CaptureFailureClass::OutputDirPermissionRequired =>
            "Grant Downloads access in System Settings > Privacy & Security > Files and Folders, then retry."@,
        CaptureFailureClass::PermissionRequired =>
            "Grant Screen Recording permission in System Settings, then retry."@,
        CaptureFailureClass::CaptureOwnerExists =>
            "Another Rewinder instance is already capturing. Close duplicate launches, then click Resume Capture."@,
        CaptureFailureClass::UserStoppedSharing =>
            "Screen recording was interrupted. Click Restart Capture to resume."@,
        CaptureFailureClass::CaptureStartInterrupted =>
            "ScreenCaptureKit service was interrupted during startup; Rewinder will retry automatically."@,
        CaptureFailureClass::MicStartTimeout =>
            "Microphone path is unavailable. Rewinder can continue in best-effort mode or you can make mic required."@,
        CaptureFailureClass::AudioStartTimeout =>
            "Audio path did not start in time. Rewinder will retry with configured audio fallback."@,
        CaptureFailureClass::MicFirstFrameStartupStalled =>
            "Mixed microphone startup stalled before audio segments were sealed. Rewinder will retry mixed capture before falling back."@,
        CaptureFailureClass::MicPipeStartupStalled =>
            "Mixed microphone startup stalled before audio segments were sealed. Rewinder will retry mixed capture before falling back."@,
        CaptureFailureClass::SystemAudioUnavailable =>
            "Audio is required by your fallback policy. Fix mic/system-audio permissions or choose allow_video_only."@,
        CaptureFailureClass::ProfileDegraded =>
            "Capture quality was reduced to maintain realtime."@,
        CaptureFailureClass::CaptureOverloaded =>
            "Capture is overloaded; Rewinder will step down profile automatically."@,
        CaptureFailureClass::CaptureNotReady =>
            "Replay buffer is warming up. Try again in a moment."@,
        CaptureFailureClass::TimeoutMicPipeStalled =>
            "Mixed microphone startup stalled before audio segments were sealed. Rewinder will retry mixed capture before falling back."@,
        CaptureFailureClass::TimeoutMicFirstFrameStalled =>
            "Microphone backend started but no first usable mic frame reached ffmpeg. Rewinder will retry mixed capture before falling back."@,
        CaptureFailureClass::TimeoutAudioStart =>
            "Audio path did not start in time. Rewinder will retry with configured audio fallback."@,
        CaptureFailureClass::TimeoutNoFrames =>
            "No frames reached the pipeline. Verify Screen Recording permission and active display."@,
        CaptureFailureClass::TimeoutMuxStalled =>
            "Frames arrived but ffmpeg could not seal segments. Check ffmpeg binary and pipe startup."@,
        CaptureFailureClass::TimeoutOther =>
            "Capture startup timed out. Rewinder will retry automatically."@,
        CaptureFailureClass::CaptureUnavailable =>
            "Capture failed; Rewinder will retry automatically."@,
    }
}

fn classify_lower(lw: &Vec<char>) -> (r: CaptureFailureClass)
    ensures
        forall|m: Seq<char>| lower(m) == lw@ ==> r == spec_classify(m),
{
    if contains_str(lw, "output_dir_permission_required") || contains_str(
        lw,
        "failed to list segment dir: operation not permitted",
    ) || contains_str(lw, "failed to read live segment directory: operation not permitted")
        || contains_str(lw, "downloads folder access is denied for rewinder") {
        return CaptureFailureClass::OutputDirPermissionRequired;
    }
    if contains_str(lw, "permission_required") || contains_str(
        lw,
        "screen recording permission is not granted",
    ) || contains_str(lw, "screen recording access is denied") {
        return CaptureFailureClass::PermissionRequired;
    }
    if contains_str(lw, "capture_owner_exists") || contains_str(
        lw,
        "another rewinder instance is already capturing",
    ) {
        return CaptureFailureClass::CaptureOwnerExists;
    }
    if user_stopped_in_lower(lw) {
        return CaptureFailureClass::UserStoppedSharing;
    }
    if start_interrupted_in_lower(lw) {
        return CaptureFailureClass::CaptureStartInterrupted;
    }
    if contains_str(lw, "mic_required_unavailable") || contains_str(
        lw,
        "required microphone path",
    ) || contains_str(lw, "microphone path is not ready") {
        return CaptureFailureClass::MicStartTimeout;
    }
    if contains_str(lw, "audio_start_timeout") {
        return CaptureFailureClass::AudioStartTimeout;
    }
    if contains_str(lw, "mic_first_frame_startup_stalled") {
        return CaptureFailureClass::MicFirstFrameStartupStalled;
    }
    if contains_str(lw, "mic_pipe_startup_stalled") {
        return CaptureFailureClass::MicPipeStartupStalled;
    }
    if contains_str(lw, "required audio path unavailable") || contains_str(
        lw,
        "audio_required_unavailable",
    ) || contains_str(lw, "microphone permission denied") || (contains_str(
        lw,
        "failed to start capture after trying all audio modes",
    ) && !contains_str(lw, "video_only =>")) {
        return CaptureFailureClass::SystemAudioUnavailable;
    }
    if contains_str(lw, "auto-fallback applied") || contains_str(lw, "runtime fallback active")
        || contains_str(lw, "profile degraded") {
        return CaptureFailureClass::ProfileDegraded;
    }
    if contains_str(lw, "capture overloaded") || contains_str(lw, "capture_overloaded") {
        return CaptureFailureClass::CaptureOverloaded;
    }
    if contains_str(lw, "warming up") || contains_str(lw, "no stable segments") {
        return CaptureFailureClass::CaptureNotReady;
    }
    if contains_str(lw, "capture_start_timeout") {
        if contains_str(lw, "mic_pipe_startup_stalled") {
            return CaptureFailureClass::TimeoutMicPipeStalled;
        }
        if contains_str(lw, "mic_first_frame_startup_stalled") {
            return CaptureFailureClass::TimeoutMicFirstFrameStalled;
        }
        if contains_str(lw, "mode=system_plus_mic") || contains_str(lw, "mode=system_only") {
            return CaptureFailureClass::TimeoutAudioStart;
        }
        if contains_str(lw, "no first video frame marker") || contains_str(
            lw,
            "helper startup likely stalled",
        ) {
            return CaptureFailureClass::TimeoutNoFrames;
        }
        if contains_str(lw, "first video frame seen but no stable segment") || contains_str(
            lw,
            "ffmpeg pipe/mux path likely stalled",
        ) {
            return CaptureFailureClass::TimeoutMuxStalled;
        }
        return CaptureFailureClass::TimeoutOther;
    }
    CaptureFailureClass::CaptureUnavailable
}

fn class_code_str(c: CaptureFailureClass) -> (r: &'static str)
    ensures
        r@ == class_code(c),
{
    match c {
        CaptureFailureClass::OutputDirPermissionRequired => "output_dir_permission_required",
        CaptureFailureClass::PermissionRequired => "permission_required",
        CaptureFailureClass::CaptureOwnerExists => "capture_owner_exists",
        CaptureFailureClass::UserStoppedSharing => "user_stopped_sharing",
        CaptureFailureClass::CaptureStartInterrupted => "capture_start_interrupted",
        CaptureFailureClass::MicStartTimeout => "mic_start_timeout",
        CaptureFailureClass::AudioStartTimeout => "audio_start_timeout",
        CaptureFailureClass::MicFirstFrameStartupStalled => "mic_first_frame_startup_stalled",
        CaptureFailureClass::MicPipeStartupStalled => "mic_pipe_startup_stalled",
        CaptureFailureClass::SystemAudioUnavailable => "system_audio_unavailable",
        CaptureFailureClass::ProfileDegraded => "profile_degraded",
        CaptureFailureClass::CaptureOverloaded => "capture_overloaded",
        CaptureFailureClass::CaptureNotReady => "capture_not_ready",
        CaptureFailureClass::TimeoutMicPipeStalled => "mic_pipe_startup_stalled",
        CaptureFailureClass::TimeoutMicFirstFrameStalled => "mic_first_frame_startup_stalled",
        CaptureFailureClass::TimeoutAudioStart => "audio_start_timeout",
        CaptureFailureClass::TimeoutNoFrames => "capture_start_timeout",
        CaptureFailureClass::TimeoutMuxStalled => "capture_start_timeout",
        CaptureFailureClass::TimeoutOther => "capture_start_timeout",
        CaptureFailureClass::CaptureUnavailable => "capture_unavailable",
    }
}

fn class_action_str(c: CaptureFailureClass) -> (r: &'static str)
    ensures
        r@ == class_action(c),
{
    match c {
        CaptureFailureClass::OutputDirPermissionRequired =>
            "Grant Downloads access in System Settings > Privacy & Security > Files and Folders, then retry.",
        CaptureFailureClass::PermissionRequired =>
            "Grant Screen Recording permission in System Settings, then retry.",
        CaptureFailureClass::CaptureOwnerExists =>
            "Another Rewinder instance is already capturing. Close duplicate launches, then click Resume Capture.",
        CaptureFailureClass::UserStoppedSharing =>
            "Screen recording was interrupted. Click Restart Capture to resume.",
        CaptureFailureClass::CaptureStartInterrupted =>
            "ScreenCaptureKit service was interrupted during startup; Rewinder will retry automatically.",
        CaptureFailureClass::MicStartTimeout =>
            "Microphone path is unavailable. Rewinder can continue in best-effort mode or you can make mic required.",
        CaptureFailureClass::AudioStartTimeout =>
            "Audio path did not start in time. Rewinder will retry with configured audio fallback.",
        CaptureFailureClass::MicFirstFrameStartupStalled =>
            "Mixed microphone startup stalled before audio segments were sealed. Rewinder will retry mixed capture before falling back.",
        CaptureFailureClass::MicPipeStartupStalled =>
            "Mixed microphone startup stalled before audio segments were sealed. Rewinder will retry mixed capture before falling back.",
        CaptureFailureClass::SystemAudioUnavailable =>
            "Audio is required by your fallback policy. Fix mic/system-audio permissions or choose allow_video_only.",
        CaptureFailureClass::ProfileDegraded => "Capture quality was reduced to maintain realtime.",
        CaptureFailureClass::CaptureOverloaded =>
            "Capture is overloaded; Rewinder will step down profile automatically.",
        CaptureFailureClass::CaptureNotReady => "Replay buffer is warming up. Try again in a moment.",
        CaptureFailureClass::TimeoutMicPipeStalled =>
            "Mixed microphone startup stalled before audio segments were sealed. Rewinder will retry mixed capture before falling back.",
        CaptureFailureClass::TimeoutMicFirstFrameStalled =>
            "Microphone backend started but no first usable mic frame reached ffmpeg. Rewinder will retry mixed capture before falling back.",
        CaptureFailureClass::TimeoutAudioStart =>
            "Audio path did not start in time. Rewinder will retry with configured audio fallback.",
        CaptureFailureClass::TimeoutNoFrames =>
            "No frames reached the pipeline. Verify Screen Recording permission and active display.",
        CaptureFailureClass::TimeoutMuxStalled =>
            "Frames arrived but ffmpeg could not seal segments. Check ffmpeg binary and pipe startup.",
        CaptureFailureClass::TimeoutOther => "Capture startup timed out. Rewinder will retry automatically.",
        CaptureFailureClass::CaptureUnavailable => "Capture failed; Rewinder will retry automatically.",
    }
}

/// Maps a capture failure message to its code and the action shown to the
/// operator. Every message gets an action.
pub fn classify_capture_failure(message: &str) -> (r: (&'static str, Option<String>))
    ensures
        r.0@ == class_code(spec_classify(message@)),
        opt_string(r.1) == Some(class_action(spec_classify(message@))),
{
    let lw = lower_chars(&str_chars(message));
    let c = classify_lower(&lw);
    let code = class_code_str(c);
    let action = class_action_str(c);
    (code, Some(action.to_string()))
}

/// A message naming the output-folder permission is classified as such,
/// whatever else it holds: the permission class has the highest precedence.
pub proof fn output_dir_permission_wins(m: Seq<char>)
    requires
        contains(lower(m), "output_dir_permission_required"@),
    ensures
        spec_classify(m) == CaptureFailureClass::OutputDirPermissionRequired,
{
}

/// Which stage of startup the capture log tail has reached.
pub open spec fn spec_detect_capture_start_phase(tail: Seq<char>) -> Option<Seq<char>> {
    if contains(tail, "phase: first_segment_closed"@) || contains(
        tail,
        "phase: first_stable_segment"@,
    ) {
        Some("first_segment"@)
    } else if contains(tail, "first system audio frame delivered"@) || contains(
        tail,
        "first microphone audio frame delivered"@,
    ) || contains(tail, "phase: first_audio_path_ready"@) {
        Some("first_audio_frame"@)
    } else if contains(tail, "first video frame delivered"@) {
        Some("first_video_frame"@)
    } else if contains(tail, "stream started"@) {
        Some("stream_started"@)
    } else if contains(tail, "stream start requested"@) {
        Some("stream_start_requested"@)
    } else if contains(tail, "phase: helper_spawned"@) {
        Some("helper_spawned"@)
    } else {
        None
    }
}

/// The furthest startup stage named in the log tail, if any.
pub fn detect_capture_start_phase(log_tail: Option<&str>) -> (r: Option<String>)
    ensures
        opt_string(r) == match log_tail {
            None => None,
            Some(t) => spec_detect_capture_start_phase(t@),
        },
{
    let tail = match log_tail {
        None => {
            return None;
        },
        Some(t) => str_chars(t),
    };
    let label = if contains_str(&tail, "phase: first_segment_closed") || contains_str(
        &tail,
        "phase: first_stable_segment",
    ) {
        "first_segment"
    } else if contains_str(&tail, "first system audio frame delivered") || contains_str(
        &tail,
        "first microphone audio frame delivered",
    ) || contains_str(&tail, "phase: first_audio_path_ready") {
        "first_audio_frame"
    } else if contains_str(&tail, "first video frame delivered") {
        "first_video_frame"
    } else if contains_str(&tail, "stream started") {
        "stream_started"
    } else if contains_str(&tail, "stream start requested") {
        "stream_start_requested"
    } else if contains_str(&tail, "phase: helper_spawned") {
        "helper_spawned"
    } else {
        return None;
    };
    Some(label.to_string())
}

} // verus!
