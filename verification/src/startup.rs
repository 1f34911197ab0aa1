//! Startup planning of a capture session: which audio modes to try and in
//! what order, which microphone backend each attempt uses, how long each
//! attempt may take to produce its first segment, the capture size, and the
//! names of the segment files the session writes.
use vstd::prelude::*;
use crate::settings::SettingsDto;
use crate::text::{
    chars_to_string, ends_with, ends_with_str, parse_u64, parse_u64_range, rfind, rfind_exec,
    starts_with, starts_with_str, str_chars, str_eq, strip_prefix_chars, sub_chars, trim,
    trim_chars, all_digits,
};

verus! {

pub const STARTUP_FIRST_ATTEMPT_EXTRA_TIMEOUT_MS: u64 = 2_000;

pub const STARTUP_MIC_MIX_EXTRA_TIMEOUT_MS: u64 = 6_000;

pub const VIDEO_INPUT_THREAD_QUEUE_SMALL: usize = 8;

pub const AUDIO_INPUT_THREAD_QUEUE_SMALL: usize = 64;

pub const VIDEO_INPUT_THREAD_QUEUE_ELEVATED: usize = 32;

pub const AUDIO_INPUT_THREAD_QUEUE_ELEVATED: usize = 256;

/// Input queue sizes handed to ffmpeg.
#[derive(Debug, Clone, Copy, PartialEq, Eq, Structural)]
pub enum LiveQueueProfile {
    Small,
    Elevated,
}

impl LiveQueueProfile {
    pub fn video_thread_queue_size(self) -> (r: usize)
        ensures
            r == (match self {
                LiveQueueProfile::Small => VIDEO_INPUT_THREAD_QUEUE_SMALL,
                LiveQueueProfile::Elevated => VIDEO_INPUT_THREAD_QUEUE_ELEVATED,
            }),
    {
        match self {
            LiveQueueProfile::Small => VIDEO_INPUT_THREAD_QUEUE_SMALL,
            LiveQueueProfile::Elevated => VIDEO_INPUT_THREAD_QUEUE_ELEVATED,
        }
    }

    pub fn audio_thread_queue_size(self) -> (r: usize)
        ensures
            r == (match self {
                LiveQueueProfile::Small => AUDIO_INPUT_THREAD_QUEUE_SMALL,
                LiveQueueProfile::Elevated => AUDIO_INPUT_THREAD_QUEUE_ELEVATED,
            }),
    {
        match self {
            LiveQueueProfile::Small => AUDIO_INPUT_THREAD_QUEUE_SMALL,
            LiveQueueProfile::Elevated => AUDIO_INPUT_THREAD_QUEUE_ELEVATED,
        }
    }

    pub fn as_str(self) -> (r: &'static str)
        ensures
            r@ == (match self {
                LiveQueueProfile::Small => "small"@,
                LiveQueueProfile::Elevated => "elevated"@,
            }),
    {
        match self {
            LiveQueueProfile::Small => "small",
            LiveQueueProfile::Elevated => "elevated",
        }
    }
}

/// Which audio sources a capture attempt records.
#[derive(Debug, Clone, Copy, PartialEq, Eq, Structural)]
pub enum AudioMode {
    VideoOnly,
    SystemOnly,
    SystemPlusMic,
}

pub open spec fn mode_name(m: AudioMode) -> Seq<char> {
    match m {
        AudioMode::VideoOnly => "video_only"@,
        AudioMode::SystemOnly => "system_only"@,
        AudioMode::SystemPlusMic => "system_plus_mic"@,
    }
}

impl AudioMode {
    pub fn as_str(self) -> (r: &'static str)
        ensures
            r@ == mode_name(self),
    {
        match self {
            AudioMode::VideoOnly => "video_only",
            AudioMode::SystemOnly => "system_only",
            AudioMode::SystemPlusMic => "system_plus_mic",
        }
    }

    pub fn has_audio(self) -> (r: bool)
        ensures
            r == (self != AudioMode::VideoOnly),
    {
        !matches!(self, AudioMode::VideoOnly)
    }

    pub fn has_mic(self) -> (r: bool)
        ensures
            r == (self == AudioMode::SystemPlusMic),
    {
        matches!(self, AudioMode::SystemPlusMic)
    }
}

#[derive(Debug, Clone, Copy, PartialEq, Eq, Structural)]
pub enum AudioStartupStrategy {
    SystemFirst,
    PreferMic,
}

/// Modes named by the settings, before the video-only fallback.
pub open spec fn base_modes(s: SettingsDto) -> Seq<AudioMode> {
    if s.audio_mode@ == "video_only"@ {
        seq![AudioMode::VideoOnly]
    } else if s.audio_mode@ == "system_plus_mic"@ && s.mic_enabled && s.mic_failure_policy@
        == "required"@ {
        seq![AudioMode::SystemPlusMic]
    } else if s.audio_mode@ == "system_plus_mic"@ && s.mic_enabled {
        seq![AudioMode::SystemPlusMic, AudioMode::SystemOnly]
    } else {
        seq![AudioMode::SystemOnly]
    }
}

/// Audio modes to try in order: the configured mode (mixed first, then
/// system-only, for a best-effort microphone), then video-only when the
/// fallback policy allows it.
pub open spec fn spec_requested_audio_modes(s: SettingsDto) -> Seq<AudioMode> {
    let base = base_modes(s);
    if s.audio_fallback_policy@ == "allow_video_only"@ && !base.contains(AudioMode::VideoOnly) {
        base.push(AudioMode::VideoOnly)
    } else {
        base
    }
}

/// The modes to try, in order; the startup strategy does not change them.
pub fn requested_audio_modes(settings: &SettingsDto, startup_strategy: AudioStartupStrategy) -> (r:
    Vec<AudioMode>)
    ensures
        r@ == spec_requested_audio_modes(*settings),
{
    let _ = startup_strategy;
    let is_video_only = str_eq(settings.audio_mode.as_str(), "video_only");
    let is_mixed = str_eq(settings.audio_mode.as_str(), "system_plus_mic");
    let required = str_eq(settings.mic_failure_policy.as_str(), "required");
    let mut modes: Vec<AudioMode> = Vec::new();
    if is_video_only {
        modes.push(AudioMode::VideoOnly);
    } else if is_mixed && settings.mic_enabled && required {
        modes.push(AudioMode::SystemPlusMic);
    } else if is_mixed && settings.mic_enabled {
        modes.push(AudioMode::SystemPlusMic);
        modes.push(AudioMode::SystemOnly);
    } else {
        modes.push(AudioMode::SystemOnly);
    }
    proof {
        assert(modes@ =~= base_modes(*settings));
    }
    if str_eq(settings.audio_fallback_policy.as_str(), "allow_video_only") && !is_video_only {
        proof {
            assert(!base_modes(*settings).contains(AudioMode::VideoOnly)) by {
                let b = base_modes(*settings);
                assert forall|k: int| 0 <= k < b.len() implies b[k] != AudioMode::VideoOnly by {}
            }
        }
        modes.push(AudioMode::VideoOnly);
    } else {
        proof {
            if is_video_only {
                assert(base_modes(*settings)[0] == AudioMode::VideoOnly);
            }
        }
    }
    modes
}

/// There is always a mode to try, and no mode is tried twice.
pub proof fn requested_modes_are_nonempty_and_distinct(s: SettingsDto)
    ensures
        spec_requested_audio_modes(s).len() >= 1,
        forall|i: int, j: int|
            0 <= i < j < spec_requested_audio_modes(s).len() ==> spec_requested_audio_modes(s)[i]
                != spec_requested_audio_modes(s)[j],
{
    let b = base_modes(s);
    if s.audio_fallback_policy@ == "allow_video_only"@ && !b.contains(AudioMode::VideoOnly) {
        assert forall|k: int| 0 <= k < b.len() implies b[k] != AudioMode::VideoOnly by {
            if b[k] == AudioMode::VideoOnly {
                assert(b.contains(AudioMode::VideoOnly));
            }
        }
    }
}

/// Microphone backend names, with the retired experimental name mapped to
/// the native one and unknown names to `auto`.
pub open spec fn spec_normalize_mic_backend_label(v: Seq<char>) -> Seq<char> {
    if v == "sck_experimental"@ {
        "sck_native"@
    } else if v == "auto"@ || v == "avcapture"@ || v == "sck_native"@ {
        v
    } else {
        "auto"@
    }
}

pub fn normalize_mic_backend_label(value: &str) -> (r: String)
    ensures
        r@ == spec_normalize_mic_backend_label(value@),
{
    if str_eq(value, "sck_experimental") {
        "sck_native".to_string()
    } else if str_eq(value, "auto") || str_eq(value, "avcapture") || str_eq(value, "sck_native") {
        value.to_string()
    } else {
        "auto".to_string()
    }
}

/// One capture attempt: its audio mode and microphone backend.
#[derive(Debug, Clone)]
pub struct AudioAttemptPlan {
    pub mode: AudioMode,
    pub mic_backend: String,
}

pub open spec fn attempts_for_mode(m: AudioMode, s: SettingsDto) -> Seq<(AudioMode, Seq<char>)> {
    if m == AudioMode::SystemPlusMic && s.mic_enabled {
        let b = spec_normalize_mic_backend_label(s.mic_capture_backend@);
        if b == "auto"@ {
            seq![(m, "sck_native"@), (m, "avcapture"@)]
        } else {
            seq![(m, b)]
        }
    } else {
        seq![(m, "none"@)]
    }
}

pub open spec fn attempts_for_modes(ms: Seq<AudioMode>, s: SettingsDto) -> Seq<(AudioMode, Seq<char>)>
    decreases ms.len(),
{
    if ms.len() == 0 {
        Seq::empty()
    } else {
        attempts_for_modes(ms.drop_last(), s) + attempts_for_mode(ms.last(), s)
    }
}

pub open spec fn plan_views(v: Seq<AudioAttemptPlan>) -> Seq<(AudioMode, Seq<char>)> {
    v.map_values(|p: AudioAttemptPlan| (p.mode, p.mic_backend@))
}

/// The attempts to make: each requested mode once, except that a mixed mode
/// with the `auto` backend is tried with the native backend first and then
/// with AVCapture. Modes without the microphone use no backend.
pub fn requested_audio_attempts(settings: &SettingsDto, startup_strategy: AudioStartupStrategy) -> (r:
    Vec<AudioAttemptPlan>)
    ensures
        plan_views(r@) == attempts_for_modes(spec_requested_audio_modes(*settings), *settings),
{
    let normalized_backend = normalize_mic_backend_label(settings.mic_capture_backend.as_str());
    let modes = requested_audio_modes(settings, startup_strategy);
    let mut attempts: Vec<AudioAttemptPlan> = Vec::new();
    let mut i: usize = 0;
    proof {
        assert(plan_views(attempts@) =~= Seq::<(AudioMode, Seq<char>)>::empty());
        assert(modes@.take(0) =~= Seq::<AudioMode>::empty());
    }
    while i < modes.len()
        invariant
            i <= modes.len(),
            modes@ == spec_requested_audio_modes(*settings),
            normalized_backend@ == spec_normalize_mic_backend_label(settings.mic_capture_backend@),
            plan_views(attempts@) == attempts_for_modes(modes@.take(i as int), *settings),
        decreases modes.len() - i,
    {
        let mode = modes[i];
        let ghost before = attempts@;
        if mode == AudioMode::SystemPlusMic && settings.mic_enabled {
            if str_eq(normalized_backend.as_str(), "auto") {
                attempts.push(AudioAttemptPlan { mode, mic_backend: "sck_native".to_string() });
                attempts.push(AudioAttemptPlan { mode, mic_backend: "avcapture".to_string() });
            } else {
                attempts.push(AudioAttemptPlan { mode, mic_backend: normalized_backend.clone() });
            }
        } else {
            attempts.push(AudioAttemptPlan { mode, mic_backend: "none".to_string() });
        }
        proof {
            assert(modes@.take(i + 1).drop_last() =~= modes@.take(i as int));
            assert(modes@.take(i + 1).last() == mode);
            assert(plan_views(attempts@) =~= plan_views(before) + attempts_for_mode(
                mode,
                *settings,
            ));
        }
        i = i + 1;
    }
    proof {
        assert(modes@.take(modes.len() as int) =~= modes@);
    }
    attempts
}

/// How long an attempt may take to produce its first segment, in ms: the
/// audio startup timeout (kept within 2 s and 20 s) for audio modes, 6 s for
/// video only; 2 s more on the first attempt (at most 24 s for audio modes);
/// 6 s more for the mixed mode (at most 30 s).
pub open spec fn spec_startup_probe_timeout_ms(m: AudioMode, s: SettingsDto, attempt_index: int) -> int {
    match m {
        AudioMode::VideoOnly => if attempt_index == 0 {
            6_000 + STARTUP_FIRST_ATTEMPT_EXTRA_TIMEOUT_MS
        } else {
            6_000
        },
        _ => {
            let base = if s.audio_startup_timeout_ms < 2_000 {
                2_000
            } else if s.audio_startup_timeout_ms > 20_000 {
                20_000
            } else {
                s.audio_startup_timeout_ms as int
            };
            let first = if attempt_index == 0 {
                if base + STARTUP_FIRST_ATTEMPT_EXTRA_TIMEOUT_MS > 24_000 {
                    24_000
                } else {
                    base + STARTUP_FIRST_ATTEMPT_EXTRA_TIMEOUT_MS
                }
            } else {
                base
            };
            if m == AudioMode::SystemPlusMic {
                if first + STARTUP_MIC_MIX_EXTRA_TIMEOUT_MS > 30_000 {
                    30_000
                } else {
                    first + STARTUP_MIC_MIX_EXTRA_TIMEOUT_MS
                }
            } else {
                first
            }
        },
    }
}

pub fn startup_probe_timeout_for_mode(mode: AudioMode, settings: &SettingsDto, attempt_index: usize) -> (r:
    u64)
    ensures
        r as int == spec_startup_probe_timeout_ms(mode, *settings, attempt_index as int),
        r <= 30_000,
{
    match mode {
        AudioMode::VideoOnly => {
            let mut timeout_ms: u64 = 6_000;
            if attempt_index == 0 {
                timeout_ms = timeout_ms + STARTUP_FIRST_ATTEMPT_EXTRA_TIMEOUT_MS;
            }
            timeout_ms
        },
        _ => {
            let t = settings.audio_startup_timeout_ms as u64;
            let mut timeout_ms: u64 = if t < 2_000 {
                2_000
            } else if t > 20_000 {
                20_000
            } else {
                t
            };
            if attempt_index == 0 {
                timeout_ms = timeout_ms + STARTUP_FIRST_ATTEMPT_EXTRA_TIMEOUT_MS;
                if timeout_ms > 24_000 {
                    timeout_ms = 24_000;
                }
            }
            if mode == AudioMode::SystemPlusMic {
                timeout_ms = timeout_ms + STARTUP_MIC_MIX_EXTRA_TIMEOUT_MS;
                if timeout_ms > 30_000 {
                    timeout_ms = 30_000;
                }
            }
            timeout_ms
        },
    }
}

/// Capture width and height for a requested vertical resolution; unknown
/// heights capture at 1080p.
pub open spec fn spec_capture_dimensions(height: u16) -> (u16, u16) {
    if height == 360 {
        (640, 360)
    } else if height == 480 {
        (854, 480)
    } else if height == 540 {
        (960, 540)
    } else if height == 720 {
        (1280, 720)
    } else {
        (1920, 1080)
    }
}

pub fn capture_dimensions(height: u16) -> (r: (u16, u16))
    ensures
        r == spec_capture_dimensions(height),
{
    match height {
        360 => (640, 360),
        480 => (854, 480),
        540 => (960, 540),
        720 => (1280, 720),
        _ => (1920, 1080),
    }
}

/// Seconds of segment history kept beyond the buffer duration.
pub fn max_replay_history_age(buffer_duration_secs: u16) -> (r: u64)
    ensures
        r == buffer_duration_secs + 15,
{
    buffer_duration_secs as u64 + 15
}

pub open spec fn spec_is_output_dir_permission_error(e: Seq<char>) -> bool {
    starts_with(e, "output_dir_permission_required:"@)
}

pub fn is_output_dir_permission_error(err: &str) -> (r: bool)
    ensures
        r == spec_is_output_dir_permission_error(err@),
{
    starts_with_str(&str_chars(err), "output_dir_permission_required:")
}

/// The error without its output-folder permission prefix (then trimmed).
pub fn strip_output_dir_permission_prefix(err: &str) -> (r: String)
    ensures
        r@ == (if spec_is_output_dir_permission_error(err@) {
            trim(err@.skip("output_dir_permission_required:"@.len() as int))
        } else {
            err@
        }),
{
    let e = str_chars(err);
    match strip_prefix_chars(&e, "output_dir_permission_required:") {
        Some(rest) => chars_to_string(&trim_chars(&rest)),
        None => err.to_string(),
    }
}

/// `seg_{session}_{index}.mp4`: the session (non-empty, up to the last
/// underscore) and the index (ASCII digits) of a segment file name.
pub open spec fn spec_parse_segment_identity(name: Seq<char>) -> Option<(Seq<char>, u64)> {
    if !starts_with(name, "seg_"@) || !ends_with(name, ".mp4"@) || name.len() < 8 {
        None
    } else {
        let rem = name.subrange(4, name.len() - 4);
        match rfind(rem, "_"@) {
            None => None,
            Some(u) => {
                let session = rem.take(u);
                let index = rem.skip(u + 1);
                if session.len() == 0 || index.len() == 0 || !all_digits(index) {
                    None
                } else {
                    match parse_u64(index) {
                        Some(n) => Some((session, n)),
                        None => None,
                    }
                }
            },
        }
    }
}

pub open spec fn opt_identity_view(o: Option<(String, u64)>) -> Option<(Seq<char>, u64)> {
    match o {
        Some((s, n)) => Some((s@, n)),
        None => None,
    }
}

/// Session and index of a segment file name.
pub fn parse_segment_identity(file_name: &str) -> (r: Option<(String, u64)>)
    ensures
        opt_identity_view(r) == spec_parse_segment_identity(file_name@),
{
    let name = str_chars(file_name);
    if !starts_with_str(&name, "seg_") || !ends_with_str(&name, ".mp4") || name.len() < 8 {
        return None;
    }
    let rem = sub_chars(&name, 4, name.len() - 4);
    let us = str_chars("_");
    let u = match rfind_exec(&rem, &us) {
        None => {
            return None;
        },
        Some(u) => u,
    };
    proof {
        reveal_strlit("_");
        assert(us@.len() == 1);
    }
    proof {
        crate::text::lemma_rfind_props(rem@, us@);
        assert(crate::text::matches_at(rem@, us@, u as int));
        assert(rem@.len() == rem.len());
    }
    let session = sub_chars(&rem, 0, u);
    let index = sub_chars(&rem, u + 1, rem.len());
    proof {
        assert(session@ =~= rem@.take(u as int));
        assert(index@ =~= rem@.skip(u + 1));
    }
    if session.len() == 0 || index.len() == 0 {
        return None;
    }
    if !crate::text::all_digits_exec(&index) {
        return None;
    }
    proof {
        assert(index@.subrange(0, index@.len() as int) =~= index@);
    }
    match parse_u64_range(&index, 0, index.len()) {
        Some(n) => Some((chars_to_string(&session), n)),
        None => None,
    }
}

/// Session of a segment file name.
pub fn parse_segment_session_id(file_name: &str) -> (r: Option<String>)
    ensures
        match r {
            Some(s) => spec_parse_segment_identity(file_name@) matches Some((sess, idx))
                && sess == s@,
            None => spec_parse_segment_identity(file_name@) is None,
        },
{
    match parse_segment_identity(file_name) {
        Some((session, _)) => Some(session),
        None => None,
    }
}

/// Index of a segment file name.
pub fn parse_segment_index(file_name: &str) -> (r: Option<u64>)
    ensures
        match r {
            Some(n) => spec_parse_segment_identity(file_name@) matches Some((sess, idx))
                && idx == n,
            None => spec_parse_segment_identity(file_name@) is None,
        },
{
    match parse_segment_identity(file_name) {
        Some((_, index)) => Some(index),
        None => None,
    }
}

/// Video-only capture is the last resort exactly where the fallback policy
/// allows it: under `allow_video_only` the modes end with video-only;
/// under any other policy video-only is tried only when it is the
/// configured mode.
pub proof fn video_only_fallback_follows_policy(s: SettingsDto)
    ensures
        s.audio_fallback_policy@ == "allow_video_only"@ ==> spec_requested_audio_modes(s).len() >= 1
            && spec_requested_audio_modes(s).last() == AudioMode::VideoOnly,
        s.audio_fallback_policy@ != "allow_video_only"@ ==> (spec_requested_audio_modes(s).contains(
            AudioMode::VideoOnly,
        ) <==> s.audio_mode@ == "video_only"@),
{
    let b = base_modes(s);
    if s.audio_fallback_policy@ != "allow_video_only"@ {
        if s.audio_mode@ != "video_only"@ {
            assert forall|k: int| 0 <= k < b.len() implies b[k] != AudioMode::VideoOnly by {}
        } else {
            assert(b[0] == AudioMode::VideoOnly);
        }
    } else if b.contains(AudioMode::VideoOnly) {
        let k = choose|k: int| 0 <= k < b.len() && b[k] == AudioMode::VideoOnly;
        assert(b.len() >= 1);
        assert(b.last() == AudioMode::VideoOnly);
    }
}

} // verus!
