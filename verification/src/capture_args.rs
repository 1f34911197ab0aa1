//! The ffmpeg command line of the live capture: raw video and audio read
//! from the helper's pipes, encoded, and cut into numbered segments.
use vstd::prelude::*;
use crate::text::{
    append_chars, append_str, chars_to_string, decimal, opt_string, push_decimal, str_chars,
    str_eq, texts, trim,
};
use crate::encoding::{spec_audio_args, spec_video_args, AudioEncoder, VideoEncoder};
use crate::settings::SettingsDto;
use crate::startup::{
    AudioMode, LiveQueueProfile, AUDIO_INPUT_THREAD_QUEUE_ELEVATED, AUDIO_INPUT_THREAD_QUEUE_SMALL,
    VIDEO_INPUT_THREAD_QUEUE_ELEVATED, VIDEO_INPUT_THREAD_QUEUE_SMALL,
};

verus! {

/// The pipes the capture helper writes to.
pub struct CapturePipes {
    pub video_pipe: String,
    pub system_audio_pipe: Option<String>,
    pub mic_audio_pipe: Option<String>,
}

pub open spec fn pad2(n: nat) -> Seq<char> {
    if n < 10 {
        "0"@ + decimal(n)
    } else {
        decimal(n)
    }
}

pub open spec fn pad3(n: nat) -> Seq<char> {
    if n < 10 {
        "00"@ + decimal(n)
    } else if n < 100 {
        "0"@ + decimal(n)
    } else {
        decimal(n)
    }
}

/// Milliseconds as seconds, in the shortest decimal form (`0.5`, `0.25`,
/// `1`).
pub open spec fn short_seconds_text(ms: nat) -> Seq<char> {
    let f = ms % 1000;
    decimal(ms / 1000) + if f == 0 {
        ""@
    } else if f % 100 == 0 {
        "."@ + decimal(f / 100)
    } else if f % 10 == 0 {
        "."@ + pad2(f / 10)
    } else {
        "."@ + pad3(f)
    }
}

/// The system volume as a factor with three decimals, at most `1.000`.
pub open spec fn volume_factor_text(percent: u8) -> Seq<char> {
    if percent >= 100 {
        "1.000"@
    } else {
        "0."@ + pad2(percent as nat) + "0"@
    }
}

/// The microphone gain in decibels with one decimal, from tenths of a
/// decibel, at most 18 dB.
pub open spec fn gain_text(tenths: u16) -> Seq<char> {
    let g: nat = if tenths > 180 {
        180
    } else {
        tenths as nat
    };
    decimal(g / 10) + "."@ + decimal(g % 10)
}

/// The denoiser in front of the microphone: RNNoise with its model when
/// there is one, FFT denoising without, nothing when suppression is off.
pub open spec fn denoise_text(noise_suppression: bool, rnnoise_model: Option<Seq<char>>) -> Seq<
    char,
> {
    if !noise_suppression {
        ""@
    } else {
        match rnnoise_model {
            Some(m) => "arnndn=m='"@ + m + "',"@,
            None => "afftdn=nr=12:nf=-40,"@,
        }
    }
}

pub open spec fn spec_mix_graph(
    gain_tenths_db: u16,
    system_volume_percent: u8,
    noise_suppression: bool,
    rnnoise_model: Option<Seq<char>>,
) -> Seq<char> {
    "[1:a]volume="@ + volume_factor_text(system_volume_percent) + "[sys];[2:a]"@ + denoise_text(
        noise_suppression,
        rnnoise_model,
    ) + "volume="@ + gain_text(gain_tenths_db)
        + "dB[mic];[sys][mic]amix=inputs=2:weights=1 1:duration=longest:dropout_transition=0:normalize=0,aresample=async=1:min_hard_comp=0.100:first_pts=0[aout]"@
}

fn push_pad2(v: &mut Vec<char>, n: u64)
    requires
        n < 100,
    ensures
        final(v)@ == old(v)@ + pad2(n as nat),
{
    if n < 10 {
        append_str(v, "0");
    }
    push_decimal(v, n);
    assert(final(v)@ =~= old(v)@ + pad2(n as nat));
}

fn push_pad3(v: &mut Vec<char>, n: u64)
    requires
        n < 1000,
    ensures
        final(v)@ == old(v)@ + pad3(n as nat),
{
    if n < 10 {
        append_str(v, "00");
    } else if n < 100 {
        append_str(v, "0");
    }
    push_decimal(v, n);
    assert(final(v)@ =~= old(v)@ + pad3(n as nat));
}

fn volume_factor_chars(percent: u8) -> (r: Vec<char>)
    ensures
        r@ == volume_factor_text(percent),
{
    let mut v: Vec<char> = Vec::new();
    if percent >= 100 {
        append_str(&mut v, "1.000");
        assert(v@ =~= volume_factor_text(percent));
    } else {
        append_str(&mut v, "0.");
        push_pad2(&mut v, percent as u64);
        append_str(&mut v, "0");
        assert(v@ =~= volume_factor_text(percent));
    }
    v
}

fn denoise_chars(noise_suppression: bool, rnnoise_model: Option<&str>) -> (r: Vec<char>)
    ensures
        r@ == denoise_text(
            noise_suppression,
            match rnnoise_model {
                Some(m) => Some(m@),
                None => None,
            },
        ),
{
    let mut v: Vec<char> = Vec::new();
    if noise_suppression {
        match rnnoise_model {
            Some(m) => {
                append_str(&mut v, "arnndn=m='");
                append_str(&mut v, m);
                append_str(&mut v, "',");
                assert(v@ =~= "arnndn=m='"@ + m@ + "',"@);
            },
            None => {
                append_str(&mut v, "afftdn=nr=12:nf=-40,");
            },
        }
    } else {
        proof {
            reveal_strlit("");
        }
        assert(v@ =~= ""@);
    }
    v
}

fn gain_chars(tenths: u16) -> (r: Vec<char>)
    ensures
        r@ == gain_text(tenths),
{
    let g: u64 = if tenths > 180 {
        180
    } else {
        tenths as u64
    };
    let mut v: Vec<char> = Vec::new();
    push_decimal(&mut v, g / 10);
    append_str(&mut v, ".");
    push_decimal(&mut v, g % 10);
    assert(v@ =~= gain_text(tenths));
    v
}

/// The audio filter graph that mixes system audio (input 1) with the
/// microphone (input 2): system audio at its volume, the microphone
/// denoised as asked and raised by its gain.
pub fn build_system_plus_mic_mix_graph(
    mic_mix_gain_tenths_db: u16,
    system_volume_percent: u8,
    mic_noise_suppression: bool,
    rnnoise_model: Option<&str>,
) -> (r: String)
    ensures
        r@ == spec_mix_graph(
            mic_mix_gain_tenths_db,
            system_volume_percent,
            mic_noise_suppression,
            match rnnoise_model {
                Some(m) => Some(m@),
                None => None,
            },
        ),
{
    let vol = volume_factor_chars(system_volume_percent);
    let den = denoise_chars(mic_noise_suppression, rnnoise_model);
    let gain = gain_chars(mic_mix_gain_tenths_db);
    let mut v: Vec<char> = Vec::new();
    append_str(&mut v, "[1:a]volume=");
    append_chars(&mut v, &vol);
    append_str(&mut v, "[sys];[2:a]");
    append_chars(&mut v, &den);
    append_str(&mut v, "volume=");
    append_chars(&mut v, &gain);
    append_str(
        &mut v,
        "dB[mic];[sys][mic]amix=inputs=2:weights=1 1:duration=longest:dropout_transition=0:normalize=0,aresample=async=1:min_hard_comp=0.100:first_pts=0[aout]",
    );
    assert(v@ =~= spec_mix_graph(
        mic_mix_gain_tenths_db,
        system_volume_percent,
        mic_noise_suppression,
        match rnnoise_model {
            Some(m) => Some(m@),
            None => None,
        },
    ));
    chars_to_string(&v)
}

/// `dir` joined with a relative file name, as a path join does it.
pub open spec fn join_path(dir: Seq<char>, name: Seq<char>) -> Seq<char> {
    if dir.len() == 0 || dir.last() == '/' {
        dir + name
    } else {
        dir + "/"@ + name
    }
}

pub open spec fn video_queue(q: LiveQueueProfile) -> nat {
    match q {
        LiveQueueProfile::Small => VIDEO_INPUT_THREAD_QUEUE_SMALL as nat,
        LiveQueueProfile::Elevated => VIDEO_INPUT_THREAD_QUEUE_ELEVATED as nat,
    }
}

pub open spec fn audio_queue(q: LiveQueueProfile) -> nat {
    match q {
        LiveQueueProfile::Small => AUDIO_INPUT_THREAD_QUEUE_SMALL as nat,
        LiveQueueProfile::Elevated => AUDIO_INPUT_THREAD_QUEUE_ELEVATED as nat,
    }
}

/// The input arguments of an audio pipe.
pub open spec fn audio_input_args(
    settings: SettingsDto,
    queue_profile: LiveQueueProfile,
    path: Seq<char>,
) -> Seq<Seq<char>> {
    seq![
        "-thread_queue_size"@,
        decimal(audio_queue(queue_profile)),
        "-f"@,
        "f32le"@,
        "-ar"@,
        decimal(settings.audio_sample_rate_hz as nat),
        "-ac"@,
        decimal(settings.audio_channels as nat),
        "-i"@,
        path,
    ]
}

pub open spec fn opt_audio_input_args(
    settings: SettingsDto,
    queue_profile: LiveQueueProfile,
    path: Option<Seq<char>>,
) -> Seq<Seq<char>> {
    match path {
        Some(p) => audio_input_args(settings, queue_profile, p),
        None => Seq::empty(),
    }
}

/// Noise suppression runs in ffmpeg unless the microphone backend isolates
/// the voice itself.
pub open spec fn spec_denoise_in_graph(settings: SettingsDto, mic_backend: Seq<char>) -> bool {
    settings.mic_noise_suppression && mic_backend != "voice_isolation"@
}

/// How the recorded audio is mapped and encoded in each mode.
pub open spec fn mode_args(
    settings: SettingsDto,
    mode: AudioMode,
    mic_backend: Seq<char>,
    mic_mix_gain_tenths_db: u16,
    rnnoise_model: Option<Seq<char>>,
) -> Seq<Seq<char>> {
    match mode {
        AudioMode::VideoOnly => spec_audio_args(settings, false),
        AudioMode::SystemOnly => seq![
            "-map"@,
            "0:v:0"@,
            "-map"@,
            "1:a:0"@,
            "-af"@,
            "aresample=async=1:first_pts=0"@,
        ] + spec_audio_args(settings, true),
        AudioMode::SystemPlusMic => seq![
            "-filter_complex"@,
            spec_mix_graph(
                mic_mix_gain_tenths_db,
                settings.system_volume_percent,
                spec_denoise_in_graph(settings, mic_backend),
                rnnoise_model,
            ),
            "-map"@,
            "0:v:0"@,
            "-map"@,
            "[aout]"@,
        ] + spec_audio_args(settings, true),
    }
}

/// The whole command line; see `build_capture_args_from_pipes`.
pub open spec fn spec_capture_args(
    settings: SettingsDto,
    segment_dir: Seq<char>,
    session_id: Seq<char>,
    width: u16,
    height: u16,
    segment_ms: u16,
    segment_time_delta: Seq<char>,
    video_pipe: Seq<char>,
    system_audio_pipe: Option<Seq<char>>,
    mic_audio_pipe: Option<Seq<char>>,
    mode: AudioMode,
    mic_backend: Seq<char>,
    queue_profile: LiveQueueProfile,
    mic_mix_gain_tenths_db: u16,
    rnnoise_model: Option<Seq<char>>,
) -> Seq<Seq<char>> {
    let fps: nat = if settings.fps < 1 {
        1
    } else {
        settings.fps as nat
    };
    seq![
        "-hide_banner"@,
        "-loglevel"@,
        "info"@,
        "-probesize"@,
        "32"@,
        "-analyzeduration"@,
        "0"@,
        "-thread_queue_size"@,
        decimal(video_queue(queue_profile)),
        "-f"@,
        "rawvideo"@,
        "-pix_fmt"@,
        "nv12"@,
        "-video_size"@,
        decimal(width as nat) + "x"@ + decimal(height as nat),
        "-framerate"@,
        decimal(fps),
        "-i"@,
        video_pipe,
    ] + opt_audio_input_args(settings, queue_profile, system_audio_pipe) + opt_audio_input_args(
        settings,
        queue_profile,
        mic_audio_pipe,
    ) + spec_video_args(settings) + seq!["-fps_mode"@, "cfr"@] + mode_args(
        settings,
        mode,
        mic_backend,
        mic_mix_gain_tenths_db,
        rnnoise_model,
    ) + seq![
        "-f"@,
        "segment"@,
        "-segment_time"@,
        short_seconds_text(segment_ms as nat),
        "-segment_time_delta"@,
        segment_time_delta,
        "-reset_timestamps"@,
        "0"@,
        "-segment_format"@,
        "mp4"@,
        join_path(segment_dir, "seg_"@ + session_id + "_%08d.mp4"@),
    ]
}

fn push_text(args: &mut Vec<String>, s: String)
    ensures
        texts(final(args)@) == texts(old(args)@).push(s@),
{
    args.push(s);
    assert(texts(final(args)@) =~= texts(old(args)@).push(s@));
}

fn push_str(args: &mut Vec<String>, s: &str)
    ensures
        texts(final(args)@) == texts(old(args)@).push(s@),
{
    push_text(args, s.to_string());
}

fn extend_texts(args: &mut Vec<String>, more: Vec<String>)
    ensures
        texts(final(args)@) == texts(old(args)@) + texts(more@),
{
    let mut i: usize = 0;
    while i < more.len()
        invariant
            i <= more.len(),
            texts(args@) == texts(old(args)@) + texts(more@.take(i as int)),
        decreases more.len() - i,
    {
        let s = more[i].clone();
        push_text(args, s);
        assert(texts(more@.take(i + 1)) =~= texts(more@.take(i as int)).push(more@[i as int]@));
        i = i + 1;
    }
    assert(more@.take(more.len() as int) =~= more@);
}

fn decimal_text(n: u64) -> (r: String)
    ensures
        r@ == decimal(n as nat),
{
    crate::text::decimal_string(n)
}

fn push_audio_input(
    args: &mut Vec<String>,
    settings: &SettingsDto,
    queue_profile: LiveQueueProfile,
    path: &Option<String>,
)
    ensures
        texts(final(args)@) == texts(old(args)@) + opt_audio_input_args(
            *settings,
            queue_profile,
            opt_string(*path),
        ),
{
    match path {
        Some(p) => {
            let more = vec![
                "-thread_queue_size".to_string(),
                decimal_text(queue_profile.audio_thread_queue_size() as u64),
                "-f".to_string(),
                "f32le".to_string(),
                "-ar".to_string(),
                decimal_text(settings.audio_sample_rate_hz as u64),
                "-ac".to_string(),
                decimal_text(settings.audio_channels as u64),
                "-i".to_string(),
                p.clone(),
            ];
            assert(texts(more@) =~= audio_input_args(*settings, queue_profile, p@));
            extend_texts(args, more);
        },
        None => {
            assert(texts(old(args)@) + opt_audio_input_args(*settings, queue_profile, None)
                =~= texts(old(args)@));
        },
    }
}

fn short_seconds_string(ms: u16) -> (r: String)
    ensures
        r@ == short_seconds_text(ms as nat),
{
    let mut v: Vec<char> = Vec::new();
    let ms64 = ms as u64;
    push_decimal(&mut v, ms64 / 1000);
    let f = ms64 % 1000;
    let mut frac: Vec<char> = Vec::new();
    if f == 0 {
        proof {
            reveal_strlit("");
        }
        assert(frac@ =~= ""@);
    } else if f % 100 == 0 {
        append_str(&mut frac, ".");
        push_decimal(&mut frac, f / 100);
    } else if f % 10 == 0 {
        append_str(&mut frac, ".");
        push_pad2(&mut frac, f / 10);
    } else {
        append_str(&mut frac, ".");
        push_pad3(&mut frac, f);
    }
    assert(frac@ == (if f == 0 {
        ""@
    } else if f % 100 == 0 {
        "."@ + decimal((f / 100) as nat)
    } else if f % 10 == 0 {
        "."@ + pad2((f / 10) as nat)
    } else {
        "."@ + pad3(f as nat)
    }));
    append_chars(&mut v, &frac);
    assert(v@ =~= short_seconds_text(ms as nat));
    chars_to_string(&v)
}

fn segment_pattern(segment_dir: &str, session_id: &str) -> (r: String)
    ensures
        r@ == join_path(segment_dir@, "seg_"@ + session_id@ + "_%08d.mp4"@),
{
    let dir = str_chars(segment_dir);
    let mut v: Vec<char> = Vec::new();
    append_chars(&mut v, &dir);
    if dir.len() > 0 && dir[dir.len() - 1] != '/' {
        append_str(&mut v, "/");
    }
    append_str(&mut v, "seg_");
    append_str(&mut v, session_id);
    append_str(&mut v, "_%08d.mp4");
    assert(v@ =~= join_path(segment_dir@, "seg_"@ + session_id@ + "_%08d.mp4"@));
    chars_to_string(&v)
}

fn video_size_text(width: u16, height: u16) -> (r: String)
    ensures
        r@ == decimal(width as nat) + "x"@ + decimal(height as nat),
{
    let mut v: Vec<char> = Vec::new();
    push_decimal(&mut v, width as u64);
    append_str(&mut v, "x");
    push_decimal(&mut v, height as u64);
    assert(v@ =~= decimal(width as nat) + "x"@ + decimal(height as nat));
    chars_to_string(&v)
}

fn push_mode_args(
    args: &mut Vec<String>,
    settings: &SettingsDto,
    mode: AudioMode,
    mic_backend: &str,
    mic_mix_gain_tenths_db: u16,
    rnnoise_model: Option<&str>,
)
    ensures
        texts(final(args)@) == texts(old(args)@) + mode_args(
            *settings,
            mode,
            mic_backend@,
            mic_mix_gain_tenths_db,
            match rnnoise_model {
                Some(m) => Some(m@),
                None => None,
            },
        ),
{
    match mode {
        AudioMode::VideoOnly => {
            extend_texts(args, AudioEncoder::ffmpeg_args(settings, false));
        },
        AudioMode::SystemOnly => {
            let head = vec![
                "-map".to_string(),
                "0:v:0".to_string(),
                "-map".to_string(),
                "1:a:0".to_string(),
                "-af".to_string(),
                "aresample=async=1:first_pts=0".to_string(),
            ];
            extend_texts(args, head);
            extend_texts(args, AudioEncoder::ffmpeg_args(settings, true));
            assert(texts(final(args)@) =~= texts(old(args)@) + mode_args(
                *settings,
                mode,
                mic_backend@,
                mic_mix_gain_tenths_db,
                match rnnoise_model {
                    Some(m) => Some(m@),
                    None => None,
                },
            ));
        },
        AudioMode::SystemPlusMic => {
            let denoise = settings.mic_noise_suppression && !str_eq(mic_backend, "voice_isolation");
            let graph = build_system_plus_mic_mix_graph(
                mic_mix_gain_tenths_db,
                settings.system_volume_percent,
                denoise,
                rnnoise_model,
            );
            let head = vec![
                "-filter_complex".to_string(),
                graph,
                "-map".to_string(),
                "0:v:0".to_string(),
                "-map".to_string(),
                "[aout]".to_string(),
            ];
            extend_texts(args, head);
            extend_texts(args, AudioEncoder::ffmpeg_args(settings, true));
            assert(texts(final(args)@) =~= texts(old(args)@) + mode_args(
                *settings,
                mode,
                mic_backend@,
                mic_mix_gain_tenths_db,
                match rnnoise_model {
                    Some(m) => Some(m@),
                    None => None,
                },
            ));
        },
    }
}

/// The capture's ffmpeg arguments: the raw NV12 video pipe at the frame
/// rate (at least one) and the audio pipes there are, with the queue sizes
/// of the profile; the video encoder; the audio of the mode (none, system
/// audio resampled, or the mix graph of system audio and microphone); and
/// segments of `segment_ms` named after the session in `segment_dir`.
/// `segment_time_delta` is the segment boundary tolerance as ffmpeg reads
/// it; `rnnoise_model` is the model file when one is installed.
#[verifier::rlimit(40)]
pub fn build_capture_args_from_pipes(
    settings: &SettingsDto,
    segment_dir: &str,
    session_id: &str,
    width: u16,
    height: u16,
    segment_ms: u16,
    segment_time_delta: &str,
    pipes: &CapturePipes,
    mode: AudioMode,
    mic_backend: &str,
    queue_profile: LiveQueueProfile,
    mic_mix_gain_tenths_db: u16,
    rnnoise_model: Option<&str>,
) -> (r: Vec<String>)
    ensures
        texts(r@) == spec_capture_args(
            *settings,
            segment_dir@,
            session_id@,
            width,
            height,
            segment_ms,
            segment_time_delta@,
            pipes.video_pipe@,
            opt_string(pipes.system_audio_pipe),
            opt_string(pipes.mic_audio_pipe),
            mode,
            mic_backend@,
            queue_profile,
            mic_mix_gain_tenths_db,
            match rnnoise_model {
                Some(m) => Some(m@),
                None => None,
            },
        ),
{
    let fps: u64 = if settings.fps < 1 {
        1
    } else {
        settings.fps as u64
    };
    let mut args: Vec<String> = vec![
        "-hide_banner".to_string(),
        "-loglevel".to_string(),
        "info".to_string(),
        "-probesize".to_string(),
        "32".to_string(),
        "-analyzeduration".to_string(),
        "0".to_string(),
        "-thread_queue_size".to_string(),
        decimal_text(queue_profile.video_thread_queue_size() as u64),
        "-f".to_string(),
        "rawvideo".to_string(),
        "-pix_fmt".to_string(),
        "nv12".to_string(),
        "-video_size".to_string(),
        video_size_text(width, height),
        "-framerate".to_string(),
        decimal_text(fps),
        "-i".to_string(),
        pipes.video_pipe.clone(),
    ];
    let ghost a0 = texts(args@);
    push_audio_input(&mut args, settings, queue_profile, &pipes.system_audio_pipe);
    push_audio_input(&mut args, settings, queue_profile, &pipes.mic_audio_pipe);
    extend_texts(&mut args, VideoEncoder::ffmpeg_args(settings));
    push_str(&mut args, "-fps_mode");
    push_str(&mut args, "cfr");
    let ghost a1 = texts(args@);
    push_mode_args(&mut args, settings, mode, mic_backend, mic_mix_gain_tenths_db, rnnoise_model);
    let ghost a2 = texts(args@);
    let tail = vec![
        "-f".to_string(),
        "segment".to_string(),
        "-segment_time".to_string(),
        short_seconds_string(segment_ms),
        "-segment_time_delta".to_string(),
        segment_time_delta.to_string(),
        "-reset_timestamps".to_string(),
        "0".to_string(),
        "-segment_format".to_string(),
        "mp4".to_string(),
        segment_pattern(segment_dir, session_id),
    ];
    extend_texts(&mut args, tail);
    assert(texts(args@) =~= spec_capture_args(
        *settings,
        segment_dir@,
        session_id@,
        width,
        height,
        segment_ms,
        segment_time_delta@,
        pipes.video_pipe@,
        opt_string(pipes.system_audio_pipe),
        opt_string(pipes.mic_audio_pipe),
        mode,
        mic_backend@,
        queue_profile,
        mic_mix_gain_tenths_db,
        match rnnoise_model {
            Some(m) => Some(m@),
            None => None,
        },
    ));
    args
}

pub open spec fn flag(b: bool) -> Seq<char> {
    if b {
        "1"@
    } else {
        "0"@
    }
}

/// The capture helper's command line: frame size and rate, display, the
/// pipes it writes, which audio it records and how, the microphone chosen
/// (when one is named) and the microphone boost (with a microphone).
pub open spec fn spec_sck_helper_args(
    settings: SettingsDto,
    width: u16,
    height: u16,
    fps: u16,
    display_index: usize,
    video_pipe: Seq<char>,
    system_audio_pipe: Option<Seq<char>>,
    mic_audio_pipe: Option<Seq<char>>,
    mode: AudioMode,
    mic_backend: Seq<char>,
) -> Seq<Seq<char>> {
    seq![
        "--width"@,
        decimal(width as nat),
        "--height"@,
        decimal(height as nat),
        "--fps"@,
        decimal(fps as nat),
        "--display-index"@,
        decimal(display_index as nat),
        "--video-pipe"@,
        video_pipe,
        "--enable-system-audio"@,
        flag(mode != AudioMode::VideoOnly),
        "--enable-mic"@,
        flag(mode == AudioMode::SystemPlusMic),
        "--audio-sample-rate"@,
        decimal(settings.audio_sample_rate_hz as nat),
        "--audio-channels"@,
        decimal(settings.audio_channels as nat),
        "--exclude-current-process-audio"@,
        flag(settings.exclude_current_process_audio),
        "--mic-backend"@,
        mic_backend,
        "--mic-retry-interval-secs"@,
        decimal(settings.mic_retry_interval_secs as nat),
    ] + match system_audio_pipe {
        Some(p) => seq!["--audio-pipe"@, p],
        None => Seq::empty(),
    } + match mic_audio_pipe {
        Some(p) => seq!["--mic-pipe"@, p],
        None => Seq::empty(),
    } + match settings.selected_microphone_id {
        Some(id) => if trim(id@).len() > 0 {
            seq!["--selected-microphone-id"@, id@]
        } else {
            Seq::empty()
        },
        None => Seq::empty(),
    } + if settings.mic_auto_boost_volume && mode == AudioMode::SystemPlusMic {
        seq!["--boost-mic-volume"@, "1"@]
    } else {
        Seq::empty()
    }
}

fn flag_string(b: bool) -> (r: String)
    ensures
        r@ == flag(b),
{
    if b {
        "1".to_string()
    } else {
        "0".to_string()
    }
}

fn push_pair(args: &mut Vec<String>, name: &str, value: String)
    ensures
        texts(final(args)@) == texts(old(args)@) + seq![name@, value@],
{
    push_str(args, name);
    push_text(args, value);
    assert(texts(final(args)@) =~= texts(old(args)@) + seq![name@, value@]);
}

pub fn sck_helper_args(
    settings: &SettingsDto,
    width: u16,
    height: u16,
    fps: u16,
    display_index: usize,
    pipes: &CapturePipes,
    mode: AudioMode,
    mic_backend: &str,
) -> (r: Vec<String>)
    ensures
        texts(r@) == spec_sck_helper_args(
            *settings,
            width,
            height,
            fps,
            display_index,
            pipes.video_pipe@,
            opt_string(pipes.system_audio_pipe),
            opt_string(pipes.mic_audio_pipe),
            mode,
            mic_backend@,
        ),
{
    let mut args: Vec<String> = vec![
        "--width".to_string(),
        decimal_text(width as u64),
        "--height".to_string(),
        decimal_text(height as u64),
        "--fps".to_string(),
        decimal_text(fps as u64),
        "--display-index".to_string(),
        decimal_text(display_index as u64),
        "--video-pipe".to_string(),
        pipes.video_pipe.clone(),
        "--enable-system-audio".to_string(),
        flag_string(mode != AudioMode::VideoOnly),
        "--enable-mic".to_string(),
        flag_string(mode == AudioMode::SystemPlusMic),
        "--audio-sample-rate".to_string(),
        decimal_text(settings.audio_sample_rate_hz as u64),
        "--audio-channels".to_string(),
        decimal_text(settings.audio_channels as u64),
        "--exclude-current-process-audio".to_string(),
        flag_string(settings.exclude_current_process_audio),
        "--mic-backend".to_string(),
        mic_backend.to_string(),
        "--mic-retry-interval-secs".to_string(),
        decimal_text(settings.mic_retry_interval_secs as u64),
    ];
    let ghost a0 = texts(args@);
    match &pipes.system_audio_pipe {
        Some(p) => push_pair(&mut args, "--audio-pipe", p.clone()),
        None => {},
    }
    let ghost a1 = texts(args@);
    match &pipes.mic_audio_pipe {
        Some(p) => push_pair(&mut args, "--mic-pipe", p.clone()),
        None => {},
    }
    let ghost a2 = texts(args@);
    match &settings.selected_microphone_id {
        Some(id) => {
            let t = crate::text::trim_chars(&crate::text::str_chars(id.as_str()));
            if t.len() > 0 {
                push_pair(&mut args, "--selected-microphone-id", id.clone());
            }
        },
        None => {},
    }
    let ghost a3 = texts(args@);
    if settings.mic_auto_boost_volume && mode == AudioMode::SystemPlusMic {
        push_pair(&mut args, "--boost-mic-volume", "1".to_string());
    }
    proof {
        reveal_strlit("");
        assert(a1 =~= a0 + match opt_string(pipes.system_audio_pipe) {
            Some(p) => seq!["--audio-pipe"@, p],
            None => Seq::<Seq<char>>::empty(),
        });
        assert(a2 =~= a1 + match opt_string(pipes.mic_audio_pipe) {
            Some(p) => seq!["--mic-pipe"@, p],
            None => Seq::<Seq<char>>::empty(),
        });
        assert(a3 =~= a2 + match settings.selected_microphone_id {
            Some(id) => if trim(id@).len() > 0 {
                seq!["--selected-microphone-id"@, id@]
            } else {
                Seq::<Seq<char>>::empty()
            },
            None => Seq::<Seq<char>>::empty(),
        });
    }
    assert(texts(args@) =~= spec_sck_helper_args(
        *settings,
        width,
        height,
        fps,
        display_index,
        pipes.video_pipe@,
        opt_string(pipes.system_audio_pipe),
        opt_string(pipes.mic_audio_pipe),
        mode,
        mic_backend@,
    ));
    args
}

} // verus!
