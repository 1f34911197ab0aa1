//! Encoder arguments for ffmpeg and the kinds of encoded streams.
use vstd::prelude::*;
use crate::settings::SettingsDto;
use crate::text::{
    append_str, chars_to_string, decimal, decimal_string, is_digit, lemma_decimal_digits,
    lemma_parse_decimal, parse_unsigned, push_decimal, texts,
};

verus! {

/// The stream an encoded packet belongs to.
#[derive(Debug, Clone, Copy, PartialEq, Eq, Structural)]
pub enum StreamKind {
    Video,
    Audio,
}

/// Audio encoding arguments.
pub struct AudioEncoder;

/// Video encoding arguments.
pub struct VideoEncoder;

pub open spec fn spec_audio_args(settings: SettingsDto, has_audio_input: bool) -> Seq<Seq<char>> {
    if !has_audio_input {
        seq!["-an"@]
    } else {
        seq![
            "-c:a"@,
            "aac"@,
            "-b:a"@,
            decimal(settings.audio_bitrate_kbps as nat) + "k"@,
            "-ar"@,
            decimal(settings.audio_sample_rate_hz as nat),
            "-ac"@,
            decimal(settings.audio_channels as nat),
        ]
    }
}

fn kbps_text(kbps: u32) -> (r: String)
    ensures
        r@ == decimal(kbps as nat) + "k"@,
{
    let mut v: Vec<char> = Vec::new();
    push_decimal(&mut v, kbps as u64);
    append_str(&mut v, "k");
    assert(v@ =~= decimal(kbps as nat) + "k"@);
    chars_to_string(&v)
}

impl AudioEncoder {
    /// AAC at the configured bitrate, sample rate and channel count, or no
    /// audio at all without an audio input.
    pub fn ffmpeg_args(settings: &SettingsDto, has_audio_input: bool) -> (r: Vec<String>)
        ensures
            texts(r@) == spec_audio_args(*settings, has_audio_input),
    {
        if !has_audio_input {
            let r = vec!["-an".to_string()];
            assert(texts(r@) =~= spec_audio_args(*settings, has_audio_input));
            return r;
        }
        let r = vec![
            "-c:a".to_string(),
            "aac".to_string(),
            "-b:a".to_string(),
            kbps_text(settings.audio_bitrate_kbps),
            "-ar".to_string(),
            decimal_string(settings.audio_sample_rate_hz as u64),
            "-ac".to_string(),
            decimal_string(settings.audio_channels as u64),
        ];
        assert(texts(r@) =~= spec_audio_args(*settings, has_audio_input));
        r
    }
}

/// The keyframe interval in milliseconds: the segment duration, kept
/// between a quarter second and two seconds.
pub open spec fn keyframe_interval_ms(segment_time_ms: u16) -> nat {
    if segment_time_ms < 250 {
        250
    } else if segment_time_ms > 2000 {
        2000
    } else {
        segment_time_ms as nat
    }
}

/// Frames per keyframe interval, rounded half up, at least one.
pub open spec fn gop_frames(fps: u16, segment_time_ms: u16) -> nat {
    let f: nat = if fps < 1 {
        1
    } else {
        fps as nat
    };
    let g = (f * keyframe_interval_ms(segment_time_ms) + 500) / 1000;
    if g < 1 {
        1
    } else {
        g
    }
}

/// Seconds with three decimals, from milliseconds.
pub open spec fn seconds_text(ms: nat) -> Seq<char> {
    let frac = ms % 1000;
    decimal(ms / 1000) + "."@ + if frac < 10 {
        "00"@
    } else if frac < 100 {
        "0"@
    } else {
        ""@
    } + decimal(frac)
}

pub open spec fn spec_video_args(settings: SettingsDto) -> Seq<Seq<char>> {
    let kbps = decimal(settings.video_bitrate_kbps as nat) + "k"@;
    let gop = decimal(gop_frames(settings.fps, settings.segment_time_ms));
    seq![
        "-r"@,
        decimal(settings.fps as nat),
        "-c:v"@,
        "h264_videotoolbox"@,
        "-realtime"@,
        "1"@,
        "-b:v"@,
        kbps,
        "-maxrate"@,
        kbps,
        "-bufsize"@,
        kbps,
        "-flags"@,
        "+cgop"@,
        "-force_key_frames"@,
        "expr:gte(t,n_forced*"@ + seconds_text(keyframe_interval_ms(settings.segment_time_ms))
            + ")"@,
        "-g"@,
        gop,
        "-keyint_min"@,
        gop,
    ]
}

fn seconds_text_exec(ms: u64) -> (r: Vec<char>)
    ensures
        r@ == seconds_text(ms as nat),
{
    let mut v: Vec<char> = Vec::new();
    push_decimal(&mut v, ms / 1000);
    append_str(&mut v, ".");
    let frac = ms % 1000;
    if frac < 10 {
        append_str(&mut v, "00");
    } else if frac < 100 {
        append_str(&mut v, "0");
    } else {
        append_str(&mut v, "");
    }
    push_decimal(&mut v, frac);
    assert(v@ =~= seconds_text(ms as nat));
    v
}

impl VideoEncoder {
    /// Hardware H.264 at the configured frame rate and bitrate, with a closed
    /// GOP and a keyframe at every segment boundary.
    pub fn ffmpeg_args(settings: &SettingsDto) -> (r: Vec<String>)
        ensures
            texts(r@) == spec_video_args(*settings),
    {
        let fps: u64 = if settings.fps < 1 {
            1
        } else {
            settings.fps as u64
        };
        let interval_ms: u64 = if settings.segment_time_ms < 250 {
            250
        } else if settings.segment_time_ms > 2000 {
            2000
        } else {
            settings.segment_time_ms as u64
        };
        assert(fps * interval_ms <= 65535 * 2000) by (nonlinear_arith)
            requires
                fps <= 65535,
                interval_ms <= 2000,
        ;
        let g = (fps * interval_ms + 500) / 1000;
        let gop: u64 = if g < 1 {
            1
        } else {
            g
        };
        let mut force: Vec<char> = Vec::new();
        append_str(&mut force, "expr:gte(t,n_forced*");
        let secs = seconds_text_exec(interval_ms);
        crate::text::append_chars(&mut force, &secs);
        append_str(&mut force, ")");
        assert(force@ =~= "expr:gte(t,n_forced*"@ + seconds_text(
            keyframe_interval_ms(settings.segment_time_ms),
        ) + ")"@);
        let r = vec![
            "-r".to_string(),
            decimal_string(settings.fps as u64),
            "-c:v".to_string(),
            "h264_videotoolbox".to_string(),
            "-realtime".to_string(),
            "1".to_string(),
            "-b:v".to_string(),
            kbps_text(settings.video_bitrate_kbps),
            "-maxrate".to_string(),
            kbps_text(settings.video_bitrate_kbps),
            "-bufsize".to_string(),
            kbps_text(settings.video_bitrate_kbps),
            "-flags".to_string(),
            "+cgop".to_string(),
            "-force_key_frames".to_string(),
            chars_to_string(&force),
            "-g".to_string(),
            decimal_string(gop),
            "-keyint_min".to_string(),
            decimal_string(gop),
        ];
        assert(texts(r@) =~= spec_video_args(*settings));
        r
    }
}

pub open spec fn is_bitrate_flag(a: Seq<char>) -> bool {
    a == "-b:v"@ || a == "-maxrate"@ || a == "-bufsize"@
}

/// The video bitrate reaches ffmpeg in kilobits per second: the argument
/// after each of `-b:v`, `-maxrate` and `-bufsize` is the configured
/// bitrate in decimal followed by the unit `k`, and all three flags are
/// given.
pub proof fn video_bitrate_is_given_in_kilobits(s: SettingsDto)
    ensures
        forall|k: int|
            0 <= k < spec_video_args(s).len() - 1 && #[trigger] is_bitrate_flag(spec_video_args(s)[k])
                ==> {
                let a = spec_video_args(s)[k + 1];
                &&& a.len() >= 2
                &&& a.last() == 'k'
                &&& parse_unsigned(a.drop_last()) == Some(s.video_bitrate_kbps as int)
            },
        exists|k: int| 0 <= k < spec_video_args(s).len() - 1 && spec_video_args(s)[k] == "-b:v"@,
        exists|k: int| 0 <= k < spec_video_args(s).len() - 1 && spec_video_args(s)[k] == "-maxrate"@,
        exists|k: int| 0 <= k < spec_video_args(s).len() - 1 && spec_video_args(s)[k] == "-bufsize"@,
{
    let args = spec_video_args(s);
    let kb = decimal(s.video_bitrate_kbps as nat) + "k"@;
    lemma_parse_decimal(s.video_bitrate_kbps as nat);
    lemma_decimal_digits(s.video_bitrate_kbps as nat);
    reveal_strlit("k");
    reveal_strlit("-b:v");
    reveal_strlit("-maxrate");
    reveal_strlit("-bufsize");
    reveal_strlit("-r");
    reveal_strlit("-c:v");
    reveal_strlit("h264_videotoolbox");
    reveal_strlit("-realtime");
    reveal_strlit("1");
    reveal_strlit("-flags");
    reveal_strlit("+cgop");
    reveal_strlit("-force_key_frames");
    reveal_strlit("expr:gte(t,n_forced*");
    reveal_strlit("-g");
    reveal_strlit("-keyint_min");
    assert(kb.drop_last() =~= decimal(s.video_bitrate_kbps as nat));
    assert forall|k: int|
        0 <= k < args.len() - 1 && #[trigger] is_bitrate_flag(args[k]) implies {
            let a = args[k + 1];
            &&& a.len() >= 2
            &&& a.last() == 'k'
            &&& parse_unsigned(a.drop_last()) == Some(s.video_bitrate_kbps as int)
        } by {
        lemma_decimal_digits(s.fps as nat);
        lemma_decimal_digits(gop_frames(s.fps, s.segment_time_ms));
        assert(args.len() == 20);
        assert("-b:v"@[0] == '-' && "-maxrate"@[0] == '-' && "-bufsize"@[0] == '-');
        if k == 1 || k == 7 || k == 9 || k == 11 || k == 17 || k == 19 {
            assert(is_digit(args[k][0]));
            assert(args[k][0] != '-');
        } else if k == 3 || k == 5 || k == 13 {
            assert(args[k][0] != '-');
        } else if k == 15 {
            let e = "expr:gte(t,n_forced*"@;
            assert(args[15] == e + seconds_text(keyframe_interval_ms(s.segment_time_ms)) + ")"@);
            assert(args[15][0] == e[0]);
            assert(args[15][0] != '-');
        } else if k == 2 {
            assert(args[2][1] != "-b:v"@[1]);
            assert(args[2].len() != "-maxrate"@.len());
        } else if k == 0 || k == 4 || k == 12 || k == 14 || k == 16 || k == 18 {
            assert(args[k].len() != 4 && args[k].len() != 8);
        }
        assert(k == 6 || k == 8 || k == 10);
    }
    assert(args[6] == "-b:v"@);
    assert(args[8] == "-maxrate"@);
    assert(args[10] == "-bufsize"@);
}

} // verus!
