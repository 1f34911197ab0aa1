use rewinder::encoding::{AudioEncoder, VideoEncoder};
use rewinder::settings::SettingsDto;

#[test]
fn keyframe_interval_tracks_segment_duration() {
    let mut settings = SettingsDto::default();
    settings.fps = 60;
    settings.segment_time_ms = 500;

    let args = VideoEncoder::ffmpeg_args(&settings).join(" ");
    assert!(args.contains("expr:gte(t,n_forced*0.500)"));
    assert!(args.contains("-g 30"));
    assert!(args.contains("-keyint_min 30"));
}

#[test]
fn keyframe_group_rounds_half_up_and_never_drops_below_one() {
    let mut settings = SettingsDto::default();
    settings.fps = 25;
    settings.segment_time_ms = 250;
    let args = VideoEncoder::ffmpeg_args(&settings).join(" ");
    assert!(args.contains("expr:gte(t,n_forced*0.250)"));
    assert!(args.contains("-g 6"));

    settings.fps = 1;
    settings.segment_time_ms = 100;
    let args = VideoEncoder::ffmpeg_args(&settings).join(" ");
    assert!(args.contains("-g 1"));
    assert!(args.contains("-keyint_min 1"));
}

#[test]
fn audio_args_follow_settings_or_disable_audio() {
    let settings = SettingsDto::default();
    assert_eq!(AudioEncoder::ffmpeg_args(&settings, false), vec!["-an".to_string()]);
    let args = AudioEncoder::ffmpeg_args(&settings, true);
    assert_eq!(
        args,
        vec!["-c:a", "aac", "-b:a", "192k", "-ar", "48000", "-ac", "2"]
            .into_iter()
            .map(String::from)
            .collect::<Vec<_>>()
    );
}
