use rewinder::capture_args::{
    build_capture_args_from_pipes, build_system_plus_mic_mix_graph, CapturePipes,
};
use rewinder::settings::SettingsDto;
use rewinder::startup::{AudioMode, LiveQueueProfile};

fn pipes(system: bool, mic: bool) -> CapturePipes {
    CapturePipes {
        video_pipe: "/tmp/video.pipe".to_string(),
        system_audio_pipe: system.then(|| "/tmp/system_audio.pipe".to_string()),
        mic_audio_pipe: mic.then(|| "/tmp/mic_audio.pipe".to_string()),
    }
}

fn args_for(
    settings: &SettingsDto,
    pipes: &CapturePipes,
    mode: AudioMode,
    backend: &str,
    queue: LiveQueueProfile,
) -> Vec<String> {
    build_capture_args_from_pipes(
        settings,
        "/tmp/rewinder-live",
        "sessiontest",
        1920,
        1080,
        500,
        "0.008333",
        pipes,
        mode,
        backend,
        queue,
        100,
        None,
    )
}

#[test]
fn capture_args_use_small_queues_and_skip_live_faststart() {
    let settings = SettingsDto::default();
    let args = args_for(
        &settings,
        &pipes(true, false),
        AudioMode::SystemOnly,
        "automatic",
        LiveQueueProfile::Small,
    );
    let joined = args.join(" ");
    assert!(joined.contains("-thread_queue_size 8"));
    assert!(joined.contains("-thread_queue_size 64"));
    assert!(!joined.contains("-use_wallclock_as_timestamps"));
    assert!(joined.contains("-segment_time_delta"));
    assert!(!joined.contains("-vsync"));
    assert!(!joined.contains("+faststart"));
}

#[test]
fn capture_args_use_elevated_queues_when_requested() {
    let settings = SettingsDto::default();
    let args = args_for(
        &settings,
        &pipes(true, true),
        AudioMode::SystemPlusMic,
        "automatic",
        LiveQueueProfile::Elevated,
    );
    let joined = args.join(" ");
    assert!(joined.contains("-thread_queue_size 32"));
    assert!(joined.contains("-thread_queue_size 256"));
}

#[test]
fn capture_args_skip_rnnoise_for_voice_isolation_backend() {
    let mut settings = SettingsDto::default();
    settings.mic_noise_suppression = true;
    let args = args_for(
        &settings,
        &pipes(true, true),
        AudioMode::SystemPlusMic,
        "voice_isolation",
        LiveQueueProfile::Elevated,
    );
    let joined = args.join(" ");
    assert!(!joined.contains("arnndn"));
    assert!(!joined.contains("afftdn"));
}

#[test]
fn capture_args_name_segments_after_the_session() {
    let settings = SettingsDto::default();
    let args = args_for(
        &settings,
        &pipes(false, false),
        AudioMode::VideoOnly,
        "automatic",
        LiveQueueProfile::Small,
    );
    assert_eq!(&args[..7], &["-hide_banner", "-loglevel", "info", "-probesize", "32", "-analyzeduration", "0"]);
    let joined = args.join(" ");
    assert!(joined.contains("-video_size 1920x1080 -framerate 60 -i /tmp/video.pipe"));
    assert!(joined.contains("-fps_mode cfr -an"));
    assert!(joined.ends_with(
        "-f segment -segment_time 0.5 -segment_time_delta 0.008333 -reset_timestamps 0 \
         -segment_format mp4 /tmp/rewinder-live/seg_sessiontest_%08d.mp4"
    ));
}

#[test]
fn capture_args_render_segment_time_in_shortest_form() {
    let settings = SettingsDto::default();
    let p = pipes(false, false);
    for (ms, text) in [(250, "0.25"), (1000, "1"), (1234, "1.234"), (2000, "2"), (1050, "1.05")] {
        let args = build_capture_args_from_pipes(
            &settings,
            "/live/",
            "s",
            1280,
            720,
            ms,
            "0.010000",
            &p,
            AudioMode::VideoOnly,
            "auto",
            LiveQueueProfile::Small,
            0,
            None,
        );
        let pos = args.iter().position(|a| a == "-segment_time").unwrap();
        assert_eq!(args[pos + 1], text);
        assert_eq!(args.last().unwrap(), "/live/seg_s_%08d.mp4");
    }
}

#[test]
fn mix_graph_uses_rnnoise_when_model_available() {
    let graph = build_system_plus_mic_mix_graph(100, 100, true, Some("/bundle/models/bd.rnnn"));
    assert!(graph.starts_with(
        "[1:a]volume=1.000[sys];[2:a]arnndn=m='/bundle/models/bd.rnnn',volume=10.0dB[mic]"
    ));
    assert!(!graph.contains("afftdn"));
    assert!(graph.contains("weights=1 1"));
    assert!(graph.contains("aresample=async=1:min_hard_comp=0.100:first_pts=0"));
}

#[test]
fn mix_graph_falls_back_to_afftdn_without_model() {
    let graph = build_system_plus_mic_mix_graph(100, 100, true, None);
    assert!(graph.contains("[2:a]afftdn="));
    assert!(!graph.contains("arnndn"));
}

#[test]
fn mix_graph_has_no_denoiser_when_suppression_off() {
    let graph = build_system_plus_mic_mix_graph(100, 100, false, Some("/bundle/models/bd.rnnn"));
    assert!(graph.contains("[2:a]volume=10.0dB[mic]"));
    assert!(!graph.contains("arnndn"));
    assert!(!graph.contains("afftdn"));
}

#[test]
fn mix_graph_clamps_gain_and_scales_system_volume() {
    let graph = build_system_plus_mic_mix_graph(250, 45, false, None);
    assert!(graph.starts_with("[1:a]volume=0.450[sys];[2:a]volume=18.0dB[mic]"));
    let graph = build_system_plus_mic_mix_graph(5, 7, false, None);
    assert!(graph.starts_with("[1:a]volume=0.070[sys];[2:a]volume=0.5dB[mic]"));
}

#[test]
fn helper_command_line_follows_mode_and_settings() {
    let mut settings = SettingsDto::default();
    settings.selected_microphone_id = Some("  ".to_string());
    settings.mic_auto_boost_volume = true;
    let args = rewinder::capture_args::sck_helper_args(
        &settings,
        1920,
        1080,
        60,
        0,
        &pipes(true, true),
        AudioMode::SystemPlusMic,
        "avcapture",
    );
    let joined = args.join(" ");
    assert!(joined.starts_with("--width 1920 --height 1080 --fps 60 --display-index 0 --video-pipe /tmp/video.pipe"));
    assert!(joined.contains("--enable-system-audio 1 --enable-mic 1"));
    assert!(joined.contains("--mic-backend avcapture --mic-retry-interval-secs 15"));
    assert!(joined.contains("--audio-pipe /tmp/system_audio.pipe --mic-pipe /tmp/mic_audio.pipe"));
    assert!(!joined.contains("--selected-microphone-id"));
    assert!(joined.ends_with("--boost-mic-volume 1"));
    settings.selected_microphone_id = Some("usb-1".to_string());
    let args = rewinder::capture_args::sck_helper_args(
        &settings,
        1280,
        720,
        30,
        1,
        &pipes(false, false),
        AudioMode::VideoOnly,
        "auto",
    );
    let joined = args.join(" ");
    assert!(joined.contains("--enable-system-audio 0 --enable-mic 0"));
    assert!(joined.ends_with("--selected-microphone-id usb-1"));
}
