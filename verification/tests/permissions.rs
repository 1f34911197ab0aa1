use rewinder::permissions::{
    ensure_microphone_permission, ensure_output_dir_access, has_screen_capture_device,
    microphone_probe_from_helper_output, output_dir_permission_denied_message,
    parse_avfoundation_device_line, permissions_from_device_listing,
    screen_recording_denied_permissions, MicrophonePermissionProbe, MicrophonePermissionStatus,
    OutputDirAccessProbe,
};

#[test]
fn parse_ignores_objc_warning() {
    let warning =
        "objc[63059]: class `NSKVONotifying_AVCaptureScreenInput' not linked into application";
    assert!(parse_avfoundation_device_line(warning).is_none());
}

#[test]
fn detects_screen_device_only_from_device_lines() {
    let listing = r#"
[AVFoundation indev @ 0x111] AVFoundation video devices:
objc[63059]: class `NSKVONotifying_AVCaptureScreenInput' not linked into application
[AVFoundation indev @ 0x111] [0] FaceTime HD Camera
[AVFoundation indev @ 0x111] [1] Capture screen 0
[AVFoundation indev @ 0x111] AVFoundation audio devices:
"#;
    assert!(has_screen_capture_device(listing));
}

#[test]
fn device_line_yields_index_and_name() {
    assert_eq!(
        parse_avfoundation_device_line("[AVFoundation indev @ 0x111] [3] Capture screen 1"),
        Some((3, "Capture screen 1".to_string()))
    );
    assert_eq!(parse_avfoundation_device_line("[x] name"), None);
    assert_eq!(parse_avfoundation_device_line("[2]   "), None);
}

#[test]
fn cameras_and_audio_devices_are_not_screens() {
    let listing = "[AVFoundation indev @ 0x1] AVFoundation video devices:\n[AVFoundation indev @ 0x1] [0] FaceTime HD Camera (Display)\n[AVFoundation indev @ 0x1] AVFoundation audio devices:\n[AVFoundation indev @ 0x1] [0] Display Audio\n";
    assert!(!has_screen_capture_device(listing));
}

#[test]
fn permission_status_names() {
    assert_eq!(MicrophonePermissionStatus::Granted.as_str(), "granted");
    assert_eq!(MicrophonePermissionStatus::NotDetermined.as_str(), "not_determined");
    assert_eq!(MicrophonePermissionStatus::Unknown.as_str(), "unknown");
}

#[test]
fn output_dir_access_uses_probe_error_or_denial_message() {
    let ok = OutputDirAccessProbe { writable: true, error: None };
    assert!(ensure_output_dir_access(&ok, "/tmp/x").is_ok());
    let with_error = OutputDirAccessProbe {
        writable: false,
        error: Some("disk full".to_string()),
    };
    assert_eq!(ensure_output_dir_access(&with_error, "/tmp/x"), Err("disk full".to_string()));
    let denied = OutputDirAccessProbe { writable: false, error: None };
    let expected = output_dir_permission_denied_message("/Users/a/Downloads/Rewinder");
    assert!(expected.starts_with("Downloads folder access is denied for Rewinder (/Users/a/Downloads/Rewinder)."));
    assert_eq!(ensure_output_dir_access(&denied, "/Users/a/Downloads/Rewinder"), Err(expected));
}

#[test]
fn microphone_permission_requires_granted_probe() {
    assert!(ensure_microphone_permission(&MicrophonePermissionProbe::granted()).is_ok());
    let denied = MicrophonePermissionProbe::with_error(
        MicrophonePermissionStatus::Denied,
        "no mic".to_string(),
    );
    assert_eq!(ensure_microphone_permission(&denied), Err("no mic".to_string()));
    let bare = MicrophonePermissionProbe { status: MicrophonePermissionStatus::Unknown, error: None };
    assert_eq!(
        ensure_microphone_permission(&bare),
        Err("Microphone permission probe failed.".to_string())
    );
}

#[test]
fn microphone_probe_reads_helper_markers() {
    let granted = microphone_probe_from_helper_output(true, "MIC_PERMISSION=GRANTED\n", "", "exit status: 0");
    assert_eq!(granted.status, MicrophonePermissionStatus::Granted);
    assert!(granted.error.is_none());
    let not_success = microphone_probe_from_helper_output(false, "mic_permission=granted", "", "exit status: 1");
    assert_eq!(not_success.status, MicrophonePermissionStatus::Unknown);
    assert_eq!(
        not_success.error.as_deref(),
        Some("Microphone permission probe failed (status exit status: 1): ")
    );
    let denied = microphone_probe_from_helper_output(true, "", "mic_permission=denied", "exit status: 0");
    assert_eq!(denied.status, MicrophonePermissionStatus::Denied);
    let restricted = microphone_probe_from_helper_output(false, "mic_permission=restricted", "", "x");
    assert_eq!(restricted.status, MicrophonePermissionStatus::Restricted);
    let pending = microphone_probe_from_helper_output(false, "mic_permission=not_determined", "", "x");
    assert_eq!(pending.status, MicrophonePermissionStatus::NotDetermined);
    let unknown = microphone_probe_from_helper_output(false, "", "  boom \n", "exit status: 2");
    assert_eq!(
        unknown.error.as_deref(),
        Some("Microphone permission probe failed (status exit status: 2): boom")
    );
}

#[test]
fn permissions_follow_device_listing_and_folder() {
    let writable = OutputDirAccessProbe { writable: true, error: None };
    let listing = "AVFoundation video devices:\n[0] Capture screen 0\n";
    let granted = permissions_from_device_listing(&writable, "/tmp/out", Ok(listing));
    assert!(granted.screen_recording_granted && granted.system_audio_granted);
    assert!(granted.reason.is_none());
    let blocked = OutputDirAccessProbe { writable: false, error: None };
    let no_folder = permissions_from_device_listing(&blocked, "/tmp/out", Ok(listing));
    assert!(no_folder.screen_recording_granted);
    assert!(!no_folder.output_dir_writable);
    assert_eq!(no_folder.reason, Some(output_dir_permission_denied_message("/tmp/out")));
    let none = permissions_from_device_listing(&writable, "/tmp/out", Ok("nothing\n"));
    assert!(!none.screen_recording_granted);
    let failed = permissions_from_device_listing(&writable, "/tmp/out", Err("not found"));
    assert_eq!(
        failed.reason.as_deref(),
        Some("Failed to run ffmpeg for permission probe: not found")
    );
    let denied = screen_recording_denied_permissions(&writable);
    assert!(!denied.screen_recording_granted);
    assert!(denied.output_dir_writable);
}
