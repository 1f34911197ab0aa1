use rewinder::hotkeys::{fallback_hotkey_notice, hotkey_status_for, HotkeyRegistration, RegistrationMode};
use rewinder::settings::SettingsDto;
use rewinder::state::{ClipperState, HotkeyStatusDto, PermissionStateDto};

fn granted_in_hotkeys() -> PermissionStateDto {
    PermissionStateDto {
        screen_recording_granted: true,
        system_audio_granted: true,
        output_dir_writable: true,
        output_dir_permission_error: None,
        reason: None,
    }
}

#[test]
fn registration_outcomes_set_the_hotkey_status() {
    assert_eq!(hotkey_status_for(RegistrationMode::Primary), HotkeyStatusDto::Registered);
    let mut state = ClipperState::new(SettingsDto::default(), granted_in_hotkeys());
    state.apply_hotkey_registration(
        &Ok(HotkeyRegistration {
            selected_hotkey: "Ctrl+Alt+S".to_string(),
            mode: RegistrationMode::Fallback,
        }),
        "settings",
    );
    assert_eq!(state.hotkey_status, HotkeyStatusDto::Fallback);
    assert_eq!(
        state.last_error.as_deref(),
        Some("settings: primary hotkey unavailable, using fallback 'Ctrl+Alt+S'")
    );
    assert_eq!(
        fallback_hotkey_notice("Ctrl+Alt+S"),
        "Primary hotkey unavailable. Using fallback Ctrl+Alt+S"
    );
    state.apply_hotkey_registration(&Err("taken".to_string()), "settings");
    assert_eq!(state.hotkey_status, HotkeyStatusDto::Conflict);
    state.apply_hotkey_registration(
        &Ok(HotkeyRegistration {
            selected_hotkey: "Ctrl+Option+R".to_string(),
            mode: RegistrationMode::Primary,
        }),
        "settings",
    );
    assert_eq!(state.hotkey_status, HotkeyStatusDto::Registered);
}
