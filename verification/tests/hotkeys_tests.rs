use screen_grabber::hotkey_config::{read_config, write_config};
use screen_grabber::hotkey_syntax::parse_returns;
use screen_grabber::hotkeys::{names_for_event, HotkeyName, RegisteredHotkeys, N_HOTK};
use screen_grabber::hotkeys_settings::{HotkeySettingsState, HotkeysSettings, KeyPress};
use screen_grabber::itc::SettingsEvent;

#[test]
fn hotkey_names() {
    assert_eq!(N_HOTK, 2);
    assert_eq!(HotkeyName::FullscreenScreenshot.index(), 0);
    assert_eq!(HotkeyName::RectScreenshot.index(), 1);
    assert_eq!(HotkeyName::from_index(0), HotkeyName::FullscreenScreenshot);
    assert_eq!(HotkeyName::from_index(1), HotkeyName::RectScreenshot);
    assert_eq!(HotkeyName::FullscreenScreenshot.label(), "Fullscreen screenshot");
    assert_eq!(HotkeyName::RectScreenshot.label_string(), "Rect screenshot");
}

#[test]
fn config_round_trip() {
    let entries = vec![Some("ctrl+shift+KeyA".to_string()), None];
    let text = write_config(&entries);
    assert_eq!(text, "ctrl+shift+KeyA\n\n");
    assert_eq!(read_config(&text), entries);
    let both = vec![Some("alt+KeyF".to_string()), Some("alt+KeyR".to_string())];
    assert_eq!(read_config(&write_config(&both)), both);
}

#[test]
fn config_reading() {
    assert_eq!(read_config(""), vec![None, None]);
    assert_eq!(read_config("\nalt+KeyQ"), vec![None, Some("alt+Key".to_string())]);
    assert_eq!(read_config("alt+KeyQ\n"), vec![Some("alt+KeyQ".to_string()), None]);
    assert_eq!(read_config("x\n"), vec![Some("x".to_string()), None]);
    assert_eq!(read_config("\n\n\n"), vec![None, None]);
}

#[test]
fn hotkey_syntax() {
    assert!(parse_returns("ctrl+shift+KeyA"));
    assert!(parse_returns("KeyA"));
    assert!(parse_returns(""));
    assert!(!parse_returns("ctrl+shift"));
    assert!(parse_returns("ctrl+alt+"));
    assert!(parse_returns("shift"));
    assert!(!parse_returns("alt+ctrl+super"));
    assert!(parse_returns("ctrl+KeyA+"));
    assert!(parse_returns("ctrl+\u{17f}"));
    assert!(!parse_returns("ctrl+\u{17f}hift"));
    assert!(!parse_returns(" ctrl + Shift "));
    assert!(!parse_returns("ctrl+\u{2003}shift"));
    assert!(!parse_returns("CmdOrCtrl+option"));
}

#[test]
fn draft_registration() {
    let mut h = RegisteredHotkeys::new();
    assert_eq!(h.get_hotkey_string(HotkeyName::FullscreenScreenshot), None);
    assert_eq!(h.request_register("ctrl+shift+KeyA".to_string(), HotkeyName::FullscreenScreenshot), Ok(()));
    assert_eq!(
        h.get_hotkey_string(HotkeyName::FullscreenScreenshot),
        Some("ctrl+shift+KeyA".to_string())
    );
    assert_eq!(
        h.request_register("ctrl+shift+KeyA".to_string(), HotkeyName::RectScreenshot),
        Err("Hotkey already registered")
    );
    assert_eq!(h.get_hotkey_string(HotkeyName::RectScreenshot), None);
    assert_eq!(h.request_register("ctrl+nokey".to_string(), HotkeyName::RectScreenshot), Ok(()));
    assert_eq!(h.get_hotkey_string(HotkeyName::RectScreenshot), None);
    h.request_unregister(HotkeyName::FullscreenScreenshot);
    assert_eq!(h.get_hotkey_string(HotkeyName::FullscreenScreenshot), None);
}

#[test]
fn non_ascii_key_names_are_registered() {
    let mut h = RegisteredHotkeys::new();
    assert_eq!(h.request_register("ctrl+\u{17f}".to_string(), HotkeyName::RectScreenshot), Ok(()));
    assert_eq!(h.get_hotkey_string(HotkeyName::RectScreenshot), Some("ctrl+\u{17f}".to_string()));
    assert_eq!(h.request_register("ctrl+\u{17f}hift".to_string(), HotkeyName::FullscreenScreenshot), Ok(()));
    assert_eq!(h.get_hotkey_string(HotkeyName::FullscreenScreenshot), None);
}

#[test]
fn listening_off_dispatches_nothing() {
    let mut h = RegisteredHotkeys::new();
    assert!(h.commands_for_event(1).is_empty());
    h.set_listen_enabled(false);
    assert!(h.commands_for_event(1).is_empty());
}

#[test]
fn editing_session_starts_from_saved() {
    let mut h = RegisteredHotkeys::new();
    assert_eq!(h.request_register("alt+KeyF".to_string(), HotkeyName::FullscreenScreenshot), Ok(()));
    h.prepare_for_updates();
    assert_eq!(h.get_hotkey_string(HotkeyName::FullscreenScreenshot), None);
    assert_eq!(h.serialize(), "\n\n");
    assert_eq!(h.saved_hotkey_ids(), vec![None, None]);
}

#[test]
fn events_name_their_commands() {
    let ids = vec![Some(7), Some(9)];
    assert_eq!(names_for_event(&ids, 9), vec![HotkeyName::RectScreenshot]);
    assert_eq!(names_for_event(&ids, 3), Vec::<HotkeyName>::new());
    let same = vec![Some(4), Some(4)];
    assert_eq!(
        names_for_event(&same, 4),
        vec![HotkeyName::FullscreenScreenshot, HotkeyName::RectScreenshot]
    );
}

#[test]
fn settings_rows_and_capture() {
    let mut s = HotkeysSettings::new();
    assert!(s.row_enabled(HotkeyName::FullscreenScreenshot));
    assert!(s.row_enabled(HotkeyName::RectScreenshot));
    s.on_set_clicked(HotkeyName::RectScreenshot);
    assert_eq!(s.state, HotkeySettingsState::Registering(HotkeyName::RectScreenshot));
    assert!(!s.row_enabled(HotkeyName::FullscreenScreenshot));
    assert!(s.row_enabled(HotkeyName::RectScreenshot));

    let mut h = RegisteredHotkeys::new();
    let good = KeyPress { with_modifier: true, repeat: false };
    let r = s.on_key_presses(&vec![good], "ctrl+KeyR".to_string(), &mut h);
    assert_eq!(r, None);
    assert_eq!(s.state, HotkeySettingsState::Idle);
    assert_eq!(h.get_hotkey_string(HotkeyName::RectScreenshot), Some("ctrl+KeyR".to_string()));

    s.on_set_clicked(HotkeyName::FullscreenScreenshot);
    let r = s.on_key_presses(&vec![good], "ctrl+KeyR".to_string(), &mut h);
    assert_eq!(r, Some("Hotkey already registered".to_string()));
    assert_eq!(s.state, HotkeySettingsState::Idle);

    s.on_set_clicked(HotkeyName::FullscreenScreenshot);
    let bare = KeyPress { with_modifier: false, repeat: false };
    let r = s.on_key_presses(&vec![bare], "KeyQ".to_string(), &mut h);
    assert_eq!(r, Some("Invalid shortcut. Please follow the instructions.".to_string()));
    assert_eq!(s.state, HotkeySettingsState::Idle);

    s.on_set_clicked(HotkeyName::FullscreenScreenshot);
    let r = s.on_key_presses(&vec![good, bare], "ctrl+KeyF".to_string(), &mut h);
    assert_eq!(r, None);
    assert_eq!(s.state, HotkeySettingsState::Idle);
    assert_eq!(h.get_hotkey_string(HotkeyName::FullscreenScreenshot), Some("ctrl+KeyF".to_string()));

    s.on_set_clicked(HotkeyName::FullscreenScreenshot);
    let r = s.on_key_presses(&vec![bare, good], "KeyQ".to_string(), &mut h);
    assert_eq!(r, Some("Invalid shortcut. Please follow the instructions.".to_string()));
    assert_eq!(h.get_hotkey_string(HotkeyName::FullscreenScreenshot), Some("ctrl+KeyF".to_string()));

    s.on_set_clicked(HotkeyName::FullscreenScreenshot);
    let r = s.on_key_presses(&vec![], "KeyQ".to_string(), &mut h);
    assert_eq!(r, None);
    assert_eq!(s.state, HotkeySettingsState::Registering(HotkeyName::FullscreenScreenshot));

    s.state = HotkeySettingsState::Idle;
    s.on_delete_clicked(HotkeyName::RectScreenshot, &mut h);
    assert_eq!(h.get_hotkey_string(HotkeyName::RectScreenshot), None);
    assert_eq!(s.on_abort_clicked(), SettingsEvent::Aborted);
}
