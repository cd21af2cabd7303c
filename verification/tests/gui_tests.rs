use screen_grabber::capture_mode::{screen_entry_label, selected_screen_label, CaptureMode};
use screen_grabber::file_dialog::Demo;
use screen_grabber::gui_state::{FramePlan, GlobalGuiState, GuiAction, GuiPhase, Poll};
use screen_grabber::hotkeys::{HotkeyName, RegisteredHotkeys};
use screen_grabber::itc::{ScreenshotDim, SettingsEvent};
use screen_grabber::menu::{MainMenu, MainMenuState};
use screen_grabber::save_settings::SaveSettings;
use screen_grabber::screens_manager::{ScreenInfo, ScreensManager};

fn screen(id: u32, is_primary: bool) -> ScreenInfo {
    ScreenInfo { id, is_primary, width: 1920, height: 1080 }
}

#[test]
fn fullscreen_screenshot_round() {
    let mut g = GlobalGuiState::new();
    assert!(g.main_window_enabled());
    assert_eq!(g.on_screenshot_request(ScreenshotDim::Fullscreen), GuiAction::StartDelay);
    assert_eq!(g.phase, GuiPhase::WaitingForDelay(ScreenshotDim::Fullscreen));
    assert_eq!(g.on_delay_elapsed(true), GuiAction::CaptureForEditing);
    assert_eq!(g.phase, GuiPhase::LoadingEditImage);
    assert_eq!(g.on_edit_capture_poll(Poll::Empty, true), GuiAction::ShowLoading);
    assert_eq!(
        g.on_edit_capture_poll(Poll::Received(Ok(())), true),
        GuiAction::OpenEditImage { copy_to_clipboard: true }
    );
    assert_eq!(g.phase, GuiPhase::EditImage);
    assert!(g.clipboard_busy);
    assert_eq!(g.on_save_requested(), GuiAction::ComposeOutputPath);
    assert!(g.pending_save_request);
    assert!(!g.main_window_enabled());
    assert_eq!(g.on_output_path_poll(Poll::Received(true)), GuiAction::StartSaving);
    assert_eq!(g.phase, GuiPhase::Saving);
    assert_eq!(g.on_saving_poll(Poll::Empty), GuiAction::ShowLoading);
    assert_eq!(
        g.on_saving_poll(Poll::Received(Ok("/tmp/a.Png".to_string()))),
        GuiAction::ShowMainMenu
    );
    assert_eq!(g.phase, GuiPhase::MainMenu);
    assert_eq!(g.alert, Some("Image saved: \n\n/tmp/a.Png".to_string()));
    g.dismiss_alert();
    assert_eq!(g.alert, None);
}

#[test]
fn rectangle_screenshot_round() {
    let mut g = GlobalGuiState::new();
    g.on_screenshot_request(ScreenshotDim::Rectangle);
    assert_eq!(g.on_delay_elapsed(true), GuiAction::CaptureForSelection);
    assert_eq!(g.phase, GuiPhase::LoadingRectSelection);
    assert_eq!(g.on_selection_capture_poll(Poll::Empty), GuiAction::KeepHidden);
    assert_eq!(g.on_selection_capture_poll(Poll::Received(Ok(()))), GuiAction::OpenRectSelection);
    assert_eq!(g.phase, GuiPhase::RectSelection);
    assert_eq!(g.on_area_selected(), GuiAction::CropSelection);
    assert_eq!(g.phase, GuiPhase::LoadingEditImage);
}

#[test]
fn failures_lead_back_with_alerts() {
    let mut g = GlobalGuiState::new();
    g.on_screenshot_request(ScreenshotDim::Fullscreen);
    assert_eq!(g.on_delay_elapsed(false), GuiAction::ShowMainMenu);
    assert_eq!(g.alert, Some("Timer error".to_string()));

    let mut g = GlobalGuiState::new();
    g.on_hotkey(HotkeyName::RectScreenshot);
    assert_eq!(g.on_selection_capture_poll(Poll::Received(Err(()))), GuiAction::RevealFullscreen);
    assert_eq!(g.alert, Some("An error occurred. Impossible to continue.".to_string()));

    let mut g = GlobalGuiState::new();
    assert_eq!(g.on_hotkey(HotkeyName::FullscreenScreenshot), GuiAction::CaptureForEditing);
    assert_eq!(g.on_edit_capture_poll(Poll::Disconnected, false), GuiAction::ShowMainMenu);
    assert_eq!(g.phase, GuiPhase::MainMenu);

    let mut g = GlobalGuiState::new();
    g.on_hotkey(HotkeyName::FullscreenScreenshot);
    g.on_edit_capture_poll(Poll::Received(Ok(())), false);
    assert!(!g.clipboard_busy);
    g.on_save_requested();
    assert_eq!(g.on_output_path_poll(Poll::Disconnected), GuiAction::Nothing);
    assert_eq!(g.alert, Some("Error: image not saved".to_string()));
    assert!(!g.pending_save_request);
}

#[test]
fn cancelled_path_and_abort() {
    let mut g = GlobalGuiState::new();
    g.on_hotkey(HotkeyName::FullscreenScreenshot);
    g.on_edit_capture_poll(Poll::Received(Ok(())), false);
    g.on_save_requested();
    assert_eq!(g.on_output_path_poll(Poll::Received(false)), GuiAction::Nothing);
    assert_eq!(g.phase, GuiPhase::EditImage);
    assert!(!g.pending_save_request);
    assert_eq!(g.on_edit_aborted(), GuiAction::ShowMainMenu);
    assert_eq!(g.phase, GuiPhase::MainMenu);
}

#[test]
fn clipboard_and_hotkey_listener() {
    let mut g = GlobalGuiState::new();
    assert!(g.start_hotkey_listener());
    assert!(!g.start_hotkey_listener());
    g.on_hotkey_channel_closed();
    assert_eq!(g.alert, Some("Error in hotkeys. Temporarily unavailable".to_string()));
    assert!(g.start_hotkey_listener());

    let mut g = GlobalGuiState::new();
    g.on_hotkey(HotkeyName::FullscreenScreenshot);
    g.on_edit_capture_poll(Poll::Received(Ok(())), true);
    g.on_clipboard_poll(Poll::Empty);
    assert!(g.clipboard_busy);
    g.on_clipboard_poll(Poll::Received(Err("busy".to_string())));
    assert!(!g.clipboard_busy);
    assert_eq!(
        g.alert,
        Some("Error: impossible to copy the image on the clipboard (busy)".to_string())
    );
}

#[test]
fn directory_dialog() {
    let mut g = GlobalGuiState::new();
    assert_eq!(g.on_directory_dialog_request(), GuiAction::StartDirectoryDialog);
    assert!(!g.main_window_enabled());
    g.on_directory_dialog_poll(false);
    assert!(g.directory_dialog_open);
    g.on_directory_dialog_poll(true);
    assert!(!g.directory_dialog_open);
}

#[test]
fn main_menu_screens() {
    let mut m = MainMenu::new();
    assert!(matches!(m.state, MainMenuState::CaptureMode));
    assert!(!m.switch_to_main_window());
    let mut global = SaveSettings::new();
    m.switch_to_save_settings(&global);
    match &mut m.state {
        MainMenuState::SaveSettings(s) => s.copy_on_clipboard = false,
        _ => panic!("save settings expected"),
    }
    m.on_save_settings_event(SettingsEvent::Nil, &mut global);
    assert!(global.copy_on_clipboard);
    m.on_save_settings_event(SettingsEvent::Saved, &mut global);
    assert!(!global.copy_on_clipboard);
    assert!(matches!(m.state, MainMenuState::CaptureMode));

    m.switch_to_save_settings(&global);
    match &mut m.state {
        MainMenuState::SaveSettings(s) => s.copy_on_clipboard = true,
        _ => panic!("save settings expected"),
    }
    m.on_save_settings_event(SettingsEvent::Aborted, &mut global);
    assert!(!global.copy_on_clipboard);

    let mut hk = RegisteredHotkeys::new();
    m.switch_to_hotkeys_settings(&mut hk);
    assert!(matches!(m.state, MainMenuState::LoadingHotkeysSettings));
    assert_eq!(m.on_hotkeys_loaded_poll(Poll::Empty), (None, true));
    assert_eq!(m.on_hotkeys_loaded_poll(Poll::Disconnected), (Some("Loading failed"), false));
    assert_eq!(m.on_hotkeys_loaded_poll(Poll::Received(())), (None, false));
    assert!(matches!(m.state, MainMenuState::HotkeysSettings(..)));
    m.on_hotkeys_settings_event(SettingsEvent::Nil);
    assert!(matches!(m.state, MainMenuState::HotkeysSettings(..)));
    m.on_hotkeys_settings_event(SettingsEvent::Aborted);
    assert!(matches!(m.state, MainMenuState::CaptureMode));
}

#[test]
fn screens_selection() {
    let mut sm = ScreensManager::new(100);
    assert_eq!(sm.get_current_screen_infos(), None);
    sm.update_available_screens(vec![screen(1, false), screen(2, true)]);
    assert_eq!(sm.get_screens().len(), 2);
    assert_eq!(sm.get_current_screen_index(), 0);
    sm.select_primary_screen();
    assert_eq!(sm.get_current_screen_index(), 1);
    sm.select_screen(0);
    assert_eq!(sm.get_current_screen_index(), 0);
    sm.select_screen(5);
    assert_eq!(sm.get_current_screen_index(), 0);
    sm.update_available_screens(vec![screen(3, false), screen(2, true), screen(1, false)]);
    assert_eq!(sm.get_current_screen_index(), 2);
    assert_eq!(sm.get_current_screen_infos(), Some(screen(1, false)));
    sm.update_available_screens(vec![screen(4, false), screen(2, true)]);
    assert_eq!(sm.get_current_screen_index(), 1);
    assert_eq!(sm.icon_height(1920, 1080), 56);
}

#[test]
fn capture_mode_panel() {
    assert_eq!(screen_entry_label(0, 1920, 1080), "1 (1920x1080)");
    assert_eq!(screen_entry_label(11, 800, 600), "12 (800x600)");
    assert_eq!(selected_screen_label(0), "1");
    let mut c = CaptureMode::new();
    assert_eq!(c.acquire(false), None);
    assert_eq!(c.acquire(true), Some(ScreenshotDim::Fullscreen));
    c.area = ScreenshotDim::Rectangle;
    assert_eq!(c.acquire(true), Some(ScreenshotDim::Rectangle));
    let _demo = Demo::default();
}

#[test]
fn frame_plans() {
    let mut g = GlobalGuiState::new();
    assert_eq!(
        g.frame_plan(true),
        FramePlan { dispatch_hotkeys: true, show_alert: false, wait_output_path: false, wait_directory_dialog: false }
    );
    g.alert = Some("x".to_string());
    g.directory_dialog_open = true;
    assert_eq!(
        g.frame_plan(false),
        FramePlan { dispatch_hotkeys: false, show_alert: true, wait_output_path: false, wait_directory_dialog: true }
    );
    g.pending_save_request = true;
    assert_eq!(
        g.frame_plan(false),
        FramePlan { dispatch_hotkeys: false, show_alert: true, wait_output_path: true, wait_directory_dialog: false }
    );
}

#[test]
fn detected_screens_start_on_the_primary() {
    let sm = ScreensManager::from_detected(150, vec![screen(5, false), screen(6, false), screen(7, true)]);
    assert_eq!(sm.get_current_screen_index(), 2);
    assert_eq!(sm.get_screens().len(), 3);
    let none = ScreensManager::from_detected(150, vec![screen(5, false), screen(6, false)]);
    assert_eq!(none.get_current_screen_index(), 0);
    let empty = ScreensManager::from_detected(150, vec![]);
    assert_eq!(empty.get_current_screen_infos(), None);
}
