//! The main menu: the capture screen, or one of the two settings screens.

use vstd::prelude::*;
use crate::gui_state::Poll;
use crate::itc::SettingsEvent;
use crate::save_settings::{DefaultDir, DefaultName, SaveSettings};
use crate::hotkeys::RegisteredHotkeys;
use crate::hotkeys_settings::HotkeysSettings;

verus! {

/// What the main menu shows beside its menu button.
pub enum MainMenuState {
    CaptureMode,
    /// The save settings screen, editing a copy of the settings.
    SaveSettings(SaveSettings),
    /// Waiting for the hotkey draft to be prepared.
    LoadingHotkeysSettings,
    HotkeysSettings(HotkeysSettings),
}

/// The main menu of the application.
pub struct MainMenu {
    pub state: MainMenuState,
}

pub open spec fn same_settings(a: SaveSettings, b: SaveSettings) -> bool {
    &&& a.default_dir.enabled == b.default_dir.enabled
    &&& a.default_dir.path@ == b.default_dir.path@
    &&& a.default_name.enabled == b.default_name.enabled
    &&& a.default_name.mode == b.default_name.mode
    &&& a.default_name.name@ == b.default_name.name@
    &&& a.copy_on_clipboard == b.copy_on_clipboard
}

/// A copy of the settings, field by field.
pub fn copy_settings(s: &SaveSettings) -> (r: SaveSettings)
    ensures
        same_settings(r, *s),
{
    SaveSettings {
        default_dir: DefaultDir { enabled: s.default_dir.enabled, path: s.default_dir.path.clone() },
        default_name: DefaultName {
            enabled: s.default_name.enabled,
            mode: s.default_name.mode,
            name: s.default_name.name.clone(),
        },
        copy_on_clipboard: s.copy_on_clipboard,
    }
}

pub open spec fn loading_failed_text() -> Seq<char> {
    "Loading failed"@
}

impl MainMenu {
    /// The menu opens on the capture screen.
    pub fn new() -> (r: MainMenu)
        ensures
            r.state is CaptureMode,
    {
        MainMenu { state: MainMenuState::CaptureMode }
    }

    /// Shows the capture screen; returns whether it has to be built anew (it
    /// is kept when already shown).
    pub fn switch_to_main_window(&mut self) -> (r: bool)
        ensures
            final(self).state is CaptureMode,
            r == !(old(self).state is CaptureMode),
    {
        match self.state {
            MainMenuState::CaptureMode => false,
            _ => {
                self.state = MainMenuState::CaptureMode;
                true
            },
        }
    }

    /// Shows the save settings screen on a copy of `current`, unless it is
    /// already shown (then the copy being edited is kept).
    pub fn switch_to_save_settings(&mut self, current: &SaveSettings)
        ensures
            old(self).state is SaveSettings ==> final(self).state == old(self).state,
            !(old(self).state is SaveSettings) ==> (final(self).state matches MainMenuState::SaveSettings(s)
                && same_settings(s, *current)),
    {
        match self.state {
            MainMenuState::SaveSettings(..) => {},
            _ => {
                self.state = MainMenuState::SaveSettings(copy_settings(current));
            },
        }
    }

    /// What the save settings screen reported: "Saved" makes the edited copy
    /// the settings of the application and "Aborted" drops it, both going back
    /// to the capture screen; any other event changes nothing here.
    pub fn on_save_settings_event(&mut self, ev: SettingsEvent, global: &mut SaveSettings)
        requires
            old(self).state is SaveSettings,
        ensures
            ev == SettingsEvent::Saved ==> final(self).state is CaptureMode && same_settings(
                *final(global),
                old(self).state->SaveSettings_0,
            ),
            ev == SettingsEvent::Aborted ==> final(self).state is CaptureMode && *final(global) == *old(global),
            ev != SettingsEvent::Saved && ev != SettingsEvent::Aborted ==> final(self).state == old(self).state && *final(global) == *old(global),
    {
        match ev {
            SettingsEvent::Saved => {
                match &self.state {
                    MainMenuState::SaveSettings(ss) => {
                        *global = copy_settings(ss);
                    },
                    _ => {},
                }
                self.switch_to_main_window();
            },
            SettingsEvent::Aborted => {
                self.switch_to_main_window();
            },
            _ => {},
        }
    }

    /// Shows the hotkey settings, unless they are shown or loading: the draft
    /// is prepared from the saved hotkeys and the screen waits for it.
    pub fn switch_to_hotkeys_settings(&mut self, hotkeys: &mut RegisteredHotkeys)
        requires
            old(hotkeys).wf(),
        ensures
            final(hotkeys).wf(),
            (old(self).state is HotkeysSettings || old(self).state is LoadingHotkeysSettings) ==> final(self).state == old(self).state && final(hotkeys)@ == old(hotkeys)@,
            !(old(self).state is HotkeysSettings || old(self).state is LoadingHotkeysSettings) ==> final(self).state is LoadingHotkeysSettings && final(hotkeys)@.draft == old(hotkeys)@.saved
                && final(hotkeys)@.saved == old(hotkeys)@.saved && final(hotkeys)@.listen_enabled == old(hotkeys)@.listen_enabled,
    {
        match self.state {
            MainMenuState::HotkeysSettings(..) | MainMenuState::LoadingHotkeysSettings => {},
            _ => {
                hotkeys.prepare_for_updates();
                self.state = MainMenuState::LoadingHotkeysSettings;
            },
        }
    }

    /// A poll of the preparation of the hotkey draft: once done the hotkey
    /// settings screen opens; a lost worker returns the alert "Loading failed";
    /// while waiting, a spinner is shown (returns true).
    pub fn on_hotkeys_loaded_poll(&mut self, poll: Poll<()>) -> (r: (Option<&'static str>, bool))
        requires
            old(self).state is LoadingHotkeysSettings,
        ensures
            match poll {
                Poll::Received(()) => final(self).state is HotkeysSettings && r.0 is None && !r.1,
                Poll::Disconnected => final(self).state == old(self).state && (r.0 matches Some(m)
                    && m@ == loading_failed_text()) && !r.1,
                Poll::Empty => final(self).state == old(self).state && r.0 is None && r.1,
            },
    {
        match poll {
            Poll::Received(()) => {
                self.state = MainMenuState::HotkeysSettings(HotkeysSettings::new());
                (None, false)
            },
            Poll::Disconnected => (Some("Loading failed"), false),
            Poll::Empty => (None, true),
        }
    }

    /// What the hotkey settings screen reported: "Saved" or "Aborted" go back
    /// to the capture screen.
    pub fn on_hotkeys_settings_event(&mut self, ev: SettingsEvent)
        requires
            old(self).state is HotkeysSettings,
        ensures
            (ev == SettingsEvent::Saved || ev == SettingsEvent::Aborted) ==> final(self).state is CaptureMode,
            !(ev == SettingsEvent::Saved || ev == SettingsEvent::Aborted) ==> final(self).state == old(self).state,
    {
        match ev {
            SettingsEvent::Saved | SettingsEvent::Aborted => {
                self.switch_to_main_window();
            },
            _ => {},
        }
    }
}

} // verus!
