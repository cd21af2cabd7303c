//! The hotkey settings screen: one row per command, with buttons to set or
//! delete its hotkey, and buttons to save or abort the changes.

use vstd::prelude::*;
use global_hotkey::GlobalHotKeyManager;
use crate::hotkey_config::config_text;
use crate::hotkeys::{
    already_registered_text, commit_outcome, hotkey_accepted, name_index, result_text, HotkeyName,
    RegisteredHotkeys,
};
use crate::itc::SettingsEvent;

verus! {

/// Whether a hotkey is being captured, and for which command.
#[derive(Debug, Clone, Copy, PartialEq, Eq, Structural)]
pub enum HotkeySettingsState {
    Idle,
    Registering(HotkeyName),
}

/// A key press seen while a hotkey is captured.
#[derive(Debug, Clone, Copy, PartialEq, Eq, Structural)]
pub struct KeyPress {
    /// At least one modifier key was held.
    pub with_modifier: bool,
    /// The press is an auto-repeat.
    pub repeat: bool,
}

/// A key press makes a hotkey when a modifier is held and it is not an
/// auto-repeat.
pub open spec fn is_valid_press(k: KeyPress) -> bool {
    k.with_modifier && !k.repeat
}

pub open spec fn invalid_shortcut_text() -> Seq<char> {
    "Invalid shortcut. Please follow the instructions."@
}

/// What a frame of the hotkey settings screen ends with.
pub struct SettingsOutcome {
    pub event: SettingsEvent,
    /// Message to show in the alert window.
    pub alert: Option<String>,
    /// Configuration text to write to the hotkey file.
    pub config: Option<String>,
}

/// The hotkey settings screen.
pub struct HotkeysSettings {
    pub state: HotkeySettingsState,
}

impl HotkeysSettings {
    /// Nothing is being captured.
    pub fn new() -> (r: HotkeysSettings)
        ensures
            r.state == HotkeySettingsState::Idle,
    {
        HotkeysSettings { state: HotkeySettingsState::Idle }
    }

    /// The row of `name` accepts clicks when nothing is captured or when its
    /// own hotkey is.
    pub fn row_enabled(&self, name: HotkeyName) -> (r: bool)
        ensures
            r == (self.state == HotkeySettingsState::Idle || self.state
                == HotkeySettingsState::Registering(name)),
    {
        match self.state {
            HotkeySettingsState::Idle => true,
            HotkeySettingsState::Registering(n) => n == name,
        }
    }

    /// "Set hotkey" of a row: the next key presses are captured for `name`.
    pub fn on_set_clicked(&mut self, name: HotkeyName)
        ensures
            final(self).state == HotkeySettingsState::Registering(name),
    {
        self.state = HotkeySettingsState::Registering(name);
    }

    /// "Delete hotkey" of a row: the hotkey of `name` leaves the draft.
    pub fn on_delete_clicked(&mut self, name: HotkeyName, hotkeys: &mut RegisteredHotkeys)
        requires
            old(hotkeys).wf(),
        ensures
            final(self).state == old(self).state,
            final(hotkeys).wf(),
            final(hotkeys)@.saved == old(hotkeys)@.saved,
            final(hotkeys)@.listen_enabled == old(hotkeys)@.listen_enabled,
            final(hotkeys)@.draft == old(hotkeys)@.draft.update(name_index(name), None),
    {
        hotkeys.request_unregister(name);
    }

    /// The key presses of a frame while a hotkey is captured: the first one
    /// ends the capture, and the later ones of the frame are ignored. An
    /// invalid first press gives an alert; a valid one has its shortcut
    /// (`shortcut`, the modifiers and key as the window writes them)
    /// requested for the command, a refusal coming back as an alert. A frame
    /// without key presses leaves everything as it was.
    pub fn on_key_presses(
        &mut self,
        keys: &Vec<KeyPress>,
        shortcut: String,
        hotkeys: &mut RegisteredHotkeys,
    ) -> (r: Option<String>)
        requires
            old(hotkeys).wf(),
            old(self).state is Registering,
        ensures
            final(hotkeys).wf(),
            final(hotkeys)@.saved == old(hotkeys)@.saved,
            final(hotkeys)@.listen_enabled == old(hotkeys)@.listen_enabled,
            keys@.len() == 0 ==> final(self).state == old(self).state && final(hotkeys)@.draft == old(hotkeys)@.draft
                && r is None,
            keys@.len() > 0 ==> final(self).state == HotkeySettingsState::Idle,
            keys@.len() > 0 && !is_valid_press(keys@[0]) ==> final(hotkeys)@.draft == old(hotkeys)@.draft
                && (r matches Some(m) && m@ == invalid_shortcut_text()),
            keys@.len() > 0 && is_valid_press(keys@[0]) && old(hotkeys)@.draft.contains(Some(shortcut@))
                ==> final(hotkeys)@.draft == old(hotkeys)@.draft && (r matches Some(m) && m@
                == already_registered_text()),
            keys@.len() > 0 && is_valid_press(keys@[0]) && !old(hotkeys)@.draft.contains(Some(shortcut@))
                ==> r is None && final(hotkeys)@.draft == if hotkey_accepted(shortcut@) {
                old(hotkeys)@.draft.update(name_index(old(self).state->Registering_0), Some(shortcut@))
            } else {
                old(hotkeys)@.draft
            },
    {
        let name = match self.state {
            HotkeySettingsState::Registering(n) => n,
            HotkeySettingsState::Idle => HotkeyName::FullscreenScreenshot,
        };
        if keys.len() == 0 {
            return None;
        }
        let first = keys[0];
        self.state = HotkeySettingsState::Idle;
        if !(first.with_modifier && !first.repeat) {
            proof {
                reveal_strlit("Invalid shortcut. Please follow the instructions.");
            }
            return Some(String::from_str("Invalid shortcut. Please follow the instructions."));
        }
        match hotkeys.request_register(shortcut, name) {
            Ok(()) => None,
            Err(e) => Some(String::from_str(e)),
        }
    }

    /// "Save": the draft is committed; on success the screen reports "Saved"
    /// with the configuration text to write, on failure the message becomes
    /// an alert. While a shortcut is being captured the button is not
    /// offered, and a click does nothing.
    pub fn on_save_clicked(&mut self, hotkeys: &mut RegisteredHotkeys, manager: &GlobalHotKeyManager) -> (r:
        SettingsOutcome)
        requires
            old(hotkeys).wf(),
        ensures
            final(self).state == old(self).state,
            final(hotkeys).wf(),
            final(hotkeys)@.draft == old(hotkeys)@.draft,
            old(self).state is Registering ==> r.event == SettingsEvent::Nil && r.alert is None
                && r.config is None && final(hotkeys)@ == old(hotkeys)@,
            old(self).state is Idle ==> exists|res: Result<(), Seq<char>>|
                #[trigger] commit_outcome(old(hotkeys)@.saved, old(hotkeys)@.draft, final(hotkeys)@.saved, res)
                    && (res is Ok ==> r.event == SettingsEvent::Saved && r.alert is None && (r.config matches Some(
                    c) && c@ == config_text(final(hotkeys)@.saved))) && (res matches Err(m) ==> r.event
                    == SettingsEvent::Nil && (r.alert matches Some(a) && a@ == m) && r.config is None),
    {
        if let HotkeySettingsState::Registering(_) = self.state {
            return SettingsOutcome { event: SettingsEvent::Nil, alert: None, config: None };
        }
        let res = hotkeys.update_changes(manager);
        let ghost rt = result_text(res);
        match res {
            Ok(()) => {
                let c = hotkeys.serialize();
                SettingsOutcome { event: SettingsEvent::Saved, alert: None, config: Some(c) }
            },
            Err(e) => {
                SettingsOutcome { event: SettingsEvent::Nil, alert: Some(e), config: None }
            },
        }
    }

    /// "Abort": the screen reports "Aborted"; the draft is dropped the next
    /// time the screen is prepared.
    pub fn on_abort_clicked(&self) -> (r: SettingsEvent)
        ensures
            r == SettingsEvent::Aborted,
    {
        SettingsEvent::Aborted
    }
}

} // verus!
