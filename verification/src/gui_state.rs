//! The state machine that drives the application window. The window itself,
//! the worker threads and their channels live outside this module; each
//! method here takes what a frame observed (the result of polling a channel,
//! the event a screen reported) and returns the next state and what the
//! window has to do.

use vstd::prelude::*;
use crate::hotkeys::HotkeyName;
use crate::itc::ScreenshotDim;

verus! {

/// The screen the application shows, or what it waits for.
#[derive(Debug, Clone, Copy, PartialEq, Eq, Structural)]
pub enum GuiPhase {
    MainMenu,
    /// Hidden, waiting for the delay before a screenshot of the given area.
    WaitingForDelay(ScreenshotDim),
    /// Taking the screenshot in which an area will be selected.
    LoadingRectSelection,
    RectSelection,
    /// Taking or cropping the screenshot that will be edited.
    LoadingEditImage,
    EditImage,
    Saving,
}

/// What a poll of a worker's channel found.
pub enum Poll<T> {
    Received(T),
    Empty,
    Disconnected,
}

/// What the window has to do after a transition.
#[derive(Debug, Clone, Copy, PartialEq, Eq, Structural)]
pub enum GuiAction {
    Nothing,
    /// Restore the window and show a fresh main menu.
    ShowMainMenu,
    /// Hide the window and start the timer of the requested delay.
    StartDelay,
    /// Start taking a full-screen screenshot for the area selection.
    CaptureForSelection,
    /// Hide the window and start taking a full-screen screenshot to edit.
    CaptureForEditing,
    /// Start cropping the selected area out of the screenshot.
    CropSelection,
    /// Keep the window hidden while the screenshot is taken.
    KeepHidden,
    /// Show the window full screen with the screenshot to select an area in.
    OpenRectSelection,
    /// Show the window again, full screen, after a failed screenshot.
    RevealFullscreen,
    /// Show the image editor (and start copying the image to the clipboard
    /// when the settings ask for it).
    OpenEditImage { copy_to_clipboard: bool },
    /// Show a spinner.
    ShowLoading,
    /// Start working out the output path of the edited image.
    ComposeOutputPath,
    /// Start writing the image to the chosen path.
    StartSaving,
    /// Start the directory dialog.
    StartDirectoryDialog,
}

pub open spec fn timer_error_text() -> Seq<char> { "Timer error"@ }
pub open spec fn capture_error_text() -> Seq<char> { "An error occurred. Impossible to continue."@ }
pub open spec fn service_error_text() -> Seq<char> {
    "An error occurred when trying to start the service. Please retry."@
}
pub open spec fn load_error_text() -> Seq<char> { "Unable to load the image. please retry"@ }
pub open spec fn not_saved_text() -> Seq<char> { "Error: image not saved"@ }
pub open spec fn saved_text(path: Seq<char>) -> Seq<char> { "Image saved: \n\n"@ + path }
pub open spec fn clipboard_error_text() -> Seq<char> {
    "Error: impossible to copy the image on the clipboard"@
}
pub open spec fn clipboard_error_detail_text(detail: Seq<char>) -> Seq<char> {
    "Error: impossible to copy the image on the clipboard ("@ + detail + ")"@
}
pub open spec fn hotkeys_error_text() -> Seq<char> { "Error in hotkeys. Temporarily unavailable"@ }

pub open spec fn alert_text(a: Option<String>) -> Option<Seq<char>> {
    match a {
        Some(s) => Some(s@),
        None => None,
    }
}

/// What the end of a frame does, once the current screen has run.
#[derive(Debug, Clone, Copy, PartialEq, Eq, Structural)]
pub struct FramePlan {
    /// Look for a hotkey press and react to it.
    pub dispatch_hotkeys: bool,
    /// Show the alert window.
    pub show_alert: bool,
    /// Poll the worker that works out the output path.
    pub wait_output_path: bool,
    /// Poll the directory dialog.
    pub wait_directory_dialog: bool,
}

/// The state of the application window that the decisions read.
pub struct GlobalGuiState {
    pub phase: GuiPhase,
    /// The message shown in the alert window, if any.
    pub alert: Option<String>,
    /// An output path is being worked out for an image to save.
    pub pending_save_request: bool,
    /// The directory dialog is open.
    pub directory_dialog_open: bool,
    /// An image is being copied to the clipboard.
    pub clipboard_busy: bool,
    /// The thread that listens to hotkeys has been started.
    pub hotkey_listener: bool,
}

impl GlobalGuiState {
    /// The main window accepts input only when no alert is shown and no save
    /// request or directory dialog is pending.
    pub open spec fn main_window_enabled_spec(&self) -> bool {
        self.alert is None && !self.pending_save_request && !self.directory_dialog_open
    }

    /// The state at start-up: main menu, nothing pending.
    pub fn new() -> (r: GlobalGuiState)
        ensures
            r.phase == GuiPhase::MainMenu,
            r.alert is None,
            !r.pending_save_request,
            !r.directory_dialog_open,
            !r.clipboard_busy,
            !r.hotkey_listener,
    {
        GlobalGuiState {
            phase: GuiPhase::MainMenu,
            alert: None,
            pending_save_request: false,
            directory_dialog_open: false,
            clipboard_busy: false,
            hotkey_listener: false,
        }
    }

    /// Whether the main window accepts input in this frame.
    pub fn main_window_enabled(&self) -> (r: bool)
        ensures
            r == self.main_window_enabled_spec(),
    {
        self.alert.is_none() && !self.pending_save_request && !self.directory_dialog_open
    }

    /// The end of a frame, given whether the main window accepted input when
    /// the frame began: then hotkeys are dispatched; otherwise the alert, if
    /// any, is shown, and a pending save request is waited for, or else an
    /// open directory dialog.
    pub fn frame_plan(&self, enabled_at_start: bool) -> (r: FramePlan)
        ensures
            r.dispatch_hotkeys == enabled_at_start,
            r.show_alert == (!enabled_at_start && self.alert is Some),
            r.wait_output_path == (!enabled_at_start && self.pending_save_request),
            r.wait_directory_dialog == (!enabled_at_start && !self.pending_save_request
                && self.directory_dialog_open),
    {
        if enabled_at_start {
            FramePlan {
                dispatch_hotkeys: true,
                show_alert: false,
                wait_output_path: false,
                wait_directory_dialog: false,
            }
        } else {
            FramePlan {
                dispatch_hotkeys: false,
                show_alert: self.alert.is_some(),
                wait_output_path: self.pending_save_request,
                wait_directory_dialog: !self.pending_save_request && self.directory_dialog_open,
            }
        }
    }

    /// Whether the hotkey listener must be started in this frame (it is
    /// started once); afterwards it counts as started.
    pub fn start_hotkey_listener(&mut self) -> (r: bool)
        ensures
            r == !old(self).hotkey_listener,
            final(self).hotkey_listener,
            final(self).phase == old(self).phase,
            final(self).alert == old(self).alert,
            final(self).pending_save_request == old(self).pending_save_request,
            final(self).directory_dialog_open == old(self).directory_dialog_open,
            final(self).clipboard_busy == old(self).clipboard_busy,
    {
        let r = !self.hotkey_listener;
        self.hotkey_listener = true;
        r
    }

    fn raise(&mut self, msg: &str)
        ensures
            alert_text(final(self).alert) == Some(msg@),
            final(self).phase == old(self).phase,
            final(self).pending_save_request == old(self).pending_save_request,
            final(self).directory_dialog_open == old(self).directory_dialog_open,
            final(self).clipboard_busy == old(self).clipboard_busy,
            final(self).hotkey_listener == old(self).hotkey_listener,
    {
        self.alert = Some(String::from_str(msg));
    }

    /// Closes the alert window.
    pub fn dismiss_alert(&mut self)
        ensures
            final(self).alert is None,
            final(self).phase == old(self).phase,
            final(self).pending_save_request == old(self).pending_save_request,
            final(self).directory_dialog_open == old(self).directory_dialog_open,
            final(self).clipboard_busy == old(self).clipboard_busy,
            final(self).hotkey_listener == old(self).hotkey_listener,
    {
        self.alert = None;
    }

    /// Goes back to the main menu.
    fn switch_to_main_menu(&mut self) -> (r: GuiAction)
        ensures
            r == GuiAction::ShowMainMenu,
            final(self).phase == GuiPhase::MainMenu,
            final(self).alert == old(self).alert,
            final(self).pending_save_request == old(self).pending_save_request,
            final(self).directory_dialog_open == old(self).directory_dialog_open,
            final(self).clipboard_busy == old(self).clipboard_busy,
            final(self).hotkey_listener == old(self).hotkey_listener,
    {
        self.phase = GuiPhase::MainMenu;
        GuiAction::ShowMainMenu
    }

    /// The main menu asked for a screenshot of `area`: the window hides and
    /// waits for the delay.
    pub fn on_screenshot_request(&mut self, area: ScreenshotDim) -> (r: GuiAction)
        ensures
            r == GuiAction::StartDelay,
            final(self).phase == GuiPhase::WaitingForDelay(area),
            final(self).alert == old(self).alert,
            final(self).pending_save_request == old(self).pending_save_request,
            final(self).directory_dialog_open == old(self).directory_dialog_open,
            final(self).clipboard_busy == old(self).clipboard_busy,
            final(self).hotkey_listener == old(self).hotkey_listener,
    {
        self.phase = GuiPhase::WaitingForDelay(area);
        GuiAction::StartDelay
    }

    /// The main menu asked for the directory dialog.
    pub fn on_directory_dialog_request(&mut self) -> (r: GuiAction)
        ensures
            r == GuiAction::StartDirectoryDialog,
            final(self).directory_dialog_open,
            final(self).phase == old(self).phase,
            final(self).alert == old(self).alert,
            final(self).pending_save_request == old(self).pending_save_request,
            final(self).clipboard_busy == old(self).clipboard_busy,
            final(self).hotkey_listener == old(self).hotkey_listener,
    {
        self.directory_dialog_open = true;
        GuiAction::StartDirectoryDialog
    }

    /// A poll of the directory dialog: once it has answered (or its worker is
    /// gone), the dialog counts as closed.
    pub fn on_directory_dialog_poll(&mut self, answered: bool) -> (r: GuiAction)
        ensures
            r == GuiAction::Nothing,
            final(self).directory_dialog_open == (old(self).directory_dialog_open && !answered),
            final(self).phase == old(self).phase,
            final(self).alert == old(self).alert,
            final(self).pending_save_request == old(self).pending_save_request,
            final(self).clipboard_busy == old(self).clipboard_busy,
            final(self).hotkey_listener == old(self).hotkey_listener,
    {
        if answered {
            self.directory_dialog_open = false;
        }
        GuiAction::Nothing
    }

    /// Starts the screenshot in which an area will be selected.
    fn switch_to_rect_selection(&mut self) -> (r: GuiAction)
        ensures
            r == GuiAction::CaptureForSelection,
            final(self).phase == GuiPhase::LoadingRectSelection,
            final(self).alert == old(self).alert,
            final(self).pending_save_request == old(self).pending_save_request,
            final(self).directory_dialog_open == old(self).directory_dialog_open,
            final(self).clipboard_busy == old(self).clipboard_busy,
            final(self).hotkey_listener == old(self).hotkey_listener,
    {
        self.phase = GuiPhase::LoadingRectSelection;
        GuiAction::CaptureForSelection
    }

    /// Starts the screenshot (full screen, or cropped out of a selection) that
    /// will be edited.
    fn switch_to_edit_image(&mut self, selected: bool) -> (r: GuiAction)
        ensures
            r == if selected { GuiAction::CropSelection } else { GuiAction::CaptureForEditing },
            final(self).phase == GuiPhase::LoadingEditImage,
            final(self).alert == old(self).alert,
            final(self).pending_save_request == old(self).pending_save_request,
            final(self).directory_dialog_open == old(self).directory_dialog_open,
            final(self).clipboard_busy == old(self).clipboard_busy,
            final(self).hotkey_listener == old(self).hotkey_listener,
    {
        self.phase = GuiPhase::LoadingEditImage;
        if selected {
            GuiAction::CropSelection
        } else {
            GuiAction::CaptureForEditing
        }
    }

    /// The delay before a screenshot is over (`timer_ok` is false when the
    /// timer thread failed): a full-screen screenshot goes to the editor, a
    /// rectangle to the area selection; a failed timer ends in the main menu
    /// with "Timer error".
    pub fn on_delay_elapsed(&mut self, timer_ok: bool) -> (r: GuiAction)
        requires
            old(self).phase is WaitingForDelay,
        ensures
            timer_ok && old(self).phase == GuiPhase::WaitingForDelay(ScreenshotDim::Fullscreen) ==> r
                == GuiAction::CaptureForEditing && final(self).phase == GuiPhase::LoadingEditImage
                && final(self).alert == old(self).alert,
            timer_ok && old(self).phase == GuiPhase::WaitingForDelay(ScreenshotDim::Rectangle) ==> r
                == GuiAction::CaptureForSelection && final(self).phase == GuiPhase::LoadingRectSelection
                && final(self).alert == old(self).alert,
            !timer_ok ==> r == GuiAction::ShowMainMenu && final(self).phase == GuiPhase::MainMenu
                && alert_text(final(self).alert) == Some(timer_error_text()),
            final(self).pending_save_request == old(self).pending_save_request,
            final(self).directory_dialog_open == old(self).directory_dialog_open,
            final(self).clipboard_busy == old(self).clipboard_busy,
            final(self).hotkey_listener == old(self).hotkey_listener,
    {
        if timer_ok {
            match self.phase {
                GuiPhase::WaitingForDelay(ScreenshotDim::Fullscreen) => self.switch_to_edit_image(false),
                _ => self.switch_to_rect_selection(),
            }
        } else {
            self.raise("Timer error");
            self.switch_to_main_menu()
        }
    }

    /// A poll of the screenshot taken for the area selection (`Ok` carries no
    /// image here: the window keeps it).
    pub fn on_selection_capture_poll(&mut self, poll: Poll<Result<(), ()>>) -> (r: GuiAction)
        requires
            old(self).phase == GuiPhase::LoadingRectSelection,
        ensures
            final(self).pending_save_request == old(self).pending_save_request,
            final(self).directory_dialog_open == old(self).directory_dialog_open,
            final(self).clipboard_busy == old(self).clipboard_busy,
            final(self).hotkey_listener == old(self).hotkey_listener,
            match poll {
                Poll::Received(Ok(())) => r == GuiAction::OpenRectSelection && final(self).phase
                    == GuiPhase::RectSelection && final(self).alert == old(self).alert,
                Poll::Received(Err(())) => r == GuiAction::RevealFullscreen && final(self).phase
                    == old(self).phase && alert_text(final(self).alert) == Some(capture_error_text()),
                Poll::Disconnected => r == GuiAction::ShowMainMenu && final(self).phase == GuiPhase::MainMenu
                    && alert_text(final(self).alert) == Some(service_error_text()),
                Poll::Empty => r == GuiAction::KeepHidden && final(self).phase == old(self).phase
                    && final(self).alert == old(self).alert,
            },
    {
        match poll {
            Poll::Received(Ok(())) => {
                self.phase = GuiPhase::RectSelection;
                GuiAction::OpenRectSelection
            },
            Poll::Received(Err(())) => {
                self.raise("An error occurred. Impossible to continue.");
                GuiAction::RevealFullscreen
            },
            Poll::Disconnected => {
                self.raise("An error occurred when trying to start the service. Please retry.");
                self.switch_to_main_menu()
            },
            Poll::Empty => GuiAction::KeepHidden,
        }
    }

    /// The area selection reported an area: it is cropped for the editor.
    pub fn on_area_selected(&mut self) -> (r: GuiAction)
        requires
            old(self).phase == GuiPhase::RectSelection,
        ensures
            r == GuiAction::CropSelection,
            final(self).phase == GuiPhase::LoadingEditImage,
            final(self).alert == old(self).alert,
            final(self).pending_save_request == old(self).pending_save_request,
            final(self).directory_dialog_open == old(self).directory_dialog_open,
            final(self).clipboard_busy == old(self).clipboard_busy,
            final(self).hotkey_listener == old(self).hotkey_listener,
    {
        self.switch_to_edit_image(true)
    }

    /// A poll of the screenshot to edit. On success the editor opens and, if
    /// `copy_on_clipboard`, the image is copied to the clipboard; a failure
    /// ends in the main menu with an alert.
    pub fn on_edit_capture_poll(&mut self, poll: Poll<Result<(), ()>>, copy_on_clipboard: bool) -> (r:
        GuiAction)
        requires
            old(self).phase == GuiPhase::LoadingEditImage,
        ensures
            final(self).pending_save_request == old(self).pending_save_request,
            final(self).directory_dialog_open == old(self).directory_dialog_open,
            final(self).hotkey_listener == old(self).hotkey_listener,
            match poll {
                Poll::Received(Ok(())) => r == (GuiAction::OpenEditImage {
                    copy_to_clipboard: copy_on_clipboard,
                }) && final(self).phase == GuiPhase::EditImage && final(self).alert == old(self).alert
                    && final(self).clipboard_busy == (old(self).clipboard_busy || copy_on_clipboard),
                Poll::Empty => r == GuiAction::ShowLoading && final(self).phase == old(self).phase
                    && final(self).alert == old(self).alert && final(self).clipboard_busy == old(self).clipboard_busy,
                _ => r == GuiAction::ShowMainMenu && final(self).phase == GuiPhase::MainMenu
                    && alert_text(final(self).alert) == Some(load_error_text())
                    && final(self).clipboard_busy == old(self).clipboard_busy,
            },
    {
        match poll {
            Poll::Received(Ok(())) => {
                if copy_on_clipboard {
                    self.clipboard_busy = true;
                }
                self.phase = GuiPhase::EditImage;
                GuiAction::OpenEditImage { copy_to_clipboard: copy_on_clipboard }
            },
            Poll::Empty => GuiAction::ShowLoading,
            _ => {
                self.raise("Unable to load the image. please retry");
                self.switch_to_main_menu()
            },
        }
    }

    /// The editor asked to save its image: the output path is worked out
    /// while the editor stays on screen, disabled.
    pub fn on_save_requested(&mut self) -> (r: GuiAction)
        requires
            old(self).phase == GuiPhase::EditImage,
        ensures
            r == GuiAction::ComposeOutputPath,
            final(self).pending_save_request,
            final(self).phase == old(self).phase,
            final(self).alert == old(self).alert,
            final(self).directory_dialog_open == old(self).directory_dialog_open,
            final(self).clipboard_busy == old(self).clipboard_busy,
            final(self).hotkey_listener == old(self).hotkey_listener,
    {
        self.pending_save_request = true;
        GuiAction::ComposeOutputPath
    }

    /// The editor was aborted: back to the main menu.
    pub fn on_edit_aborted(&mut self) -> (r: GuiAction)
        requires
            old(self).phase == GuiPhase::EditImage,
        ensures
            r == GuiAction::ShowMainMenu,
            final(self).phase == GuiPhase::MainMenu,
            final(self).alert == old(self).alert,
            final(self).pending_save_request == old(self).pending_save_request,
            final(self).directory_dialog_open == old(self).directory_dialog_open,
            final(self).clipboard_busy == old(self).clipboard_busy,
            final(self).hotkey_listener == old(self).hotkey_listener,
    {
        self.switch_to_main_menu()
    }

    /// A poll of the output path (`Received(true)` when a path was chosen,
    /// `Received(false)` when the user cancelled): a path starts the saving; a
    /// cancellation drops the request; a lost worker drops it with an alert.
    pub fn on_output_path_poll(&mut self, poll: Poll<bool>) -> (r: GuiAction)
        requires
            old(self).pending_save_request,
        ensures
            final(self).directory_dialog_open == old(self).directory_dialog_open,
            final(self).clipboard_busy == old(self).clipboard_busy,
            final(self).hotkey_listener == old(self).hotkey_listener,
            match poll {
                Poll::Received(true) => r == GuiAction::StartSaving && final(self).phase == GuiPhase::Saving
                    && !final(self).pending_save_request && final(self).alert == old(self).alert,
                Poll::Received(false) => r == GuiAction::Nothing && final(self).phase == old(self).phase
                    && !final(self).pending_save_request && final(self).alert == old(self).alert,
                Poll::Empty => r == GuiAction::Nothing && final(self).phase == old(self).phase
                    && final(self).pending_save_request && final(self).alert == old(self).alert,
                Poll::Disconnected => r == GuiAction::Nothing && final(self).phase == old(self).phase
                    && !final(self).pending_save_request && alert_text(final(self).alert) == Some(
                    not_saved_text(),
                ),
            },
    {
        match poll {
            Poll::Received(true) => {
                self.pending_save_request = false;
                self.phase = GuiPhase::Saving;
                GuiAction::StartSaving
            },
            Poll::Received(false) => {
                self.pending_save_request = false;
                GuiAction::Nothing
            },
            Poll::Empty => GuiAction::Nothing,
            Poll::Disconnected => {
                self.pending_save_request = false;
                self.raise("Error: image not saved");
                GuiAction::Nothing
            },
        }
    }

    /// A poll of the saving: success reports the path and failure reports the
    /// error, both in the main menu.
    pub fn on_saving_poll(&mut self, poll: Poll<Result<String, ()>>) -> (r: GuiAction)
        requires
            old(self).phase == GuiPhase::Saving,
        ensures
            final(self).pending_save_request == old(self).pending_save_request,
            final(self).directory_dialog_open == old(self).directory_dialog_open,
            final(self).clipboard_busy == old(self).clipboard_busy,
            final(self).hotkey_listener == old(self).hotkey_listener,
            match poll {
                Poll::Received(Ok(path)) => r == GuiAction::ShowMainMenu && final(self).phase
                    == GuiPhase::MainMenu && alert_text(final(self).alert) == Some(saved_text(path@)),
                Poll::Empty => r == GuiAction::ShowLoading && final(self).phase == old(self).phase
                    && final(self).alert == old(self).alert,
                _ => r == GuiAction::ShowMainMenu && final(self).phase == GuiPhase::MainMenu
                    && alert_text(final(self).alert) == Some(not_saved_text()),
            },
    {
        match poll {
            Poll::Received(Ok(path)) => {
                let mut msg = String::from_str("Image saved: \n\n");
                msg.append(path.as_str());
                self.alert = Some(msg);
                self.switch_to_main_menu()
            },
            Poll::Empty => GuiAction::ShowLoading,
            _ => {
                self.raise("Error: image not saved");
                self.switch_to_main_menu()
            },
        }
    }

    /// A hotkey was pressed: a full-screen screenshot goes to the editor, a
    /// rectangle screenshot to the area selection.
    pub fn on_hotkey(&mut self, name: HotkeyName) -> (r: GuiAction)
        ensures
            name == HotkeyName::FullscreenScreenshot ==> r == GuiAction::CaptureForEditing
                && final(self).phase == GuiPhase::LoadingEditImage,
            name == HotkeyName::RectScreenshot ==> r == GuiAction::CaptureForSelection
                && final(self).phase == GuiPhase::LoadingRectSelection,
            final(self).alert == old(self).alert,
            final(self).pending_save_request == old(self).pending_save_request,
            final(self).directory_dialog_open == old(self).directory_dialog_open,
            final(self).clipboard_busy == old(self).clipboard_busy,
            final(self).hotkey_listener == old(self).hotkey_listener,
    {
        match name {
            HotkeyName::FullscreenScreenshot => self.switch_to_edit_image(false),
            HotkeyName::RectScreenshot => self.switch_to_rect_selection(),
        }
    }

    /// The hotkey listener's channel closed: hotkeys are reported unavailable
    /// and the listener counts as not started.
    pub fn on_hotkey_channel_closed(&mut self)
        ensures
            alert_text(final(self).alert) == Some(hotkeys_error_text()),
            !final(self).hotkey_listener,
            final(self).phase == old(self).phase,
            final(self).pending_save_request == old(self).pending_save_request,
            final(self).directory_dialog_open == old(self).directory_dialog_open,
            final(self).clipboard_busy == old(self).clipboard_busy,
    {
        self.raise("Error in hotkeys. Temporarily unavailable");
        self.hotkey_listener = false;
    }

    /// A poll of the clipboard copy (`Received(Err(detail))` when the clipboard
    /// refused the image): once it answers or its worker is gone, the copy is
    /// over; a failure is reported.
    pub fn on_clipboard_poll(&mut self, poll: Poll<Result<(), String>>)
        requires
            old(self).clipboard_busy,
        ensures
            final(self).phase == old(self).phase,
            final(self).pending_save_request == old(self).pending_save_request,
            final(self).directory_dialog_open == old(self).directory_dialog_open,
            final(self).hotkey_listener == old(self).hotkey_listener,
            match poll {
                Poll::Received(Ok(())) => !final(self).clipboard_busy && final(self).alert == old(self).alert,
                Poll::Received(Err(d)) => !final(self).clipboard_busy && alert_text(final(self).alert)
                    == Some(clipboard_error_detail_text(d@)),
                Poll::Disconnected => !final(self).clipboard_busy && alert_text(final(self).alert)
                    == Some(clipboard_error_text()),
                Poll::Empty => final(self).clipboard_busy && final(self).alert == old(self).alert,
            },
    {
        match poll {
            Poll::Received(Ok(())) => {
                self.clipboard_busy = false;
            },
            Poll::Received(Err(d)) => {
                let mut msg = String::from_str("Error: impossible to copy the image on the clipboard (");
                msg.append(d.as_str());
                msg.append(")");
                self.alert = Some(msg);
                self.clipboard_busy = false;
            },
            Poll::Disconnected => {
                self.raise("Error: impossible to copy the image on the clipboard");
                self.clipboard_busy = false;
            },
            Poll::Empty => {},
        }
    }
}

} // verus!
