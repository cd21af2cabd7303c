//! Decision logic of a desktop screenshot tool: image formats, hotkey
//! bookkeeping, save settings, screen selection and the state machines that
//! drive the user interface.

pub mod image_coding;
pub mod text;
pub mod clock;
pub mod itc;
pub mod save_settings;
pub mod screens_manager;
pub mod rect_selection;
pub mod hotkey_backend;
pub mod hotkey_syntax;
pub mod hotkey_config;
pub mod hotkeys;
pub mod gui_state;
pub mod hotkeys_settings;
pub mod menu;
pub mod edit_image;
pub mod capture_mode;
pub mod file_dialog;
