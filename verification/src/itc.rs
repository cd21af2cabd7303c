use vstd::prelude::*;
use crate::text::same_text;

verus! {

/// The area that a screenshot covers.
#[derive(Debug, Clone, Copy, PartialEq, Eq, Structural)]
pub enum ScreenshotDim {
    Fullscreen,
    Rectangle,
}

/// What a settings screen reports after a frame.
#[derive(Debug, Clone, Copy, PartialEq, Eq, Structural)]
pub enum SettingsEvent {
    Saved,
    Aborted,
    Nil,
    OpenDirectoryDialog,
}

/// Milliseconds that the window-hiding animation lasts on the given
/// operating system: 250 on the systems the tool was tried on, a generous
/// second elsewhere.
pub open spec fn animations_delay_ms(os: Seq<char>) -> u64 {
    if os == "windows"@ || os == "linux"@ {
        250
    } else {
        1000
    }
}

/// How long to wait, in milliseconds, for the window to disappear before a
/// screenshot is taken on the operating system named `os` (as
/// `std::env::consts::OS` names it).
pub fn get_animations_delay(os: &str) -> (r: u64)
    ensures
        r == animations_delay_ms(os@),
{
    if same_text(os, "windows") || same_text(os, "linux") {
        250
    } else {
        1000
    }
}

} // verus!
