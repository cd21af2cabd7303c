//! The capture-mode panel: the area of the screenshot and the screen to take
//! it on, each screen listed by number and size.

use vstd::prelude::*;
use crate::itc::ScreenshotDim;
use crate::text::{decimal, decimal_string};

verus! {

/// The entry of a screen in the screen list: its number counted from one,
/// then its size in pixels, as in `2 (1920x1080)`.
pub open spec fn screen_entry_text(index: nat, width: nat, height: nat) -> Seq<char> {
    decimal(index + 1) + " ("@ + decimal(width) + "x"@ + decimal(height) + ")"@
}

/// The entry of the screen at `index` (counted from zero) in the screen list.
pub fn screen_entry_label(index: usize, width: u32, height: u32) -> (r: String)
    requires
        index < usize::MAX,
    ensures
        r@ == screen_entry_text(index as nat, width as nat, height as nat),
{
    let number: u64 = index as u64 + 1;
    let mut s = decimal_string(number);
    proof {
        reveal_strlit(" (");
        reveal_strlit("x");
        reveal_strlit(")");
    }
    s.append(" (");
    let w = decimal_string(width as u64);
    s.append(w.as_str());
    s.append("x");
    let h = decimal_string(height as u64);
    s.append(h.as_str());
    s.append(")");
    s
}

/// The text of the screen list when the screen at `index` (counted from
/// zero) is selected: its number counted from one.
pub fn selected_screen_label(index: usize) -> (r: String)
    requires
        index < usize::MAX,
    ensures
        r@ == decimal(index as nat + 1),
{
    decimal_string(index as u64 + 1)
}

/// The panel's own state: the area a screenshot covers (the delay, a number
/// of seconds, stays with the window).
#[derive(Debug, Clone, Copy, PartialEq, Eq, Structural)]
pub struct CaptureMode {
    pub area: ScreenshotDim,
    pub delayed: bool,
}

impl CaptureMode {
    /// Full screen, no timer.
    pub fn new() -> (r: CaptureMode)
        ensures
            r.area == ScreenshotDim::Fullscreen,
            !r.delayed,
    {
        CaptureMode { area: ScreenshotDim::Fullscreen, delayed: false }
    }

    /// The area to capture when Acquire is clicked, if it was.
    pub fn acquire(&self, acquire_clicked: bool) -> (r: Option<ScreenshotDim>)
        ensures
            acquire_clicked ==> r == Some(self.area),
            !acquire_clicked ==> r is None,
    {
        if acquire_clicked {
            Some(self.area)
        } else {
            None
        }
    }
}

} // verus!
