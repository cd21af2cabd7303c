//! Selecting a rectangular area of the screen by dragging over a full-screen
//! screenshot.

use vstd::prelude::*;

verus! {

/// How the stand-alone area-selection process ends.
#[allow(non_camel_case_types)]
#[derive(Debug, Clone, Copy, PartialEq, Eq, Structural)]
pub enum ExitCode {
    ABORT,
    SELECTED,
    ERROR,
}

impl ExitCode {
    /// The process exit status: 1 when aborted, 0 when an area was selected,
    /// -1 on error.
    pub fn code(self) -> (r: i32)
        ensures
            self == ExitCode::ABORT ==> r == 1,
            self == ExitCode::SELECTED ==> r == 0,
            self == ExitCode::ERROR ==> r == -1,
    {
        match self {
            ExitCode::ABORT => 1,
            ExitCode::ERROR => -1,
            ExitCode::SELECTED => 0,
        }
    }
}

/// A pixel position on the screen.
#[derive(Debug, Clone, Copy, PartialEq, Eq, Structural)]
pub struct PixelPos {
    pub x: i32,
    pub y: i32,
}

/// A rectangle of pixels given by its top-left and bottom-right corners.
#[derive(Debug, Clone, Copy, PartialEq, Eq, Structural)]
pub struct PixelRect {
    pub min: PixelPos,
    pub max: PixelPos,
}

pub open spec fn min_i32(a: i32, b: i32) -> i32 {
    if a < b { a } else { b }
}

pub open spec fn max_i32(a: i32, b: i32) -> i32 {
    if a > b { a } else { b }
}

/// The rectangle with the two points as opposite corners, its corners
/// ordered top-left and bottom-right.
pub fn rect_from_pos2(p1: &PixelPos, p2: &PixelPos) -> (r: PixelRect)
    ensures
        r.min.x == min_i32(p1.x, p2.x),
        r.min.y == min_i32(p1.y, p2.y),
        r.max.x == max_i32(p1.x, p2.x),
        r.max.y == max_i32(p1.y, p2.y),
        r.min.x <= r.max.x && r.min.y <= r.max.y,
{
    let min_x = if p1.x < p2.x { p1.x } else { p2.x };
    let min_y = if p1.y < p2.y { p1.y } else { p2.y };
    let max_x = if p1.x > p2.x { p1.x } else { p2.x };
    let max_y = if p1.y > p2.y { p1.y } else { p2.y };
    PixelRect { min: PixelPos { x: min_x, y: min_y }, max: PixelPos { x: max_x, y: max_y } }
}

/// What the pointer did over the full-screen screenshot in a frame.
pub struct SelectionInput<P> {
    pub clicked: bool,
    pub drag_started: bool,
    pub dragged: bool,
    pub drag_released: bool,
    pub hover_pos: Option<P>,
}

/// What a frame of the area selection shows, or what it selected.
#[derive(Debug, Clone, Copy, PartialEq, Eq)]
pub enum SelectionFrame<P> {
    /// The screenshot, darkened all over.
    Darkened,
    /// The screenshot with only the rectangle between the two points lit,
    /// and outlined.
    Outlined { from: P, to: P },
    /// The drag was released: the area between the two points is selected.
    Selected { from: P, to: P },
    /// The screenshot alone.
    Plain,
}

/// The area selection over a full-screen screenshot: where the current drag
/// started, if one did.
pub struct RectSelection<P> {
    pub start_drag_point: Option<P>,
}

/// The inputs on which a frame can run: while a drag goes on or when it is
/// released after a start was recorded, the pointer must be over the
/// screenshot.
pub open spec fn selection_accepts<P>(start: Option<P>, input: SelectionInput<P>) -> bool {
    !input.clicked && !input.drag_started && (input.dragged || input.drag_released) && start is Some
        ==> input.hover_pos is Some
}

impl<P: Copy> RectSelection<P> {
    /// No drag yet.
    pub fn new() -> (r: RectSelection<P>)
        ensures
            r.start_drag_point is None,
    {
        RectSelection { start_drag_point: None }
    }

    /// A frame: a click darkens the screenshot; a drag that starts records
    /// where (and darkens); while it goes on, the rectangle from its start to
    /// the pointer is outlined; when it is released, that rectangle is
    /// selected. With no drag the screenshot is darkened.
    pub fn update(&mut self, input: SelectionInput<P>) -> (r: SelectionFrame<P>)
        requires
            selection_accepts(old(self).start_drag_point, input),
        ensures
            !input.clicked && input.drag_started ==> final(self).start_drag_point == input.hover_pos,
            !(!input.clicked && input.drag_started) ==> final(self).start_drag_point == old(
                self,
            ).start_drag_point,
            input.clicked ==> r is Darkened,
            !input.clicked && input.drag_started ==> r is Darkened,
            !input.clicked && !input.drag_started && input.dragged ==> r == (match old(
                self,
            ).start_drag_point {
                Some(p) => SelectionFrame::Outlined { from: p, to: input.hover_pos->0 },
                None => SelectionFrame::Plain,
            }),
            !input.clicked && !input.drag_started && !input.dragged && input.drag_released ==> r == (
            match old(self).start_drag_point {
                Some(p) => SelectionFrame::Selected { from: p, to: input.hover_pos->0 },
                None => SelectionFrame::Plain,
            }),
            !input.clicked && !input.drag_started && !input.dragged && !input.drag_released ==> r is Darkened,
    {
        if input.clicked {
            SelectionFrame::Darkened
        } else if input.drag_started {
            self.start_drag_point = input.hover_pos;
            SelectionFrame::Darkened
        } else if input.dragged || input.drag_released {
            match self.start_drag_point {
                Some(p) => {
                    let to = match input.hover_pos {
                        Some(h) => h,
                        None => {
                            proof {
                                assert(false);
                            }
                            p
                        },
                    };
                    if input.dragged {
                        SelectionFrame::Outlined { from: p, to }
                    } else {
                        SelectionFrame::Selected { from: p, to }
                    }
                },
                None => SelectionFrame::Plain,
            }
        } else {
            SelectionFrame::Darkened
        }
    }
}

/// The buttons and the pointer of a frame of the stand-alone area
/// selection; positions are rounded to pixels.
#[derive(Debug, Clone, Copy, PartialEq, Eq, Structural)]
pub struct AreaInput {
    pub abort: bool,
    pub confirm: bool,
    pub reset: bool,
    pub clicked: bool,
    pub drag_started: bool,
    pub drag_released: bool,
    pub hover_pos: Option<PixelPos>,
}

/// What a frame of the stand-alone area selection does: end the process
/// with an exit code, or draw the selected area and the area being dragged.
#[derive(Debug, Clone, Copy, PartialEq, Eq, Structural)]
pub struct AreaOutcome {
    pub exit: Option<ExitCode>,
    pub selected: Option<PixelRect>,
    pub dragging: Option<PixelRect>,
}

/// The corners picked so far by the stand-alone area selection: the first
/// once a drag started, the second once it was released.
#[derive(Debug, Clone, Copy, PartialEq, Eq, Structural)]
pub struct AreaSelection {
    pub first: Option<PixelPos>,
    pub second: Option<PixelPos>,
}

pub open spec fn rect_of(p1: PixelPos, p2: PixelPos) -> PixelRect {
    PixelRect {
        min: PixelPos { x: min_i32(p1.x, p2.x), y: min_i32(p1.y, p2.y) },
        max: PixelPos { x: max_i32(p1.x, p2.x), y: max_i32(p1.y, p2.y) },
    }
}

/// The corners after the pointer part of a frame, starting from `(a, b)`: a
/// click clears them; a drag that starts sets the first corner (clearing the
/// second), a released one sets the second corner after a first one; a
/// second corner without a first is cleared.
pub open spec fn corners_after(a: Option<PixelPos>, b: Option<PixelPos>, input: AreaInput) -> (
    Option<PixelPos>,
    Option<PixelPos>,
) {
    if input.clicked {
        (None, None)
    } else if input.drag_started && !input.drag_released {
        match input.hover_pos {
            None => (a, b),
            Some(p) => if a is None && b is Some {
                (None, None)
            } else {
                (Some(p), None)
            },
        }
    } else if input.drag_released {
        match input.hover_pos {
            None => (a, b),
            Some(p) => if a is Some && b is None {
                (a, Some(p))
            } else {
                (None, None)
            },
        }
    } else {
        match input.hover_pos {
            Some(_) => if a is None && b is Some {
                (None, None)
            } else {
                (a, b)
            },
            None => (a, b),
        }
    }
}

impl AreaSelection {
    /// No corner picked.
    pub fn new() -> (r: AreaSelection)
        ensures
            r.first is None && r.second is None,
    {
        AreaSelection { first: None, second: None }
    }

    /// A frame. Abort ends the process as aborted; Confirm, once both
    /// corners are picked, ends it as selected; Reset clears the corners.
    /// The area between two picked corners is drawn, then the pointer moves
    /// the corners (see `corners_after`), and while a drag goes on the area
    /// from its first corner to the pointer is drawn.
    pub fn frame(&mut self, input: AreaInput) -> (r: AreaOutcome)
        ensures
            input.abort ==> r.exit == Some(ExitCode::ABORT) && *final(self) == *old(self),
            !input.abort && input.confirm && old(self).first is Some && old(self).second is Some ==> r.exit
                == Some(ExitCode::SELECTED) && *final(self) == *old(self),
            r.exit is None ==> ({
                let a = if input.reset { None } else { old(self).first };
                let b = if input.reset { None } else { old(self).second };
                &&& r.selected == (if a is Some && b is Some {
                    Some(rect_of(a->0, b->0))
                } else {
                    None
                })
                &&& (final(self).first, final(self).second) == corners_after(a, b, input)
                &&& r.dragging == (if !input.clicked && !input.drag_started && !input.drag_released
                    && input.hover_pos is Some && a is Some && b is None {
                    Some(rect_of(a->0, input.hover_pos->0))
                } else {
                    None
                })
            }),
            !input.abort && !(input.confirm && old(self).first is Some && old(self).second is Some)
                ==> r.exit is None,
    {
        if input.abort {
            return AreaOutcome { exit: Some(ExitCode::ABORT), selected: None, dragging: None };
        }
        if input.confirm && self.first.is_some() && self.second.is_some() {
            return AreaOutcome { exit: Some(ExitCode::SELECTED), selected: None, dragging: None };
        }
        if input.reset {
            self.first = None;
            self.second = None;
        }
        let selected = match (self.first, self.second) {
            (Some(p1), Some(p2)) => Some(rect_from_pos2(&p1, &p2)),
            _ => None,
        };
        let mut dragging = None;
        if input.clicked {
            self.first = None;
            self.second = None;
        } else if input.drag_started && !input.drag_released {
            if let Some(p) = input.hover_pos {
                if self.first.is_none() && self.second.is_some() {
                    self.second = None;
                } else {
                    self.first = Some(p);
                    self.second = None;
                }
            }
        } else if input.drag_released {
            if let Some(p) = input.hover_pos {
                if self.first.is_some() && self.second.is_none() {
                    self.second = Some(p);
                } else {
                    self.first = None;
                    self.second = None;
                }
            }
        } else {
            if let Some(p) = input.hover_pos {
                match (self.first, self.second) {
                    (Some(p1), None) => {
                        dragging = Some(rect_from_pos2(&p1, &p));
                    },
                    (None, Some(_)) => {
                        self.second = None;
                    },
                    _ => {},
                }
            }
        }
        AreaOutcome { exit: None, selected, dragging }
    }
}

/// The keys, buttons and pointer of a frame of the capture sketch;
/// positions are rounded to pixels.
#[derive(Debug, Clone, Copy, PartialEq, Eq, Structural)]
pub struct SketchInput {
    pub capture_clicked: bool,
    pub enter_pressed: bool,
    pub drag_started: bool,
    pub drag_released: bool,
    pub hover_pos: Option<PixelPos>,
}

/// What a frame of the capture sketch asks of the window.
#[derive(Debug, Clone, Copy, PartialEq, Eq, Structural)]
pub struct SketchOutcome {
    /// Take a screenshot and show it full screen.
    pub take_screenshot: bool,
    /// Keep the window full screen.
    pub fullscreen: bool,
    /// Leave full screen for a maximised window: the selection was kept.
    pub leave_fullscreen: bool,
    pub selected: Option<PixelRect>,
    pub dragging: Option<PixelRect>,
}

/// A window that takes a screenshot on request and lets an area of it be
/// picked by a drag and kept with Enter.
#[derive(Debug, Clone, Copy, PartialEq, Eq, Structural)]
pub struct CaptureSketch {
    pub capturing: bool,
    pub first: Option<PixelPos>,
    pub second: Option<PixelPos>,
}

impl CaptureSketch {
    /// Not capturing, no corner picked.
    pub fn new() -> (r: CaptureSketch)
        ensures
            !r.capturing && r.first is None && r.second is None,
    {
        CaptureSketch { capturing: false, first: None, second: None }
    }

    /// A frame. Outside a capture, the capture button starts one. During a
    /// capture the window stays full screen, the picked area is drawn and
    /// Enter keeps it (ending the capture); then a drag that starts sets the
    /// first corner where the pointer is, a released one the second, and
    /// while a drag goes on the area to the pointer is drawn (a second corner
    /// without a first is cleared).
    pub fn update(&mut self, input: SketchInput) -> (r: SketchOutcome)
        ensures
            !old(self).capturing ==> *final(self) == (CaptureSketch {
                capturing: input.capture_clicked,
                ..*old(self)
            }) && r == (SketchOutcome {
                take_screenshot: input.capture_clicked,
                fullscreen: false,
                leave_fullscreen: false,
                selected: None,
                dragging: None,
            }),
            old(self).capturing ==> ({
                let both = old(self).first is Some && old(self).second is Some;
                let kept = both && input.enter_pressed;
                let a = if kept { None } else { old(self).first };
                let b = if kept { None } else { old(self).second };
                &&& r.fullscreen && !r.take_screenshot
                &&& r.leave_fullscreen == kept
                &&& final(self).capturing == !kept
                &&& r.selected == (if both {
                    Some(rect_of(old(self).first->0, old(self).second->0))
                } else {
                    None
                })
                &&& if input.drag_started && !input.drag_released {
                    final(self).first == input.hover_pos && final(self).second is None
                        && r.dragging is None
                } else if input.drag_released {
                    final(self).first == a && final(self).second == input.hover_pos
                        && r.dragging is None
                } else if input.hover_pos is Some && a is Some && b is None {
                    final(self).first == a && final(self).second == b && r.dragging == Some(
                        rect_of(a->0, input.hover_pos->0),
                    )
                } else if input.hover_pos is Some && a is None && b is Some {
                    final(self).first is None && final(self).second is None && r.dragging is None
                } else {
                    final(self).first == a && final(self).second == b && r.dragging is None
                }
            }),
    {
        if !self.capturing {
            if input.capture_clicked {
                self.capturing = true;
            }
            return SketchOutcome {
                take_screenshot: input.capture_clicked,
                fullscreen: false,
                leave_fullscreen: false,
                selected: None,
                dragging: None,
            };
        }
        let mut selected = None;
        let mut leave_fullscreen = false;
        if let (Some(p1), Some(p2)) = (self.first, self.second) {
            selected = Some(rect_from_pos2(&p1, &p2));
            if input.enter_pressed {
                self.capturing = false;
                self.first = None;
                self.second = None;
                leave_fullscreen = true;
            }
        }
        let mut dragging = None;
        if input.drag_started && !input.drag_released {
            self.first = input.hover_pos;
            self.second = None;
        } else if input.drag_released {
            self.second = input.hover_pos;
        } else if let Some(p) = input.hover_pos {
            match (self.first, self.second) {
                (Some(p1), None) => {
                    dragging = Some(rect_from_pos2(&p1, &p));
                },
                (None, Some(_)) => {
                    self.second = None;
                },
                _ => {},
            }
        }
        SketchOutcome { take_screenshot: false, fullscreen: true, leave_fullscreen, selected, dragging }
    }
}

} // verus!
