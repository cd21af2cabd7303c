//! The screenshot editor: the drawing tools and their per-frame state, the
//! list of annotations with its undo, and the cutting rectangle.
//!
//! Points and shapes are generic: the window passes the pointer positions it
//! observed and stores the shapes it draws, while this module decides what a
//! frame does with them.

use vstd::prelude::*;
use crate::gui_state::Poll;
use crate::image_coding::ImageFormat;

verus! {

/// Side or corner of the cutting rectangle that a drag resizes.
#[derive(Debug, Clone, Copy, PartialEq, Eq, Structural)]
pub enum Direction {
    Top,
    Bottom,
    Left,
    Right,
    TopLeft,
    TopRight,
    BottomLeft,
    BottomRight,
}

/// What a drag does to the cutting rectangle: it moves it, resizes it towards
/// a direction, or leaves it alone.
#[derive(Debug, Clone, Copy, PartialEq, Eq, Structural)]
pub enum ModificationOfRectangle {
    Move,
    Resize { direction: Direction },
    NoModification,
}

/// Mouse cursor shapes the editor asks for.
#[derive(Debug, Clone, Copy, PartialEq, Eq, Structural)]
pub enum CursorShape {
    Grab,
    Grabbing,
    ResizeVertical,
    ResizeHorizontal,
    ResizeNorthWest,
    ResizeNorthEast,
    ResizeSouthWest,
    ResizeSouthEast,
}

/// The cursor that shows a resize towards `d`.
pub open spec fn cursor_of(d: Direction) -> CursorShape {
    match d {
        Direction::Top | Direction::Bottom => CursorShape::ResizeVertical,
        Direction::Left | Direction::Right => CursorShape::ResizeHorizontal,
        Direction::TopLeft => CursorShape::ResizeNorthWest,
        Direction::TopRight => CursorShape::ResizeNorthEast,
        Direction::BottomLeft => CursorShape::ResizeSouthWest,
        Direction::BottomRight => CursorShape::ResizeSouthEast,
    }
}

/// The cursor that shows a resize towards `direction`.
pub fn cursor_for(direction: Direction) -> (r: CursorShape)
    ensures
        r == cursor_of(direction),
{
    match direction {
        Direction::Top | Direction::Bottom => CursorShape::ResizeVertical,
        Direction::Left | Direction::Right => CursorShape::ResizeHorizontal,
        Direction::TopLeft => CursorShape::ResizeNorthWest,
        Direction::TopRight => CursorShape::ResizeNorthEast,
        Direction::BottomLeft => CursorShape::ResizeSouthWest,
        Direction::BottomRight => CursorShape::ResizeSouthEast,
    }
}

/// Where the pointer stands with respect to the borders of a rectangle, each
/// "near" meaning within the tolerance of that border's line and each
/// "within" meaning between the two borders across that axis (both bounds
/// included).
#[derive(Debug, Clone, Copy, PartialEq, Eq, Structural)]
pub struct BorderProximity {
    pub near_left: bool,
    pub near_right: bool,
    pub near_top: bool,
    pub near_bottom: bool,
    pub within_x: bool,
    pub within_y: bool,
}

/// The border or corner the pointer grabs: corners come first (top-left,
/// top-right, bottom-left, bottom-right), then the sides (right, left, top,
/// bottom); a side needs the pointer to lie along it.
pub open spec fn direction_at(p: BorderProximity) -> Option<Direction> {
    if p.near_left && p.near_top {
        Some(Direction::TopLeft)
    } else if p.near_right && p.near_top {
        Some(Direction::TopRight)
    } else if p.near_left && p.near_bottom {
        Some(Direction::BottomLeft)
    } else if p.near_right && p.near_bottom {
        Some(Direction::BottomRight)
    } else if p.near_right && p.within_y {
        Some(Direction::Right)
    } else if p.near_left && p.within_y {
        Some(Direction::Left)
    } else if p.near_top && p.within_x {
        Some(Direction::Top)
    } else if p.near_bottom && p.within_x {
        Some(Direction::Bottom)
    } else {
        None
    }
}

/// The border or corner of the cutting rectangle that the pointer is on, if
/// any.
pub fn hover_to_direction(proximity: &BorderProximity) -> (r: Option<Direction>)
    ensures
        r == direction_at(*proximity),
{
    if proximity.near_left && proximity.near_top {
        Some(Direction::TopLeft)
    } else if proximity.near_right && proximity.near_top {
        Some(Direction::TopRight)
    } else if proximity.near_left && proximity.near_bottom {
        Some(Direction::BottomLeft)
    } else if proximity.near_right && proximity.near_bottom {
        Some(Direction::BottomRight)
    } else if proximity.near_right && proximity.within_y {
        Some(Direction::Right)
    } else if proximity.near_left && proximity.within_y {
        Some(Direction::Left)
    } else if proximity.near_top && proximity.within_x {
        Some(Direction::Top)
    } else if proximity.near_bottom && proximity.within_x {
        Some(Direction::Bottom)
    } else {
        None
    }
}

/// The four sides of a rectangle.
#[derive(Debug, Clone, Copy, PartialEq, Eq)]
pub struct Bounds<T> {
    pub left: T,
    pub top: T,
    pub right: T,
    pub bottom: T,
}

/// A position.
#[derive(Debug, Clone, Copy, PartialEq, Eq)]
pub struct Position<T> {
    pub x: T,
    pub y: T,
}

pub open spec fn moves_top(d: Direction) -> bool {
    d is Top || d is TopLeft || d is TopRight
}

pub open spec fn moves_bottom(d: Direction) -> bool {
    d is Bottom || d is BottomLeft || d is BottomRight
}

pub open spec fn moves_left(d: Direction) -> bool {
    d is Left || d is TopLeft || d is BottomLeft
}

pub open spec fn moves_right(d: Direction) -> bool {
    d is Right || d is TopRight || d is BottomRight
}

/// The rectangle resized towards `direction`: each side that the direction
/// names is moved to the pointer, the others stay.
pub fn resize_rectangle<T: Copy>(rectangle: Bounds<T>, pointer: Position<T>, direction: Direction) -> (r:
    Bounds<T>)
    ensures
        r.top == (if moves_top(direction) { pointer.y } else { rectangle.top }),
        r.bottom == (if moves_bottom(direction) { pointer.y } else { rectangle.bottom }),
        r.left == (if moves_left(direction) { pointer.x } else { rectangle.left }),
        r.right == (if moves_right(direction) { pointer.x } else { rectangle.right }),
{
    let mut r = rectangle;
    match direction {
        Direction::Top => {
            r.top = pointer.y;
        },
        Direction::Bottom => {
            r.bottom = pointer.y;
        },
        Direction::Left => {
            r.left = pointer.x;
        },
        Direction::Right => {
            r.right = pointer.x;
        },
        Direction::TopLeft => {
            r.top = pointer.y;
            r.left = pointer.x;
        },
        Direction::TopRight => {
            r.top = pointer.y;
            r.right = pointer.x;
        },
        Direction::BottomLeft => {
            r.bottom = pointer.y;
            r.left = pointer.x;
        },
        Direction::BottomRight => {
            r.bottom = pointer.y;
            r.right = pointer.x;
        },
    }
    r
}

/// The kind of a stored annotation. An arrow is stored as three segments.
#[derive(Debug, Clone, Copy, PartialEq, Eq, Structural)]
pub enum ShapeKind {
    /// A free-hand line.
    Path,
    Rect,
    Circle,
    /// One of the three segments of an arrow.
    Segment,
}

/// The list after one undo: the last annotation goes, and when it is a
/// segment (the last stroke was an arrow) the two before it go too.
pub open spec fn undone<S>(s: Seq<(ShapeKind, S)>) -> Seq<(ShapeKind, S)> {
    if s.len() == 0 {
        s
    } else if s.last().0 is Segment {
        if s.len() >= 3 {
            s.take(s.len() - 3)
        } else {
            Seq::empty()
        }
    } else {
        s.drop_last()
    }
}

/// The annotations drawn on the screenshot, oldest first, each with its
/// kind.
pub struct Annotations<S> {
    entries: Vec<(ShapeKind, S)>,
}

impl<S> View for Annotations<S> {
    type V = Seq<(ShapeKind, S)>;

    closed spec fn view(&self) -> Seq<(ShapeKind, S)> {
        self.entries@
    }
}

impl<S> Annotations<S> {
    /// No annotation.
    pub fn new() -> (r: Annotations<S>)
        ensures
            r@ == Seq::<(ShapeKind, S)>::empty(),
    {
        Annotations { entries: Vec::new() }
    }

    /// The annotations, oldest first.
    pub fn entries(&self) -> (r: &Vec<(ShapeKind, S)>)
        ensures
            r@ == self@,
    {
        &self.entries
    }

    /// Adds a shape of the given kind.
    pub fn push(&mut self, kind: ShapeKind, shape: S)
        ensures
            final(self)@ == old(self)@.push((kind, shape)),
    {
        self.entries.push((kind, shape));
    }

    /// Adds an arrow: its shaft and its two tip strokes, as segments.
    pub fn push_arrow(&mut self, shaft: S, tip_one: S, tip_two: S)
        ensures
            final(self)@ == old(self)@.push((ShapeKind::Segment, shaft)).push(
                (ShapeKind::Segment, tip_one),
            ).push((ShapeKind::Segment, tip_two)),
    {
        self.entries.push((ShapeKind::Segment, shaft));
        self.entries.push((ShapeKind::Segment, tip_one));
        self.entries.push((ShapeKind::Segment, tip_two));
    }

    /// Undoes the last stroke: removes the last annotation, and the two
    /// before it when it is a segment of an arrow.
    pub fn remove_annotation(&mut self)
        ensures
            final(self)@ == undone(old(self)@),
    {
        let last = self.entries.pop();
        match last {
            Some((ShapeKind::Segment, _)) => {
                self.entries.pop();
                self.entries.pop();
            },
            _ => {},
        }
        proof {
            let s = old(self)@;
            if s.len() > 0 && s.last().0 is Segment {
                if s.len() >= 3 {
                    assert(self.entries@ =~= s.take(s.len() - 3));
                } else {
                    assert(self.entries@ =~= Seq::<(ShapeKind, S)>::empty());
                }
            }
        }
    }

    /// Removes every annotation.
    pub fn clear(&mut self)
        ensures
            final(self)@ == Seq::<(ShapeKind, S)>::empty(),
    {
        self.entries = Vec::new();
    }
}

/// Undoing right after a shape was drawn gives back the annotations as they
/// were before it.
pub proof fn lemma_undo_after_shape<S>(before: Seq<(ShapeKind, S)>, kind: ShapeKind, shape: S)
    requires
        !(kind is Segment),
    ensures
        undone(before.push((kind, shape))) == before,
{
    assert(before.push((kind, shape)).drop_last() =~= before);
}

/// Undoing right after an arrow was drawn gives back the annotations as they
/// were before it.
pub proof fn lemma_undo_after_arrow<S>(before: Seq<(ShapeKind, S)>, shaft: S, tip_one: S, tip_two: S)
    ensures
        undone(
            before.push((ShapeKind::Segment, shaft)).push((ShapeKind::Segment, tip_one)).push(
                (ShapeKind::Segment, tip_two),
            ),
        ) == before,
{
    let s = before.push((ShapeKind::Segment, shaft)).push((ShapeKind::Segment, tip_one)).push(
        (ShapeKind::Segment, tip_two),
    );
    assert(s.take(s.len() - 3) =~= before);
}

/// The three tools that draw a shape between where a drag started and where
/// it ended.
#[derive(Debug, Clone, Copy, PartialEq, Eq, Structural)]
pub enum DragShape {
    Circle,
    Rect,
    Arrow,
}

/// The tool in use and the state of the stroke it is drawing.
pub enum Tool<P> {
    /// The points of the free-hand line being drawn.
    Pen { line: Vec<P> },
    /// Centre and a point of the circumference.
    Circle { start_drag: Option<P>, end_drag: Option<P> },
    /// Two opposite corners.
    Rect { start_drag: Option<P>, end_drag: Option<P> },
    /// Tail and tip.
    Arrow { start_drag: Option<P>, end_drag: Option<P> },
    /// The cutting rectangle and what a drag does to it.
    Cut { modifying: ModificationOfRectangle },
}

/// The tools, as the tool buttons name them.
#[derive(Debug, Clone, Copy, PartialEq, Eq, Structural)]
pub enum ToolKind {
    Pen,
    Circle,
    Rect,
    Arrow,
    Cut,
}

pub open spec fn kind_of<P>(t: Tool<P>) -> ToolKind {
    match t {
        Tool::Pen { .. } => ToolKind::Pen,
        Tool::Circle { .. } => ToolKind::Circle,
        Tool::Rect { .. } => ToolKind::Rect,
        Tool::Arrow { .. } => ToolKind::Arrow,
        Tool::Cut { .. } => ToolKind::Cut,
    }
}

/// The tool of a drag shape holding the given drag ends.
pub open spec fn drag_tool<P>(shape: DragShape, start: Option<P>, end: Option<P>) -> Tool<P> {
    match shape {
        DragShape::Circle => Tool::Circle { start_drag: start, end_drag: end },
        DragShape::Rect => Tool::Rect { start_drag: start, end_drag: end },
        DragShape::Arrow => Tool::Arrow { start_drag: start, end_drag: end },
    }
}

/// A tool as it is when it has just been chosen: no stroke in progress.
pub open spec fn is_fresh<P>(t: Tool<P>) -> bool {
    match t {
        Tool::Pen { line } => line@.len() == 0,
        Tool::Circle { start_drag, end_drag } => start_drag is None && end_drag is None,
        Tool::Rect { start_drag, end_drag } => start_drag is None && end_drag is None,
        Tool::Arrow { start_drag, end_drag } => start_drag is None && end_drag is None,
        Tool::Cut { modifying } => modifying is NoModification,
    }
}

impl<P> Tool<P> {
    /// The tool of the given kind, with no stroke in progress.
    pub fn fresh(kind: ToolKind) -> (r: Tool<P>)
        ensures
            kind_of(r) == kind,
            is_fresh(r),
    {
        match kind {
            ToolKind::Pen => Tool::Pen { line: Vec::new() },
            ToolKind::Circle => Tool::Circle { start_drag: None, end_drag: None },
            ToolKind::Rect => Tool::Rect { start_drag: None, end_drag: None },
            ToolKind::Arrow => Tool::Arrow { start_drag: None, end_drag: None },
            ToolKind::Cut => Tool::Cut { modifying: ModificationOfRectangle::NoModification },
        }
    }

    /// The kind of this tool.
    pub fn kind(&self) -> (r: ToolKind)
        ensures
            r == kind_of(*self),
    {
        match self {
            Tool::Pen { .. } => ToolKind::Pen,
            Tool::Circle { .. } => ToolKind::Circle,
            Tool::Rect { .. } => ToolKind::Rect,
            Tool::Arrow { .. } => ToolKind::Arrow,
            Tool::Cut { .. } => ToolKind::Cut,
        }
    }
}

/// What the pointer did over the image in a frame: whether a drag started,
/// goes on or was released, where the pointer is over the image (if it is)
/// and where it is on the screen (if anywhere).
pub struct DragInput<P> {
    pub drag_started: bool,
    pub dragged: bool,
    pub drag_released: bool,
    pub hover_pos: Option<P>,
    pub pointer_pos: Option<P>,
}

/// Where the hovered position stands with respect to the cutting rectangle
/// as drawn: near which borders, and whether inside it (bounds included).
#[derive(Debug, Clone, Copy, PartialEq, Eq, Structural)]
pub struct CutHover {
    pub proximity: BorderProximity,
    pub inside: bool,
}

/// What the window has to do after a frame of the tool.
pub enum ToolEffect<P> {
    Nothing,
    /// Show this cursor.
    SetCursor(CursorShape),
    /// Store the free-hand line through these points.
    AddPath(Vec<P>),
    /// Store a circle, rectangle or arrow spanning the two ends of a drag,
    /// filled or outlined.
    AddShape { shape: DragShape, start: P, end: P, filled: bool },
    /// Show the grabbing cursor and move the cutting rectangle by the drag.
    TranslateCut,
    /// Show the resize cursor and move the sides of the cutting rectangle
    /// that the direction names to the pointer.
    ResizeCut { direction: Direction, pointer: P },
    /// The resize is over: turn the cutting rectangle the right way round and
    /// keep it inside the image.
    SettleCut,
}

/// The inputs on which a frame of the tool can run: a pen needs the hovered
/// position when a drag starts, and every drag needs the pointer while it
/// goes on, except a move of the cutting rectangle; a shape needs both drag
/// ends when it is released.
pub open spec fn accepts_input<P>(t: Tool<P>, input: DragInput<P>) -> bool {
    match t {
        Tool::Pen { .. } => (input.drag_started ==> input.hover_pos is Some) && (!input.drag_started
            && input.dragged ==> input.pointer_pos is Some),
        Tool::Circle { start_drag, end_drag } | Tool::Rect { start_drag, end_drag } | Tool::Arrow {
            start_drag,
            end_drag,
        } => (!input.drag_started && input.dragged ==> input.pointer_pos is Some) && (
        !input.drag_started && !input.dragged && input.drag_released ==> start_drag is Some
            && end_drag is Some),
        Tool::Cut { modifying } => modifying is Resize && input.dragged ==> input.pointer_pos is Some,
    }
}

/// A frame of the pen: a started or continued drag adds a point to the line,
/// a released one stores the line and starts a new one.
pub open spec fn pen_step<P>(line: Seq<P>, input: DragInput<P>, after: Tool<P>, effect: ToolEffect<P>) -> bool {
    &&& after matches Tool::Pen { line: l } && l@ == (if input.drag_started {
        line.push(input.hover_pos->0)
    } else if input.dragged {
        line.push(input.pointer_pos->0)
    } else if input.drag_released {
        Seq::empty()
    } else {
        line
    })
    &&& if !input.drag_started && !input.dragged && input.drag_released {
        effect matches ToolEffect::AddPath(p) && p@ == line
    } else {
        effect is Nothing
    }
}

/// A frame of a drag shape: a started drag records where it started, a
/// continued one where the pointer is, and a released one stores the shape
/// and forgets both ends.
pub open spec fn drag_step<P>(
    shape: DragShape,
    start: Option<P>,
    end: Option<P>,
    filled: bool,
    input: DragInput<P>,
    after: Tool<P>,
    effect: ToolEffect<P>,
) -> bool {
    if input.drag_started {
        after == drag_tool(shape, input.hover_pos, end) && effect is Nothing
    } else if input.dragged {
        after == drag_tool(shape, start, input.pointer_pos) && effect is Nothing
    } else if input.drag_released {
        after == drag_tool::<P>(shape, None, None) && effect == ToolEffect::AddShape {
            shape,
            start: start->0,
            end: end->0,
            filled,
        }
    } else {
        after == drag_tool(shape, start, end) && effect is Nothing
    }
}

/// A frame of the cutting tool. A move goes on while the drag does; a
/// resize too, and when it ends the rectangle is settled. Otherwise a
/// pointer on a border or corner shows the resize cursor and a drag that
/// starts there resizes; a pointer inside shows the grab cursor and a drag
/// that starts there moves.
pub open spec fn cut_step<P>(
    m: ModificationOfRectangle,
    input: DragInput<P>,
    hover: CutHover,
    after: ModificationOfRectangle,
    effect: ToolEffect<P>,
) -> bool {
    match m {
        ModificationOfRectangle::Move => if input.dragged {
            after == m && effect is TranslateCut
        } else if input.drag_released {
            after is NoModification && effect is Nothing
        } else {
            after == m && effect is Nothing
        },
        ModificationOfRectangle::Resize { direction } => if input.dragged {
            after == m && effect == ToolEffect::ResizeCut { direction, pointer: input.pointer_pos->0 }
        } else if input.drag_released {
            after is NoModification && effect is SettleCut
        } else {
            after == m && effect is Nothing
        },
        ModificationOfRectangle::NoModification => if input.hover_pos is None {
            after == m && effect is Nothing
        } else {
            match direction_at(hover.proximity) {
                Some(d) => after == (if input.drag_started {
                    ModificationOfRectangle::Resize { direction: d }
                } else {
                    m
                }) && effect == ToolEffect::<P>::SetCursor(cursor_of(d)),
                None => if hover.inside {
                    after == (if input.drag_started {
                        ModificationOfRectangle::Move
                    } else {
                        m
                    }) && effect == ToolEffect::<P>::SetCursor(CursorShape::Grab)
                } else {
                    after == m && effect is Nothing
                },
            }
        },
    }
}

/// A frame of any tool.
pub open spec fn tool_step<P>(
    before: Tool<P>,
    filled: bool,
    input: DragInput<P>,
    hover: CutHover,
    after: Tool<P>,
    effect: ToolEffect<P>,
) -> bool {
    match before {
        Tool::Pen { line } => pen_step(line@, input, after, effect),
        Tool::Circle { start_drag, end_drag } => drag_step(
            DragShape::Circle,
            start_drag,
            end_drag,
            filled,
            input,
            after,
            effect,
        ),
        Tool::Rect { start_drag, end_drag } => drag_step(
            DragShape::Rect,
            start_drag,
            end_drag,
            filled,
            input,
            after,
            effect,
        ),
        Tool::Arrow { start_drag, end_drag } => drag_step(
            DragShape::Arrow,
            start_drag,
            end_drag,
            filled,
            input,
            after,
            effect,
        ),
        Tool::Cut { modifying } => after matches Tool::Cut { modifying: m } && cut_step(
            modifying,
            input,
            hover,
            m,
            effect,
        ),
    }
}

fn drag_frame<P>(
    shape: DragShape,
    start: Option<P>,
    end: Option<P>,
    filled: bool,
    input: DragInput<P>,
) -> (r: (Tool<P>, ToolEffect<P>))
    requires
        !input.drag_started && input.dragged ==> input.pointer_pos is Some,
        !input.drag_started && !input.dragged && input.drag_released ==> start is Some && end is Some,
    ensures
        drag_step(shape, start, end, filled, input, r.0, r.1),
{
    let DragInput { drag_started, dragged, drag_released, hover_pos, pointer_pos } = input;
    let (s, e, effect) = if drag_started {
        (hover_pos, end, ToolEffect::Nothing)
    } else if dragged {
        (start, pointer_pos, ToolEffect::Nothing)
    } else if drag_released {
        let start_point = match start {
            Some(p) => p,
            None => {
                proof {
                    assert(false);
                }
                return (Tool::Cut { modifying: ModificationOfRectangle::NoModification }, ToolEffect::Nothing);
            },
        };
        let end_point = match end {
            Some(p) => p,
            None => {
                proof {
                    assert(false);
                }
                return (Tool::Cut { modifying: ModificationOfRectangle::NoModification }, ToolEffect::Nothing);
            },
        };
        (None, None, ToolEffect::AddShape { shape, start: start_point, end: end_point, filled })
    } else {
        (start, end, ToolEffect::Nothing)
    };
    let tool = match shape {
        DragShape::Circle => Tool::Circle { start_drag: s, end_drag: e },
        DragShape::Rect => Tool::Rect { start_drag: s, end_drag: e },
        DragShape::Arrow => Tool::Arrow { start_drag: s, end_drag: e },
    };
    (tool, effect)
}

fn cut_frame<P>(m: ModificationOfRectangle, input: DragInput<P>, hover: CutHover) -> (r: (
    ModificationOfRectangle,
    ToolEffect<P>,
))
    requires
        m is Resize && input.dragged ==> input.pointer_pos is Some,
    ensures
        cut_step(m, input, hover, r.0, r.1),
{
    match m {
        ModificationOfRectangle::Move => {
            if input.dragged {
                (m, ToolEffect::TranslateCut)
            } else if input.drag_released {
                (ModificationOfRectangle::NoModification, ToolEffect::Nothing)
            } else {
                (m, ToolEffect::Nothing)
            }
        },
        ModificationOfRectangle::Resize { direction } => {
            if input.dragged {
                match input.pointer_pos {
                    Some(pointer) => (m, ToolEffect::ResizeCut { direction, pointer }),
                    None => {
                        proof {
                            assert(false);
                        }
                        (m, ToolEffect::Nothing)
                    },
                }
            } else if input.drag_released {
                (ModificationOfRectangle::NoModification, ToolEffect::SettleCut)
            } else {
                (m, ToolEffect::Nothing)
            }
        },
        ModificationOfRectangle::NoModification => {
            if input.hover_pos.is_none() {
                (m, ToolEffect::Nothing)
            } else {
                match hover_to_direction(&hover.proximity) {
                    Some(d) => {
                        let after = if input.drag_started {
                            ModificationOfRectangle::Resize { direction: d }
                        } else {
                            m
                        };
                        (after, ToolEffect::SetCursor(cursor_for(d)))
                    },
                    None => {
                        if hover.inside {
                            let after = if input.drag_started {
                                ModificationOfRectangle::Move
                            } else {
                                m
                            };
                            (after, ToolEffect::SetCursor(CursorShape::Grab))
                        } else {
                            (m, ToolEffect::Nothing)
                        }
                    },
                }
            }
        },
    }
}

fn pen_frame<P>(line: Vec<P>, input: DragInput<P>) -> (r: (Tool<P>, ToolEffect<P>))
    requires
        input.drag_started ==> input.hover_pos is Some,
        !input.drag_started && input.dragged ==> input.pointer_pos is Some,
    ensures
        pen_step(line@, input, r.0, r.1),
{
    let mut line = line;
    let DragInput { drag_started, dragged, drag_released, hover_pos, pointer_pos } = input;
    if drag_started {
        match hover_pos {
            Some(p) => line.push(p),
            None => {
                proof {
                    assert(false);
                }
            },
        }
        (Tool::Pen { line }, ToolEffect::Nothing)
    } else if dragged {
        match pointer_pos {
            Some(p) => line.push(p),
            None => {
                proof {
                    assert(false);
                }
            },
        }
        (Tool::Pen { line }, ToolEffect::Nothing)
    } else if drag_released {
        (Tool::Pen { line: Vec::new() }, ToolEffect::AddPath(line))
    } else {
        (Tool::Pen { line }, ToolEffect::Nothing)
    }
}

/// Runs a frame of `tool`.
fn tool_frame<P>(tool: Tool<P>, filled: bool, input: DragInput<P>, hover: CutHover) -> (r: (
    Tool<P>,
    ToolEffect<P>,
))
    requires
        accepts_input(tool, input),
    ensures
        tool_step(tool, filled, input, hover, r.0, r.1),
{
    match tool {
        Tool::Pen { line } => pen_frame(line, input),
        Tool::Circle { start_drag, end_drag } => drag_frame(
            DragShape::Circle,
            start_drag,
            end_drag,
            filled,
            input,
        ),
        Tool::Rect { start_drag, end_drag } => drag_frame(
            DragShape::Rect,
            start_drag,
            end_drag,
            filled,
            input,
        ),
        Tool::Arrow { start_drag, end_drag } => drag_frame(
            DragShape::Arrow,
            start_drag,
            end_drag,
            filled,
            input,
        ),
        Tool::Cut { modifying } => {
            let (m, effect) = cut_frame(modifying, input, hover);
            (Tool::Cut { modifying: m }, effect)
        },
    }
}

/// What a frame of the editor reports to the application.
#[derive(Debug, Clone, Copy, PartialEq, Eq, Structural)]
pub enum FrameEvent {
    /// The edited image is ready, to be saved in this format.
    Saved { format: ImageFormat },
    Aborted,
    Nil,
}

/// What the stroke in progress looks like on screen.
#[derive(Debug, Clone, Copy, PartialEq, Eq, Structural)]
pub enum Preview {
    Line,
    FilledCircle,
    CircleOutline,
    FilledRect,
    RectOutline,
    Arrow,
    Nothing,
}

/// The style controls shown for the tool in use.
#[derive(Debug, Clone, Copy, PartialEq, Eq, Structural)]
pub enum StyleControls {
    /// A colour picker for the fill.
    FillColor,
    /// Colour and width of the stroke.
    Stroke,
    Nothing,
}

/// The buttons of the editor's menu clicked in a frame.
#[derive(Debug, Clone, Copy, PartialEq, Eq, Structural)]
pub struct MenuClicks {
    /// The tool button clicked, if any.
    pub tool: Option<ToolKind>,
    pub undo: bool,
    pub clear: bool,
    pub abort: bool,
    pub save: bool,
}

/// What the menu asks for beyond the editor's own state.
#[derive(Debug, Clone, Copy, PartialEq, Eq, Structural)]
pub enum MenuChoice {
    Abort,
    /// Draw the annotations on the image and crop it, in the background.
    Save,
    Nothing,
}

pub open spec fn preview_of<P>(t: Tool<P>, filled: bool) -> Preview {
    match t {
        Tool::Pen { .. } => Preview::Line,
        Tool::Circle { start_drag, end_drag } => if start_drag is Some && end_drag is Some {
            if filled {
                Preview::FilledCircle
            } else {
                Preview::CircleOutline
            }
        } else {
            Preview::Nothing
        },
        Tool::Rect { start_drag, end_drag } => if start_drag is Some && end_drag is Some {
            if filled {
                Preview::FilledRect
            } else {
                Preview::RectOutline
            }
        } else {
            Preview::Nothing
        },
        Tool::Arrow { start_drag, end_drag } => if start_drag is Some && end_drag is Some {
            Preview::Arrow
        } else {
            Preview::Nothing
        },
        Tool::Cut { .. } => Preview::Nothing,
    }
}

pub open spec fn style_controls_of(kind: ToolKind, filled: bool) -> StyleControls {
    match kind {
        ToolKind::Rect | ToolKind::Circle => if filled {
            StyleControls::FillColor
        } else {
            StyleControls::Stroke
        },
        ToolKind::Pen | ToolKind::Arrow => StyleControls::Stroke,
        ToolKind::Cut => StyleControls::Nothing,
    }
}

/// How many annotations an effect stores: one for a line, a circle or a
/// rectangle, three segments for an arrow, none otherwise.
pub open spec fn added_count<P>(e: ToolEffect<P>) -> nat {
    match e {
        ToolEffect::AddPath(_) => 1,
        ToolEffect::AddShape { shape, .. } => if shape is Arrow {
            3
        } else {
            1
        },
        _ => 0,
    }
}

/// The kind under which the shapes of an effect are stored.
pub open spec fn stored_kind<P>(e: ToolEffect<P>) -> ShapeKind {
    match e {
        ToolEffect::AddShape { shape, .. } => match shape {
            DragShape::Circle => ShapeKind::Circle,
            DragShape::Rect => ShapeKind::Rect,
            DragShape::Arrow => ShapeKind::Segment,
        },
        _ => ShapeKind::Path,
    }
}

/// The entries that an effect stores, given the shapes the window built for
/// it.
pub open spec fn stored_entries<P, S>(e: ToolEffect<P>, shapes: Seq<S>) -> Seq<(ShapeKind, S)> {
    Seq::new(added_count(e), |i: int| (stored_kind(e), shapes[i]))
}

/// The editor's state: the tool, whether shapes are filled, the output
/// format and the annotations (the image, the stroke style, the cutting
/// rectangle and the scale stay with the window).
pub struct EditImage<P, S> {
    pub tool: Tool<P>,
    pub fill_shape: bool,
    pub format: ImageFormat,
    pub annotations: Annotations<S>,
}

impl<P, S> EditImage<P, S> {
    /// The pen, outlined shapes, PNG, no annotation.
    pub fn new() -> (r: EditImage<P, S>)
        ensures
            r.tool matches Tool::Pen { line } && line@.len() == 0,
            !r.fill_shape,
            r.format == ImageFormat::Png,
            r.annotations@.len() == 0,
    {
        EditImage {
            tool: Tool::Pen { line: Vec::new() },
            fill_shape: false,
            format: ImageFormat::Png,
            annotations: Annotations::new(),
        }
    }

    /// Undoes the last stroke.
    pub fn remove_annotation(&mut self)
        ensures
            final(self).annotations@ == undone(old(self).annotations@),
            final(self).tool == old(self).tool,
            final(self).fill_shape == old(self).fill_shape,
            final(self).format == old(self).format,
    {
        self.annotations.remove_annotation();
    }

    /// Undoes the last stroke when Ctrl+Z was pressed.
    pub fn handle_ctrl_z(&mut self, pressed: bool)
        ensures
            final(self).annotations@ == (if pressed {
                undone(old(self).annotations@)
            } else {
                old(self).annotations@
            }),
            final(self).tool == old(self).tool,
            final(self).fill_shape == old(self).fill_shape,
            final(self).format == old(self).format,
    {
        if pressed {
            self.remove_annotation();
        }
    }

    /// Whether a frame can run on `input`; the window stops when it cannot.
    pub fn input_accepted(&self, input: &DragInput<P>) -> (r: bool)
        ensures
            r == accepts_input(self.tool, *input),
    {
        match &self.tool {
            Tool::Pen { .. } => (!input.drag_started || input.hover_pos.is_some()) && (
            input.drag_started || !input.dragged || input.pointer_pos.is_some()),
            Tool::Circle { start_drag, end_drag } | Tool::Rect { start_drag, end_drag } | Tool::Arrow {
                start_drag,
                end_drag,
            } => (input.drag_started || !input.dragged || input.pointer_pos.is_some()) && (
            input.drag_started || input.dragged || !input.drag_released || (start_drag.is_some()
                && end_drag.is_some())),
            Tool::Cut { modifying } => match modifying {
                ModificationOfRectangle::Resize { .. } => !input.dragged || input.pointer_pos.is_some(),
                _ => true,
            },
        }
    }

    /// A frame over the image: Ctrl+Z undoes the last stroke, then the tool
    /// in use handles the pointer (see `tool_step`) and says what the window
    /// has to do.
    pub fn handle_events(&mut self, ctrl_z: bool, input: DragInput<P>, hover: CutHover) -> (r:
        ToolEffect<P>)
        requires
            accepts_input(old(self).tool, input),
        ensures
            final(self).annotations@ == (if ctrl_z {
                undone(old(self).annotations@)
            } else {
                old(self).annotations@
            }),
            tool_step(old(self).tool, old(self).fill_shape, input, hover, final(self).tool, r),
            final(self).fill_shape == old(self).fill_shape,
            final(self).format == old(self).format,
    {
        self.handle_ctrl_z(ctrl_z);
        let mut tool = Tool::Cut { modifying: ModificationOfRectangle::NoModification };
        std::mem::swap(&mut tool, &mut self.tool);
        let (after, effect) = tool_frame(tool, self.fill_shape, input, hover);
        self.tool = after;
        effect
    }

    /// Stores what a frame's effect draws, with the shapes the window built
    /// for it (in image coordinates): a line, circle or rectangle as one
    /// annotation, an arrow as its shaft and two tip strokes. Other effects
    /// store nothing.
    pub fn store_effect(&mut self, effect: &ToolEffect<P>, shapes: Vec<S>)
        requires
            shapes@.len() == added_count(*effect),
        ensures
            final(self).annotations@ == old(self).annotations@ + stored_entries(*effect, shapes@),
            final(self).tool == old(self).tool,
            final(self).fill_shape == old(self).fill_shape,
            final(self).format == old(self).format,
    {
        let ghost before = self.annotations@;
        let ghost given = shapes@;
        let mut shapes = shapes;
        match effect {
            ToolEffect::AddPath(_) => {
                let line = shapes.pop().unwrap();
                self.annotations.push(ShapeKind::Path, line);
            },
            ToolEffect::AddShape { shape, .. } => match shape {
                DragShape::Circle => {
                    let c = shapes.pop().unwrap();
                    self.annotations.push(ShapeKind::Circle, c);
                },
                DragShape::Rect => {
                    let r = shapes.pop().unwrap();
                    self.annotations.push(ShapeKind::Rect, r);
                },
                DragShape::Arrow => {
                    let tip_two = shapes.pop().unwrap();
                    let tip_one = shapes.pop().unwrap();
                    let shaft = shapes.pop().unwrap();
                    self.annotations.push_arrow(shaft, tip_one, tip_two);
                },
            },
            _ => {},
        }
        assert(self.annotations@ =~= before + stored_entries(*effect, given));
    }

    /// How the stroke in progress is drawn.
    pub fn current_preview(&self) -> (r: Preview)
        ensures
            r == preview_of(self.tool, self.fill_shape),
    {
        match &self.tool {
            Tool::Pen { .. } => Preview::Line,
            Tool::Circle { start_drag, end_drag } => {
                if start_drag.is_some() && end_drag.is_some() {
                    if self.fill_shape {
                        Preview::FilledCircle
                    } else {
                        Preview::CircleOutline
                    }
                } else {
                    Preview::Nothing
                }
            },
            Tool::Rect { start_drag, end_drag } => {
                if start_drag.is_some() && end_drag.is_some() {
                    if self.fill_shape {
                        Preview::FilledRect
                    } else {
                        Preview::RectOutline
                    }
                } else {
                    Preview::Nothing
                }
            },
            Tool::Arrow { start_drag, end_drag } => {
                if start_drag.is_some() && end_drag.is_some() {
                    Preview::Arrow
                } else {
                    Preview::Nothing
                }
            },
            Tool::Cut { .. } => Preview::Nothing,
        }
    }

    /// Whether the border of the cutting region is highlighted: it is while
    /// the cutting tool is in use.
    pub fn cut_region_highlighted(&self) -> (r: bool)
        ensures
            r == (self.tool is Cut),
    {
        match &self.tool {
            Tool::Cut { .. } => true,
            _ => false,
        }
    }

    /// Whether the filled/border choice is shown: for rectangles and circles.
    pub fn shows_fill_choice(&self) -> (r: bool)
        ensures
            r == (self.tool is Rect || self.tool is Circle),
    {
        match &self.tool {
            Tool::Rect { .. } | Tool::Circle { .. } => true,
            _ => false,
        }
    }

    /// The style controls for the tool in use: a fill colour for filled
    /// shapes, the stroke for outlines, lines and arrows, none for cutting.
    pub fn style_controls(&self) -> (r: StyleControls)
        ensures
            r == style_controls_of(kind_of(self.tool), self.fill_shape),
    {
        match (self.tool.kind(), self.fill_shape) {
            (ToolKind::Rect, true) | (ToolKind::Circle, true) => StyleControls::FillColor,
            (ToolKind::Rect, false) | (ToolKind::Circle, false) | (ToolKind::Pen, _) | (
                ToolKind::Arrow,
                _,
            ) => StyleControls::Stroke,
            (ToolKind::Cut, _) => StyleControls::Nothing,
        }
    }

    /// The menu of a frame: a tool button starts that tool afresh (even the
    /// one in use), undo undoes the last stroke, clear removes every
    /// annotation; Abort wins over Save.
    pub fn draw_menu_buttons(&mut self, clicks: MenuClicks) -> (r: MenuChoice)
        ensures
            clicks.tool matches Some(k) ==> kind_of(final(self).tool) == k && is_fresh(final(self).tool),
            clicks.tool is None ==> final(self).tool == old(self).tool,
            final(self).annotations@ == (if clicks.clear {
                Seq::empty()
            } else if clicks.undo {
                undone(old(self).annotations@)
            } else {
                old(self).annotations@
            }),
            r == (if clicks.abort {
                MenuChoice::Abort
            } else if clicks.save {
                MenuChoice::Save
            } else {
                MenuChoice::Nothing
            }),
            final(self).fill_shape == old(self).fill_shape,
            final(self).format == old(self).format,
    {
        match clicks.tool {
            Some(kind) => {
                self.tool = Tool::fresh(kind);
            },
            None => {},
        }
        if clicks.undo {
            self.annotations.remove_annotation();
        }
        if clicks.clear {
            self.annotations.clear();
        }
        if clicks.abort {
            MenuChoice::Abort
        } else if clicks.save {
            MenuChoice::Save
        } else {
            MenuChoice::Nothing
        }
    }

    /// What a poll of the background saving job means for the frame: the
    /// image arrived (saved in the chosen format), the job still runs (a
    /// spinner is shown), or there is no job and the editor is shown (`None`).
    pub fn save_job_event<T>(&self, poll: &Poll<T>) -> (r: Option<FrameEvent>)
        ensures
            poll is Received ==> r == Some(FrameEvent::Saved { format: self.format }),
            poll is Empty ==> r == Some(FrameEvent::Nil),
            poll is Disconnected ==> r is None,
    {
        match poll {
            Poll::Received(_) => Some(FrameEvent::Saved { format: self.format }),
            Poll::Empty => Some(FrameEvent::Nil),
            Poll::Disconnected => None,
        }
    }
}

/// A drag with a shape tool, from where it started to where the pointer last
/// was, stores that shape spanning these two points and leaves the tool with
/// no stroke in progress.
pub proof fn lemma_drag_stores_shape<P>(
    shape: DragShape,
    start: Option<P>,
    end: Option<P>,
    filled: bool,
    hover: CutHover,
    press: DragInput<P>,
    drag: DragInput<P>,
    release: DragInput<P>,
    t1: Tool<P>,
    e1: ToolEffect<P>,
    t2: Tool<P>,
    e2: ToolEffect<P>,
    t3: Tool<P>,
    e3: ToolEffect<P>,
)
    requires
        press.drag_started,
        !drag.drag_started && drag.dragged,
        !release.drag_started && !release.dragged && release.drag_released,
        tool_step(drag_tool(shape, start, end), filled, press, hover, t1, e1),
        tool_step(t1, filled, drag, hover, t2, e2),
        tool_step(t2, filled, release, hover, t3, e3),
    ensures
        (e1 is Nothing) && (e2 is Nothing),
        e3 == (ToolEffect::AddShape {
            shape,
            start: press.hover_pos->0,
            end: drag.pointer_pos->0,
            filled,
        }),
        t3 == drag_tool::<P>(shape, None, None),
        is_fresh(t3),
{
}

/// While a drag with a shape tool goes on, its far end follows the pointer:
/// after the press and any number of dragged frames (at least one), the tool
/// holds the press position as the start and the pointer of the last dragged
/// frame as the end, whatever end it held before.
proof fn lemma_drag_end_follows_pointer<P>(
    shape: DragShape,
    end: Option<P>,
    filled: bool,
    hover: CutHover,
    inputs: Seq<DragInput<P>>,
    tools: Seq<Tool<P>>,
    effects: Seq<ToolEffect<P>>,
    k: int,
)
    requires
        2 <= k < tools.len(),
        k <= inputs.len(),
        k <= effects.len(),
        inputs[0].drag_started,
        forall|i: int| 1 <= i < k ==> !(#[trigger] inputs[i]).drag_started && inputs[i].dragged,
        tools[1] == drag_tool(shape, inputs[0].hover_pos, end),
        forall|i: int|
            0 <= i < k ==> tool_step(
                #[trigger] tools[i],
                filled,
                inputs[i],
                hover,
                tools[i + 1],
                effects[i],
            ),
    ensures
        tools[k] == drag_tool(shape, inputs[0].hover_pos, inputs[k - 1].pointer_pos),
        forall|i: int| 1 <= i < k ==> (#[trigger] effects[i]) is Nothing,
    decreases k,
{
    assert(tool_step(tools[k - 1], filled, inputs[k - 1], hover, tools[k], effects[k - 1]));
    assert(!inputs[k - 1].drag_started && inputs[k - 1].dragged);
    if k > 2 {
        lemma_drag_end_follows_pointer(shape, end, filled, hover, inputs, tools, effects, k - 1);
    }
}

/// A drag with a circle, rectangle or arrow tool stores the shape from where
/// the drag started to where the pointer was in the last dragged frame: after
/// a press, one or more dragged frames and a release, the release stores
/// that shape and leaves the tool with no stroke in progress; the frames
/// before it store nothing.
pub proof fn lemma_drag_stores_shape_to_last_pointer<P>(
    shape: DragShape,
    start: Option<P>,
    end: Option<P>,
    filled: bool,
    hover: CutHover,
    inputs: Seq<DragInput<P>>,
    tools: Seq<Tool<P>>,
    effects: Seq<ToolEffect<P>>,
)
    requires
        inputs.len() >= 3,
        inputs[0].drag_started,
        forall|i: int|
            1 <= i < inputs.len() - 1 ==> !(#[trigger] inputs[i]).drag_started && inputs[i].dragged,
        !inputs.last().drag_started && !inputs.last().dragged && inputs.last().drag_released,
        tools.len() == inputs.len() + 1,
        effects.len() == inputs.len(),
        tools[0] == drag_tool(shape, start, end),
        forall|i: int|
            0 <= i < inputs.len() ==> tool_step(
                #[trigger] tools[i],
                filled,
                inputs[i],
                hover,
                tools[i + 1],
                effects[i],
            ),
    ensures
        forall|i: int| 0 <= i < inputs.len() - 1 ==> (#[trigger] effects[i]) is Nothing,
        effects.last() == (ToolEffect::AddShape {
            shape,
            start: inputs[0].hover_pos->0,
            end: inputs[inputs.len() - 2].pointer_pos->0,
            filled,
        }),
        tools.last() == drag_tool::<P>(shape, None, None),
{
    let n = inputs.len() as int;
    assert(tool_step(tools[0], filled, inputs[0], hover, tools[1], effects[0]));
    assert(tools[1] == drag_tool(shape, inputs[0].hover_pos, end));
    lemma_drag_end_follows_pointer(shape, end, filled, hover, inputs, tools, effects, n - 1);
    assert(tool_step(tools[n - 1], filled, inputs[n - 1], hover, tools[n], effects[n - 1]));
}

/// A pen stroke (pressed, dragged, released) stores the line through the
/// points it went by, after any left from before, and starts a new line.
pub proof fn lemma_pen_stroke_stores_line<P>(
    line: Vec<P>,
    filled: bool,
    hover: CutHover,
    press: DragInput<P>,
    drag: DragInput<P>,
    release: DragInput<P>,
    t1: Tool<P>,
    e1: ToolEffect<P>,
    t2: Tool<P>,
    e2: ToolEffect<P>,
    t3: Tool<P>,
    e3: ToolEffect<P>,
)
    requires
        press.drag_started,
        !drag.drag_started && drag.dragged,
        !release.drag_started && !release.dragged && release.drag_released,
        tool_step(Tool::Pen { line }, filled, press, hover, t1, e1),
        tool_step(t1, filled, drag, hover, t2, e2),
        tool_step(t2, filled, release, hover, t3, e3),
    ensures
        (e1 is Nothing) && (e2 is Nothing),
        e3 matches ToolEffect::AddPath(p) && p@ == line@.push(press.hover_pos->0).push(
            drag.pointer_pos->0,
        ),
        is_fresh(t3) && (t3 is Pen),
{
}

/// A drag that moves or resizes the cutting rectangle ends with the drag:
/// after a release the rectangle is no longer being modified.
pub proof fn lemma_cut_release_ends_modification<P>(
    m: ModificationOfRectangle,
    release: DragInput<P>,
    hover: CutHover,
    after: ModificationOfRectangle,
    effect: ToolEffect<P>,
)
    requires
        !(m is NoModification),
        !release.dragged && release.drag_released,
        cut_step(m, release, hover, after, effect),
    ensures
        (after is NoModification),
        (m is Resize) ==> (effect is SettleCut),
{
}

/// A drag that starts on a border or corner of the cutting rectangle resizes
/// towards that border or corner. With no modification in progress and the
/// pointer over the image, a press resizes exactly when the pointer is on a
/// border (near a side and along it) or on a corner (near two crossing
/// sides); every side that the resize then moves is one the pointer is near,
/// the resize cursor of that direction is shown, and the following dragged
/// frame moves those sides to the pointer. A press on the top border alone
/// resizes the top.
pub proof fn lemma_press_on_border_resizes_it<P>(
    press: DragInput<P>,
    hover: CutHover,
    after_press: ModificationOfRectangle,
    press_effect: ToolEffect<P>,
    drag: DragInput<P>,
    drag_hover: CutHover,
    after_drag: ModificationOfRectangle,
    drag_effect: ToolEffect<P>,
)
    requires
        press.drag_started,
        press.hover_pos is Some,
        cut_step(ModificationOfRectangle::NoModification, press, hover, after_press, press_effect),
        drag.dragged,
        cut_step(after_press, drag, drag_hover, after_drag, drag_effect),
    ensures
        ({
            let p = hover.proximity;
            ((p.near_top || p.near_bottom) && p.within_x) || ((p.near_left || p.near_right)
                && p.within_y) || ((p.near_top || p.near_bottom) && (p.near_left || p.near_right))
        }) <==> after_press is Resize,
        after_press matches ModificationOfRectangle::Resize { direction: d } ==> {
            &&& moves_top(d) ==> hover.proximity.near_top
            &&& moves_bottom(d) ==> hover.proximity.near_bottom
            &&& moves_left(d) ==> hover.proximity.near_left
            &&& moves_right(d) ==> hover.proximity.near_right
            &&& press_effect == ToolEffect::<P>::SetCursor(cursor_of(d))
            &&& after_drag == after_press
            &&& drag_effect == (ToolEffect::ResizeCut { direction: d, pointer: drag.pointer_pos->0 })
        },
        hover.proximity.near_top && hover.proximity.within_x && !hover.proximity.near_bottom
            && !hover.proximity.near_left && !hover.proximity.near_right ==> after_press
            == (ModificationOfRectangle::Resize { direction: Direction::Top }),
{
}

/// A released drag with a drawing tool, once its effect is stored, adds one
/// annotation (three for an arrow) after the ones there were, and leaves the
/// tool with no stroke in progress.
pub proof fn lemma_released_drag_adds_annotations<P, S>(
    before: Tool<P>,
    filled: bool,
    release: DragInput<P>,
    hover: CutHover,
    after: Tool<P>,
    effect: ToolEffect<P>,
    annotations: Seq<(ShapeKind, S)>,
    shapes: Seq<S>,
)
    requires
        !(before is Cut),
        !release.drag_started && !release.dragged && release.drag_released,
        tool_step(before, filled, release, hover, after, effect),
        shapes.len() == added_count(effect),
    ensures
        added_count(effect) == (if before is Arrow { 3nat } else { 1nat }),
        (annotations + stored_entries(effect, shapes)).len() == annotations.len() + added_count(effect),
        (annotations + stored_entries(effect, shapes)).take(annotations.len() as int) == annotations,
        is_fresh(after),
{
    let all = annotations + stored_entries(effect, shapes);
    assert(all.take(annotations.len() as int) =~= annotations);
}

} // verus!
