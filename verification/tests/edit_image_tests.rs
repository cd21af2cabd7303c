use screen_grabber::edit_image::{
    cursor_for, hover_to_direction, resize_rectangle, Annotations, BorderProximity, Bounds, CursorShape,
    CutHover, Direction, DragInput, DragShape, EditImage, FrameEvent, MenuChoice, MenuClicks,
    ModificationOfRectangle, Position, Preview, ShapeKind, StyleControls, Tool, ToolEffect, ToolKind,
};
use screen_grabber::gui_state::Poll;
use screen_grabber::image_coding::ImageFormat;

type P = (i32, i32);

fn far() -> BorderProximity {
    BorderProximity {
        near_left: false,
        near_right: false,
        near_top: false,
        near_bottom: false,
        within_x: true,
        within_y: true,
    }
}

fn no_hover() -> CutHover {
    CutHover { proximity: far(), inside: false }
}

fn press(p: P) -> DragInput<P> {
    DragInput { drag_started: true, dragged: false, drag_released: false, hover_pos: Some(p), pointer_pos: Some(p) }
}

fn drag(p: P) -> DragInput<P> {
    DragInput { drag_started: false, dragged: true, drag_released: false, hover_pos: Some(p), pointer_pos: Some(p) }
}

fn release(p: P) -> DragInput<P> {
    DragInput { drag_started: false, dragged: false, drag_released: true, hover_pos: Some(p), pointer_pos: Some(p) }
}

fn idle(hover: Option<P>) -> DragInput<P> {
    DragInput { drag_started: false, dragged: false, drag_released: false, hover_pos: hover, pointer_pos: hover }
}

fn no_clicks() -> MenuClicks {
    MenuClicks { tool: None, undo: false, clear: false, abort: false, save: false }
}

fn kinds(a: &Annotations<&'static str>) -> Vec<(ShapeKind, &'static str)> {
    a.entries().clone()
}

#[test]
fn new_editor() {
    let e: EditImage<P, &str> = EditImage::new();
    assert_eq!(e.tool.kind(), ToolKind::Pen);
    assert!(!e.fill_shape);
    assert_eq!(e.format, ImageFormat::Png);
    assert!(e.annotations.entries().is_empty());
    assert_eq!(e.current_preview(), Preview::Line);
    assert_eq!(e.style_controls(), StyleControls::Stroke);
    assert!(!e.shows_fill_choice());
    assert!(!e.cut_region_highlighted());
}

#[test]
fn pen_stroke() {
    let mut e: EditImage<P, &str> = EditImage::new();
    assert!(matches!(e.handle_events(false, press((1, 1)), no_hover()), ToolEffect::Nothing));
    assert!(matches!(e.handle_events(false, drag((2, 3)), no_hover()), ToolEffect::Nothing));
    assert!(matches!(e.handle_events(false, idle(Some((9, 9))), no_hover()), ToolEffect::Nothing));
    match e.handle_events(false, release((4, 4)), no_hover()) {
        ToolEffect::AddPath(line) => assert_eq!(line, vec![(1, 1), (2, 3)]),
        _ => panic!("a line was expected"),
    }
    match &e.tool {
        Tool::Pen { line } => assert!(line.is_empty()),
        _ => panic!("the pen was expected"),
    }
}

#[test]
fn shape_drags() {
    let mut e: EditImage<P, &str> = EditImage::new();
    e.draw_menu_buttons(MenuClicks { tool: Some(ToolKind::Rect), ..no_clicks() });
    e.fill_shape = true;
    assert!(e.shows_fill_choice());
    assert_eq!(e.style_controls(), StyleControls::FillColor);
    e.handle_events(false, press((10, 10)), no_hover());
    assert_eq!(e.current_preview(), Preview::Nothing);
    e.handle_events(false, drag((20, 30)), no_hover());
    assert_eq!(e.current_preview(), Preview::FilledRect);
    match e.handle_events(false, release((25, 35)), no_hover()) {
        ToolEffect::AddShape { shape, start, end, filled } => {
            assert_eq!(shape, DragShape::Rect);
            assert_eq!(start, (10, 10));
            assert_eq!(end, (20, 30));
            assert!(filled);
        }
        _ => panic!("a rectangle was expected"),
    }
    assert_eq!(e.current_preview(), Preview::Nothing);

    e.draw_menu_buttons(MenuClicks { tool: Some(ToolKind::Arrow), ..no_clicks() });
    assert_eq!(e.style_controls(), StyleControls::Stroke);
    e.handle_events(false, press((0, 0)), no_hover());
    e.handle_events(false, drag((5, 5)), no_hover());
    assert_eq!(e.current_preview(), Preview::Arrow);
    match e.handle_events(false, release((5, 5)), no_hover()) {
        ToolEffect::AddShape { shape, filled, .. } => {
            assert_eq!(shape, DragShape::Arrow);
            assert!(filled);
        }
        _ => panic!("an arrow was expected"),
    }
    e.fill_shape = false;
    e.draw_menu_buttons(MenuClicks { tool: Some(ToolKind::Circle), ..no_clicks() });
    e.handle_events(false, press((0, 0)), no_hover());
    e.handle_events(false, drag((3, 4)), no_hover());
    assert_eq!(e.current_preview(), Preview::CircleOutline);
}

#[test]
fn undo_and_clear() {
    let mut a: Annotations<&str> = Annotations::new();
    a.push(ShapeKind::Rect, "r");
    a.push_arrow("s1", "s2", "s3");
    assert_eq!(a.entries().len(), 4);
    a.remove_annotation();
    assert_eq!(kinds(&a), vec![(ShapeKind::Rect, "r")]);
    a.push(ShapeKind::Circle, "c");
    a.remove_annotation();
    assert_eq!(kinds(&a), vec![(ShapeKind::Rect, "r")]);
    a.remove_annotation();
    assert!(a.entries().is_empty());
    a.remove_annotation();
    assert!(a.entries().is_empty());
    a.push(ShapeKind::Segment, "lonely");
    a.remove_annotation();
    assert!(a.entries().is_empty());
    a.push(ShapeKind::Path, "p");
    a.push(ShapeKind::Path, "q");
    a.clear();
    assert!(a.entries().is_empty());
}

#[test]
fn ctrl_z_and_menu() {
    let mut e: EditImage<P, &str> = EditImage::new();
    e.annotations.push(ShapeKind::Path, "p");
    e.annotations.push(ShapeKind::Rect, "r");
    e.handle_events(true, idle(None), no_hover());
    assert_eq!(kinds(&e.annotations), vec![(ShapeKind::Path, "p")]);
    assert_eq!(e.draw_menu_buttons(MenuClicks { undo: true, ..no_clicks() }), MenuChoice::Nothing);
    assert!(e.annotations.entries().is_empty());
    e.annotations.push(ShapeKind::Path, "p");
    assert_eq!(e.draw_menu_buttons(MenuClicks { clear: true, ..no_clicks() }), MenuChoice::Nothing);
    assert!(e.annotations.entries().is_empty());
    assert_eq!(e.draw_menu_buttons(MenuClicks { save: true, ..no_clicks() }), MenuChoice::Save);
    assert_eq!(
        e.draw_menu_buttons(MenuClicks { save: true, abort: true, ..no_clicks() }),
        MenuChoice::Abort
    );
}

#[test]
fn cutting_rectangle() {
    let mut e: EditImage<P, &str> = EditImage::new();
    e.draw_menu_buttons(MenuClicks { tool: Some(ToolKind::Cut), ..no_clicks() });
    assert!(e.cut_region_highlighted());
    assert_eq!(e.style_controls(), StyleControls::Nothing);
    let inside = CutHover { proximity: far(), inside: true };
    assert!(matches!(
        e.handle_events(false, idle(Some((5, 5))), inside),
        ToolEffect::SetCursor(CursorShape::Grab)
    ));
    assert!(matches!(e.handle_events(false, idle(Some((5, 5))), no_hover()), ToolEffect::Nothing));
    assert!(matches!(e.handle_events(false, press((5, 5)), inside), ToolEffect::SetCursor(CursorShape::Grab)));
    assert!(matches!(e.tool, Tool::Cut { modifying: ModificationOfRectangle::Move }));
    assert!(matches!(e.handle_events(false, drag((6, 6)), inside), ToolEffect::TranslateCut));
    assert!(matches!(e.handle_events(false, release((6, 6)), inside), ToolEffect::Nothing));
    assert!(matches!(e.tool, Tool::Cut { modifying: ModificationOfRectangle::NoModification }));

    let corner = CutHover {
        proximity: BorderProximity { near_right: true, near_bottom: true, ..far() },
        inside: true,
    };
    assert!(matches!(
        e.handle_events(false, press((9, 9)), corner),
        ToolEffect::SetCursor(CursorShape::ResizeSouthEast)
    ));
    match e.handle_events(false, drag((12, 13)), corner) {
        ToolEffect::ResizeCut { direction, pointer } => {
            assert_eq!(direction, Direction::BottomRight);
            assert_eq!(pointer, (12, 13));
        }
        _ => panic!("a resize was expected"),
    }
    assert!(matches!(e.handle_events(false, release((12, 13)), corner), ToolEffect::SettleCut));
    assert!(matches!(e.tool, Tool::Cut { modifying: ModificationOfRectangle::NoModification }));
}

#[test]
fn border_directions() {
    let p = far();
    assert_eq!(hover_to_direction(&p), None);
    assert_eq!(hover_to_direction(&BorderProximity { near_left: true, near_top: true, ..p }), Some(Direction::TopLeft));
    assert_eq!(hover_to_direction(&BorderProximity { near_right: true, near_top: true, ..p }), Some(Direction::TopRight));
    assert_eq!(hover_to_direction(&BorderProximity { near_left: true, near_bottom: true, ..p }), Some(Direction::BottomLeft));
    assert_eq!(hover_to_direction(&BorderProximity { near_right: true, ..p }), Some(Direction::Right));
    assert_eq!(hover_to_direction(&BorderProximity { near_left: true, ..p }), Some(Direction::Left));
    assert_eq!(hover_to_direction(&BorderProximity { near_top: true, ..p }), Some(Direction::Top));
    assert_eq!(hover_to_direction(&BorderProximity { near_bottom: true, ..p }), Some(Direction::Bottom));
    assert_eq!(hover_to_direction(&BorderProximity { near_bottom: true, within_x: false, ..p }), None);
    assert_eq!(cursor_for(Direction::Top), CursorShape::ResizeVertical);
    assert_eq!(cursor_for(Direction::Left), CursorShape::ResizeHorizontal);
    assert_eq!(cursor_for(Direction::TopRight), CursorShape::ResizeNorthEast);
    assert_eq!(cursor_for(Direction::BottomLeft), CursorShape::ResizeSouthWest);
}

#[test]
fn resizing_moves_named_sides() {
    let r = Bounds { left: 0, top: 0, right: 100, bottom: 50 };
    let p = Position { x: 7, y: 9 };
    assert_eq!(resize_rectangle(r, p, Direction::Top), Bounds { left: 0, top: 9, right: 100, bottom: 50 });
    assert_eq!(resize_rectangle(r, p, Direction::Right), Bounds { left: 0, top: 0, right: 7, bottom: 50 });
    assert_eq!(
        resize_rectangle(r, p, Direction::BottomLeft),
        Bounds { left: 7, top: 0, right: 100, bottom: 9 }
    );
}

#[test]
fn save_job_polls() {
    let mut e: EditImage<P, &str> = EditImage::new();
    e.format = ImageFormat::Gif;
    assert_eq!(e.save_job_event(&Poll::Received(())), Some(FrameEvent::Saved { format: ImageFormat::Gif }));
    assert_eq!(e.save_job_event::<()>(&Poll::Empty), Some(FrameEvent::Nil));
    assert_eq!(e.save_job_event::<()>(&Poll::Disconnected), None);
}

#[test]
fn input_checks() {
    let e: EditImage<P, &str> = EditImage::new();
    assert!(e.input_accepted(&press((1, 1))));
    let bad = DragInput { drag_started: true, dragged: false, drag_released: false, hover_pos: None, pointer_pos: None };
    assert!(!e.input_accepted(&bad));
    let mut r: EditImage<P, &str> = EditImage::new();
    r.draw_menu_buttons(MenuClicks { tool: Some(ToolKind::Rect), ..no_clicks() });
    assert!(!r.input_accepted(&release((1, 1))));
    assert!(r.input_accepted(&idle(None)));
}

#[test]
fn released_drags_store_their_shapes() {
    let mut e: EditImage<P, &str> = EditImage::new();
    e.annotations.push(ShapeKind::Rect, "old");
    e.handle_events(false, press((0, 0)), no_hover());
    e.handle_events(false, drag((1, 1)), no_hover());
    let effect = e.handle_events(false, release((1, 1)), no_hover());
    e.store_effect(&effect, vec!["line"]);
    assert_eq!(kinds(&e.annotations), vec![(ShapeKind::Rect, "old"), (ShapeKind::Path, "line")]);

    e.draw_menu_buttons(MenuClicks { tool: Some(ToolKind::Arrow), ..no_clicks() });
    e.handle_events(false, press((0, 0)), no_hover());
    e.handle_events(false, drag((4, 4)), no_hover());
    let effect = e.handle_events(false, release((4, 4)), no_hover());
    e.store_effect(&effect, vec!["shaft", "tip1", "tip2"]);
    assert_eq!(e.annotations.entries().len(), 5);
    assert_eq!(e.annotations.entries()[4], (ShapeKind::Segment, "tip2"));
    e.remove_annotation();
    assert_eq!(kinds(&e.annotations), vec![(ShapeKind::Rect, "old"), (ShapeKind::Path, "line")]);

    e.draw_menu_buttons(MenuClicks { tool: Some(ToolKind::Circle), ..no_clicks() });
    e.handle_events(false, press((0, 0)), no_hover());
    e.handle_events(false, drag((2, 0)), no_hover());
    let effect = e.handle_events(false, release((2, 0)), no_hover());
    e.store_effect(&effect, vec!["circle"]);
    assert_eq!(e.annotations.entries()[2], (ShapeKind::Circle, "circle"));

    let nothing = e.handle_events(false, idle(None), no_hover());
    e.store_effect(&nothing, vec![]);
    assert_eq!(e.annotations.entries().len(), 3);
}
