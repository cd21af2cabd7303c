use screen_grabber::rect_selection::{
    rect_from_pos2, AreaInput, AreaSelection, CaptureSketch, ExitCode, PixelPos, PixelRect, RectSelection,
    SelectionFrame, SelectionInput, SketchInput,
};

fn px(x: i32, y: i32) -> PixelPos {
    PixelPos { x, y }
}

fn rect(a: (i32, i32), b: (i32, i32)) -> PixelRect {
    PixelRect { min: px(a.0, a.1), max: px(b.0, b.1) }
}

fn area(started: bool, released: bool, hover: Option<PixelPos>) -> AreaInput {
    AreaInput {
        abort: false,
        confirm: false,
        reset: false,
        clicked: false,
        drag_started: started,
        drag_released: released,
        hover_pos: hover,
    }
}

#[test]
fn rectangles_are_normalised() {
    assert_eq!(rect_from_pos2(&px(10, 2), &px(3, 8)), rect((3, 2), (10, 8)));
    assert_eq!(rect_from_pos2(&px(-1, -1), &px(-5, 4)), rect((-5, -1), (-1, 4)));
    assert_eq!(rect_from_pos2(&px(1, 1), &px(1, 1)), rect((1, 1), (1, 1)));
}

#[test]
fn drag_selection_over_screenshot() {
    let mut s: RectSelection<(i32, i32)> = RectSelection::new();
    let input = |clicked, started, dragged, released, hover| SelectionInput {
        clicked,
        drag_started: started,
        dragged,
        drag_released: released,
        hover_pos: hover,
    };
    assert_eq!(s.update(input(false, false, false, false, None)), SelectionFrame::Darkened);
    assert_eq!(s.update(input(false, false, true, false, Some((1, 1)))), SelectionFrame::Plain);
    assert_eq!(s.update(input(false, true, false, false, Some((2, 3)))), SelectionFrame::Darkened);
    assert_eq!(s.start_drag_point, Some((2, 3)));
    assert_eq!(
        s.update(input(false, false, true, false, Some((5, 6)))),
        SelectionFrame::Outlined { from: (2, 3), to: (5, 6) }
    );
    assert_eq!(
        s.update(input(false, false, false, true, Some((7, 8)))),
        SelectionFrame::Selected { from: (2, 3), to: (7, 8) }
    );
    assert_eq!(s.update(input(true, false, false, false, None)), SelectionFrame::Darkened);
}

#[test]
fn stand_alone_area_selection() {
    let mut s = AreaSelection::new();
    let o = s.frame(area(true, false, Some(px(5, 5))));
    assert_eq!(o.exit, None);
    assert_eq!(s.first, Some(px(5, 5)));
    let o = s.frame(area(false, false, Some(px(1, 9))));
    assert_eq!(o.dragging, Some(rect((1, 5), (5, 9))));
    s.frame(area(false, true, Some(px(1, 9))));
    assert_eq!((s.first, s.second), (Some(px(5, 5)), Some(px(1, 9))));
    let o = s.frame(area(false, false, None));
    assert_eq!(o.selected, Some(rect((1, 5), (5, 9))));
    let o = s.frame(AreaInput { confirm: true, ..area(false, false, None) });
    assert_eq!(o.exit, Some(ExitCode::SELECTED));
    let o = s.frame(AreaInput { reset: true, ..area(false, false, None) });
    assert_eq!(o.exit, None);
    assert_eq!((s.first, s.second), (None, None));
    let o = s.frame(AreaInput { confirm: true, ..area(false, false, None) });
    assert_eq!(o.exit, None);
    s.frame(area(false, true, Some(px(3, 3))));
    assert_eq!((s.first, s.second), (None, None));
    let o = s.frame(AreaInput { abort: true, ..area(false, false, None) });
    assert_eq!(o.exit, Some(ExitCode::ABORT));
    assert_eq!(ExitCode::ABORT.code(), 1);
}

#[test]
fn capture_sketch() {
    let mut c = CaptureSketch::new();
    let input = |capture, enter, started, released, hover| SketchInput {
        capture_clicked: capture,
        enter_pressed: enter,
        drag_started: started,
        drag_released: released,
        hover_pos: hover,
    };
    let o = c.update(input(false, false, false, false, None));
    assert!(!o.take_screenshot && !c.capturing);
    let o = c.update(input(true, false, false, false, None));
    assert!(o.take_screenshot && c.capturing);
    let o = c.update(input(false, false, true, false, Some(px(0, 0))));
    assert!(o.fullscreen);
    assert_eq!(c.first, Some(px(0, 0)));
    let o = c.update(input(false, false, false, false, Some(px(4, 2))));
    assert_eq!(o.dragging, Some(rect((0, 0), (4, 2))));
    c.update(input(false, false, false, true, Some(px(4, 2))));
    assert_eq!(c.second, Some(px(4, 2)));
    let o = c.update(input(false, true, false, false, None));
    assert_eq!(o.selected, Some(rect((0, 0), (4, 2))));
    assert!(o.leave_fullscreen);
    assert!(!c.capturing);
    assert_eq!((c.first, c.second), (None, None));
}
