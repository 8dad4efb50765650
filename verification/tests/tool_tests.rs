use maple_limit::boolean::BoolOp;
use maple_limit::document::HitTarget;
use maple_limit::shape::ShapeKind;
use maple_limit::tool::{
    build_segments, tool_icon_name, PenAnchor, ShapeType, SplineSegment, Tool, ToolEvent, ToolOutcome,
    ToolPreview, ToolState,
};

type P = (i32, i32);

fn st() -> ToolState<P, u8> {
    ToolState::new(7)
}

#[test]
fn shape_types() {
    assert_eq!(ShapeType::Triangle.sides(), Some(3));
    assert_eq!(ShapeType::Dodecagon.sides(), Some(12));
    assert_eq!(ShapeType::Circle.sides(), None);
    assert_eq!(ShapeType::Rectangle.sides(), None);
    assert_eq!(ShapeType::Hendecagon.label(), "Hendecagon (11)");
    assert_eq!(tool_icon_name(Tool::Spline), "tool_spline");
    assert_eq!(tool_icon_name(Tool::Select), "tool_select");
}

#[test]
fn shape_tool_drag() {
    let mut s = st();
    assert!(matches!(s.shape_handle(ToolEvent::Move((1, 1))), ToolOutcome::Nothing));
    assert!(matches!(s.shape_handle(ToolEvent::Press((1, 2))), ToolOutcome::RequestRedraw));
    assert!(matches!(s.shape_handle(ToolEvent::Drag((5, 6))), ToolOutcome::RequestRedraw));
    assert_eq!(s.drag_current, Some((5, 6)));
    assert!(matches!(s.preview(Tool::Shape), ToolPreview::Drag((1, 2), (5, 6))));
    assert!(matches!(s.shape_handle(ToolEvent::Release((7, 8))), ToolOutcome::DragFinished((1, 2), (7, 8))));
    assert_eq!(s.drag_start, None);
    assert!(matches!(s.shape_handle(ToolEvent::Release((7, 8))), ToolOutcome::Nothing));
}

#[test]
fn line_tool_polyline() {
    let mut s = st();
    s.line_handle(ToolEvent::Press((0, 0)));
    // one point is not a polyline
    assert!(matches!(s.line_handle(ToolEvent::KeyEnter), ToolOutcome::Nothing));
    assert!(s.line_points.is_empty());
    s.line_handle(ToolEvent::Press((0, 0)));
    s.line_handle(ToolEvent::Move((3, 3)));
    assert_eq!(s.drag_current, Some((3, 3)));
    s.line_handle(ToolEvent::Press((1, 1)));
    match s.preview(Tool::Line) {
        ToolPreview::PolylineInProgress(p) => assert_eq!(p, vec![(0, 0), (1, 1)]),
        _ => panic!("expected a polyline preview"),
    }
    match s.line_handle(ToolEvent::RightClick((9, 9))) {
        ToolOutcome::PolylineFinished(p) => assert_eq!(p, vec![(0, 0), (1, 1)]),
        _ => panic!("expected a polyline"),
    }
    assert!(s.line_points.is_empty());
    assert_eq!(s.drag_current, None);
}

#[test]
fn pen_tool_spline() {
    let mut s = st();
    s.pen_handle(ToolEvent::Press((0, 0)), None);
    s.pen_handle(ToolEvent::Drag((1, 0)), Some((-1, 0)));
    s.pen_handle(ToolEvent::Release((1, 0)), None);
    assert_eq!(s.pen_anchors[0], PenAnchor { point: (0, 0), handle_in: (-1, 0), handle_out: (1, 0) });
    // dragging without a press changes nothing
    assert!(matches!(s.pen_handle(ToolEvent::Drag((5, 5)), None), ToolOutcome::Nothing));
    s.pen_handle(ToolEvent::Press((10, 0)), None);
    s.pen_handle(ToolEvent::Release((10, 0)), None);
    match s.pen_handle(ToolEvent::KeyEnter, None) {
        ToolOutcome::SplineFinished(segs) => assert_eq!(
            segs,
            vec![SplineSegment { start: (0, 0), control_a: (1, 0), control_b: (10, 0), end: (10, 0) }]
        ),
        _ => panic!("expected a spline"),
    }
    assert!(s.pen_anchors.is_empty());
}

#[test]
fn segments_between_anchors() {
    let a = |p: P| PenAnchor { point: p, handle_in: (p.0 - 1, p.1), handle_out: (p.0 + 1, p.1) };
    let segs = build_segments(&vec![a((0, 0)), a((10, 0)), a((20, 5))]);
    assert_eq!(segs.len(), 2);
    assert_eq!(segs[1], SplineSegment { start: (10, 0), control_a: (11, 0), control_b: (19, 5), end: (20, 5) });
    assert!(build_segments(&vec![a((0, 0))]).is_empty());
}

#[test]
fn select_tool() {
    let mut s = st();
    assert!(matches!(s.select_handle(ToolEvent::Press((1, 1)), None, Some(HitTarget::Shape(2))), ToolOutcome::SelectShape(Some(2))));
    assert_eq!(s.selected_index, Some(2));
    assert!(matches!(s.select_handle(ToolEvent::Drag((4, 5)), None, None), ToolOutcome::MoveSelected((1, 1), (4, 5))));
    assert_eq!(s.select_drag_start, Some((4, 5)));
    s.select_handle(ToolEvent::Release((4, 5)), None, None);
    assert_eq!(s.select_drag_start, None);
    assert!(matches!(s.select_handle(ToolEvent::Press((1, 1)), None, Some(HitTarget::BoolGroup(0))), ToolOutcome::RequestRedraw));
    assert_eq!(s.selected_bool_group, Some(0));
    assert_eq!(s.selected_index, None);
    // editing a group: a hit inside selects its shape
    s.editing_group = Some(0);
    assert!(matches!(s.select_handle(ToolEvent::Press((2, 2)), Some(3), None), ToolOutcome::SelectShape(Some(3))));
    assert_eq!(s.editing_group, Some(0));
    // a press outside leaves the group
    assert!(matches!(s.select_handle(ToolEvent::Press((2, 2)), None, None), ToolOutcome::SelectShape(None)));
    assert_eq!(s.editing_group, None);
}

#[test]
fn bool_tool() {
    let mut s = st();
    s.bool_op = BoolOp::Difference;
    assert!(matches!(s.bool_handle(ToolEvent::Press((0, 0)), Some((1, ShapeKind::Line))), ToolOutcome::Nothing));
    assert!(matches!(s.bool_handle(ToolEvent::Press((0, 0)), Some((1, ShapeKind::Circle))), ToolOutcome::SelectShape(Some(1))));
    assert!(matches!(
        s.bool_handle(ToolEvent::Press((0, 0)), Some((3, ShapeKind::Rectangle))),
        ToolOutcome::CreateBooleanGroup(1, 3, BoolOp::Difference)
    ));
    assert!(s.bool_selection.is_empty());
    s.bool_handle(ToolEvent::Press((0, 0)), Some((2, ShapeKind::Circle)));
    assert!(matches!(s.bool_handle(ToolEvent::Press((0, 0)), Some((2, ShapeKind::Circle))), ToolOutcome::SelectShape(Some(2))));
    assert!(s.bool_selection.is_empty());
    s.bool_handle(ToolEvent::Press((0, 0)), Some((2, ShapeKind::Circle)));
    assert!(matches!(s.bool_handle(ToolEvent::RightClick((0, 0)), None), ToolOutcome::RequestRedraw));
    assert!(s.bool_selection.is_empty());
}

#[test]
fn switching_tools_drops_work_in_progress() {
    let mut s = st();
    s.pen_handle(ToolEvent::Press((0, 0)), None);
    s.line_handle(ToolEvent::Press((0, 0)));
    s.shape_handle(ToolEvent::Press((0, 0)));
    s.switch_tool(Tool::Line, Tool::Line);
    assert_eq!(s.line_points.len(), 1);
    assert_eq!(s.drag_start, None);
    s.switch_tool(Tool::Line, Tool::Select);
    assert!(s.line_points.is_empty());
    assert_eq!(s.pen_anchors.len(), 1);
    s.switch_tool(Tool::Spline, Tool::Shape);
    assert!(s.pen_anchors.is_empty());
    assert!(!s.pen_dragging);
}
