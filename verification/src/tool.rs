//! Drawing tools: which tool is active, what shape the shape tool draws,
//! and how each tool turns pointer and key events into edits.
//!
//! Points are carried but not computed with (`Pt`): where a tool needs
//! geometry (the shape spanned by a drag, the offset of a move), it hands
//! the points back and the caller computes.

use vstd::prelude::*;

use crate::boolean::{is_closed_shape, spec_is_closed_shape, BoolOp};
use crate::document::HitTarget;
use crate::shape::ShapeKind;

verus! {

#[derive(Debug, Clone, Copy, PartialEq, Eq, Structural)]
pub enum Tool {
    Select,
    Shape,
    Line,
    Spline,
}

#[derive(Debug, Clone, Copy, PartialEq, Eq, Structural)]
pub enum ShapeType {
    Triangle,
    Rectangle,
    Pentagon,
    Hexagon,
    Heptagon,
    Octagon,
    Nonagon,
    Decagon,
    Hendecagon,
    Dodecagon,
    Circle,
}

impl ShapeType {
    pub open spec fn spec_sides(self) -> Option<usize> {
        match self {
            ShapeType::Triangle => Some(3),
            ShapeType::Pentagon => Some(5),
            ShapeType::Hexagon => Some(6),
            ShapeType::Heptagon => Some(7),
            ShapeType::Octagon => Some(8),
            ShapeType::Nonagon => Some(9),
            ShapeType::Decagon => Some(10),
            ShapeType::Hendecagon => Some(11),
            ShapeType::Dodecagon => Some(12),
            ShapeType::Circle => None,
            ShapeType::Rectangle => None,
        }
    }

    /// The number of sides of a regular polygon type; none for circles and
    /// rectangles.
    pub fn sides(&self) -> (n: Option<usize>)
        ensures
            n == self.spec_sides(),
    {
        match self {
            ShapeType::Triangle => Some(3),
            ShapeType::Pentagon => Some(5),
            ShapeType::Hexagon => Some(6),
            ShapeType::Heptagon => Some(7),
            ShapeType::Octagon => Some(8),
            ShapeType::Nonagon => Some(9),
            ShapeType::Decagon => Some(10),
            ShapeType::Hendecagon => Some(11),
            ShapeType::Dodecagon => Some(12),
            ShapeType::Circle => None,
            ShapeType::Rectangle => None,
        }
    }

    pub open spec fn spec_label(self) -> Seq<char> {
        match self {
            ShapeType::Triangle => "Triangle (3)"@,
            ShapeType::Rectangle => "Rectangle"@,
            ShapeType::Pentagon => "Pentagon (5)"@,
            ShapeType::Hexagon => "Hexagon (6)"@,
            ShapeType::Heptagon => "Heptagon (7)"@,
            ShapeType::Octagon => "Octagon (8)"@,
            ShapeType::Nonagon => "Nonagon (9)"@,
            ShapeType::Decagon => "Decagon (10)"@,
            ShapeType::Hendecagon => "Hendecagon (11)"@,
            ShapeType::Dodecagon => "Dodecagon (12)"@,
            ShapeType::Circle => "Circle"@,
        }
    }

    /// The name shown to the user.
    pub fn label(&self) -> (s: &'static str)
        ensures
            s@ == self.spec_label(),
    {
        match self {
            ShapeType::Triangle => "Triangle (3)",
            ShapeType::Rectangle => "Rectangle",
            ShapeType::Pentagon => "Pentagon (5)",
            ShapeType::Hexagon => "Hexagon (6)",
            ShapeType::Heptagon => "Heptagon (7)",
            ShapeType::Octagon => "Octagon (8)",
            ShapeType::Nonagon => "Nonagon (9)",
            ShapeType::Decagon => "Decagon (10)",
            ShapeType::Hendecagon => "Hendecagon (11)",
            ShapeType::Dodecagon => "Dodecagon (12)",
            ShapeType::Circle => "Circle",
        }
    }
}

pub open spec fn spec_tool_icon_name(tool: Tool) -> Seq<char> {
    match tool {
        Tool::Select => "tool_select"@,
        Tool::Shape => "tool_shape"@,
        Tool::Line => "tool_line"@,
        Tool::Spline => "tool_spline"@,
    }
}

/// The name of the icon of a tool's toolbar button.
pub fn tool_icon_name(tool: Tool) -> (s: &'static str)
    ensures
        s@ == spec_tool_icon_name(tool),
{
    match tool {
        Tool::Select => "tool_select",
        Tool::Shape => "tool_shape",
        Tool::Line => "tool_line",
        Tool::Spline => "tool_spline",
    }
}

// ---------------------------------------------------------------------------
// Tool state and events
// ---------------------------------------------------------------------------

pub enum ToolEvent<Pt> {
    Press(Pt),
    Drag(Pt),
    Release(Pt),
    Move(Pt),
    KeyEnter,
    RightClick(Pt),
}

/// A point of a spline being drawn, with its two tangent handles.
#[derive(Debug, Clone, Copy, PartialEq, Eq)]
pub struct PenAnchor<Pt> {
    pub point: Pt,
    pub handle_in: Pt,
    pub handle_out: Pt,
}

/// One cubic segment of a spline.
#[derive(Debug, Clone, Copy, PartialEq, Eq)]
pub struct SplineSegment<Pt> {
    pub start: Pt,
    pub control_a: Pt,
    pub control_b: Pt,
    pub end: Pt,
}

/// What a tool asks of the editor after an event.
pub enum ToolOutcome<Pt> {
    Nothing,
    RequestRedraw,
    SelectShape(Option<usize>),
    CreateBooleanGroup(usize, usize, BoolOp),
    /// a drag from the first point to the second finished: build the shape
    DragFinished(Pt, Pt),
    /// a polyline through these points was finished
    PolylineFinished(Vec<Pt>),
    /// a spline of these segments was finished
    SplineFinished(Vec<SplineSegment<Pt>>),
    /// move the selected shape by the offset from the first point to the second
    MoveSelected(Pt, Pt),
}

/// Geometry to draw while a tool is in progress.
pub enum ToolPreview<Pt> {
    Nothing,
    /// the shape a drag from the first point to the second would make
    Drag(Pt, Pt),
    PenInProgress(Vec<PenAnchor<Pt>>),
    PolylineInProgress(Vec<Pt>),
}

pub struct ToolState<Pt, St> {
    // Shape
    pub drag_start: Option<Pt>,
    pub drag_current: Option<Pt>,
    // Select
    pub selected_index: Option<usize>,
    pub selected_bool_group: Option<usize>,
    pub editing_group: Option<usize>,
    pub select_drag_start: Option<Pt>,
    // Pen
    pub pen_anchors: Vec<PenAnchor<Pt>>,
    pub pen_dragging: bool,
    // Polyline (Line tool)
    pub line_points: Vec<Pt>,
    // Boolean groups
    pub bool_selection: Vec<usize>,
    pub bool_op: BoolOp,
    // Config
    pub shape_type: ShapeType,
    pub current_style: St,
}

/// The abstract state of a [`ToolState`].
#[verifier::ext_equal]
pub struct ToolModel<Pt, St> {
    pub drag_start: Option<Pt>,
    pub drag_current: Option<Pt>,
    pub selected_index: Option<usize>,
    pub selected_bool_group: Option<usize>,
    pub editing_group: Option<usize>,
    pub select_drag_start: Option<Pt>,
    pub pen_anchors: Seq<PenAnchor<Pt>>,
    pub pen_dragging: bool,
    pub line_points: Seq<Pt>,
    pub bool_selection: Seq<usize>,
    pub bool_op: BoolOp,
    pub shape_type: ShapeType,
    pub current_style: St,
}

impl<Pt, St> View for ToolState<Pt, St> {
    type V = ToolModel<Pt, St>;

    open spec fn view(&self) -> ToolModel<Pt, St> {
        ToolModel {
            drag_start: self.drag_start,
            drag_current: self.drag_current,
            selected_index: self.selected_index,
            selected_bool_group: self.selected_bool_group,
            editing_group: self.editing_group,
            select_drag_start: self.select_drag_start,
            pen_anchors: self.pen_anchors@,
            pen_dragging: self.pen_dragging,
            line_points: self.line_points@,
            bool_selection: self.bool_selection@,
            bool_op: self.bool_op,
            shape_type: self.shape_type,
            current_style: self.current_style,
        }
    }
}

/// The segments of a spline through `anchors`: one from each anchor to the
/// next, leaving along the first's outgoing handle and arriving along the
/// second's incoming one.
pub open spec fn spline_segments<Pt>(anchors: Seq<PenAnchor<Pt>>) -> Seq<SplineSegment<Pt>> {
    Seq::new(
        (anchors.len() - 1) as nat,
        |i: int|
            SplineSegment {
                start: anchors[i].point,
                control_a: anchors[i].handle_out,
                control_b: anchors[i + 1].handle_in,
                end: anchors[i + 1].point,
            },
    )
}

/// The segments of the spline through `anchors` (at least one).
pub fn build_segments<Pt: Copy>(anchors: &Vec<PenAnchor<Pt>>) -> (segments: Vec<SplineSegment<Pt>>)
    requires
        anchors@.len() >= 1,
    ensures
        segments@ == spline_segments(anchors@),
{
    let mut segments: Vec<SplineSegment<Pt>> = Vec::new();
    let mut i: usize = 0;
    while i < anchors.len() - 1
        invariant
            anchors@.len() >= 1,
            i <= anchors@.len() - 1,
            segments@ == spline_segments(anchors@).take(i as int),
        decreases anchors@.len() - 1 - i,
    {
        let a = &anchors[i];
        let b = &anchors[i + 1];
        segments.push(
            SplineSegment {
                start: a.point,
                control_a: a.handle_out,
                control_b: b.handle_in,
                end: b.point,
            },
        );
        proof {
            assert(segments@ =~= spline_segments(anchors@).take(i + 1));
        }
        i += 1;
    }
    assert(segments@ =~= spline_segments(anchors@));
    segments
}

/// A copy of a list of copyable values.
fn copy_all<T: Copy>(v: &Vec<T>) -> (r: Vec<T>)
    ensures
        r@ == v@,
{
    let mut r: Vec<T> = Vec::new();
    let mut i: usize = 0;
    while i < v.len()
        invariant
            i <= v@.len(),
            r@ == v@.take(i as int),
        decreases v@.len() - i,
    {
        r.push(v[i]);
        proof {
            assert(r@ =~= v@.take(i + 1));
        }
        i += 1;
    }
    assert(r@ =~= v@);
    r
}

/// What the select tool does: `pre` and `post` are the tool state before
/// and after `event`, `out` what it asks for (see `ToolState::select_handle`).
pub open spec fn select_step<Pt, St>(
    pre: ToolModel<Pt, St>,
    event: ToolEvent<Pt>,
    in_group_hit: Option<usize>,
    any_hit: Option<HitTarget>,
    post: ToolModel<Pt, St>,
    out: ToolOutcome<Pt>,
) -> bool {
    match event {
        ToolEvent::Press(pos) => if pre.editing_group is Some && in_group_hit is Some {
            post == (ToolModel {
                selected_index: in_group_hit,
                selected_bool_group: None,
                select_drag_start: Some(pos),
                ..pre
            }) && out == ToolOutcome::<Pt>::SelectShape(in_group_hit)
        } else {
            let base = if pre.editing_group is Some {
                ToolModel {
                    editing_group: None,
                    selected_index: None,
                    selected_bool_group: None,
                    ..pre
                }
            } else {
                pre
            };
            match any_hit {
                Some(HitTarget::BoolGroup(g)) => post == (ToolModel {
                    selected_bool_group: Some(g),
                    selected_index: None,
                    select_drag_start: None,
                    ..base
                }) && out is RequestRedraw,
                Some(HitTarget::Shape(i)) => post == (ToolModel {
                    selected_index: Some(i),
                    selected_bool_group: None,
                    select_drag_start: Some(pos),
                    ..base
                }) && out == ToolOutcome::<Pt>::SelectShape(Some(i)),
                None => post == (ToolModel {
                    selected_index: None,
                    selected_bool_group: None,
                    ..base
                }) && out == ToolOutcome::<Pt>::SelectShape(None),
            }
        },
        ToolEvent::Drag(pos) => match (pre.selected_index, pre.select_drag_start) {
            (Some(_), Some(start)) => post == (ToolModel {
                select_drag_start: Some(pos),
                ..pre
            }) && out == ToolOutcome::MoveSelected(start, pos),
            _ => post == pre && out is Nothing,
        },
        ToolEvent::Release(_) => post == (ToolModel { select_drag_start: None, ..pre })
            && out is Nothing,
        _ => post == pre && out is Nothing,
    }
}

impl<Pt: Copy, St> ToolState<Pt, St> {
    /// A tool state with nothing in progress, drawing rectangles with `style`.
    pub fn new(style: St) -> (s: Self)
        ensures
            s@ == (ToolModel::<Pt, St> {
                drag_start: None,
                drag_current: None,
                selected_index: None,
                selected_bool_group: None,
                editing_group: None,
                select_drag_start: None,
                pen_anchors: Seq::empty(),
                pen_dragging: false,
                line_points: Seq::empty(),
                bool_selection: Seq::empty(),
                bool_op: BoolOp::Union,
                shape_type: ShapeType::Rectangle,
                current_style: style,
            }),
    {
        ToolState {
            drag_start: None,
            drag_current: None,
            selected_index: None,
            selected_bool_group: None,
            editing_group: None,
            select_drag_start: None,
            pen_anchors: Vec::new(),
            pen_dragging: false,
            line_points: Vec::new(),
            bool_selection: Vec::new(),
            bool_op: BoolOp::Union,
            shape_type: ShapeType::Rectangle,
            current_style: style,
        }
    }

    pub fn reset_drag(&mut self)
        ensures
            final(self)@ == (ToolModel { drag_start: None, drag_current: None, ..old(self)@ }),
    {
        self.drag_start = None;
        self.drag_current = None;
    }

    pub fn reset_pen(&mut self)
        ensures
            final(self)@ == (ToolModel {
                pen_anchors: Seq::empty(),
                pen_dragging: false,
                ..old(self)@
            }),
    {
        self.pen_anchors.clear();
        self.pen_dragging = false;
    }

    pub fn reset_line(&mut self)
        ensures
            final(self)@ == (ToolModel { line_points: Seq::empty(), ..old(self)@ }),
    {
        self.line_points.clear();
    }

    /// Leaves tool `current` for `next`: any drag stops, and a spline or
    /// polyline in progress is dropped when its tool is left.
    pub fn switch_tool(&mut self, current: Tool, next: Tool)
        ensures
            final(self)@ == (ToolModel {
                drag_start: None,
                drag_current: None,
                pen_anchors: if current == Tool::Spline && next != Tool::Spline {
                    Seq::empty()
                } else {
                    old(self)@.pen_anchors
                },
                pen_dragging: if current == Tool::Spline && next != Tool::Spline {
                    false
                } else {
                    old(self)@.pen_dragging
                },
                line_points: if current == Tool::Line && next != Tool::Line {
                    Seq::empty()
                } else {
                    old(self)@.line_points
                },
                ..old(self)@
            }),
    {
        self.reset_drag();
        if current == Tool::Spline && next != Tool::Spline {
            self.reset_pen();
        }
        if current == Tool::Line && next != Tool::Line {
            self.reset_line();
        }
    }

    /// The shape tool: a press starts a drag, moving updates it, and the
    /// release finishes it.
    pub fn shape_handle(&mut self, event: ToolEvent<Pt>) -> (out: ToolOutcome<Pt>)
        ensures
            ({
                let pre = old(self)@;
                let post = final(self)@;
                match event {
                    ToolEvent::Press(pos) => post == (ToolModel {
                        drag_start: Some(pos),
                        drag_current: Some(pos),
                        ..pre
                    }) && out is RequestRedraw,
                    ToolEvent::Drag(pos) | ToolEvent::Move(pos) => if pre.drag_start is Some {
                        post == (ToolModel { drag_current: Some(pos), ..pre }) && out is RequestRedraw
                    } else {
                        post == pre && out is Nothing
                    },
                    ToolEvent::Release(pos) => match pre.drag_start {
                        Some(start) => post == (ToolModel {
                            drag_start: None,
                            drag_current: None,
                            ..pre
                        }) && out == ToolOutcome::DragFinished(start, pos),
                        None => post == pre && out is Nothing,
                    },
                    _ => post == pre && out is Nothing,
                }
            }),
    {
        match event {
            ToolEvent::Press(pos) => {
                self.drag_start = Some(pos);
                self.drag_current = Some(pos);
                ToolOutcome::RequestRedraw
            },
            ToolEvent::Drag(pos) | ToolEvent::Move(pos) => {
                if self.drag_start.is_some() {
                    self.drag_current = Some(pos);
                    ToolOutcome::RequestRedraw
                } else {
                    ToolOutcome::Nothing
                }
            },
            ToolEvent::Release(pos) => {
                match self.drag_start {
                    Some(start) => {
                        self.drag_start = None;
                        self.drag_current = None;
                        ToolOutcome::DragFinished(start, pos)
                    },
                    None => ToolOutcome::Nothing,
                }
            },
            _ => ToolOutcome::Nothing,
        }
    }
    /// Finishes the polyline in progress: at least two points make one,
    /// fewer are dropped.
    fn finish_polyline(&mut self) -> (out: ToolOutcome<Pt>)
        ensures
            ({
                let pre = old(self)@;
                let post = final(self)@;
                if pre.line_points.len() < 2 {
                    post == (ToolModel { line_points: Seq::empty(), ..pre }) && out is Nothing
                } else {
                    &&& post == (ToolModel { line_points: Seq::empty(), drag_current: None, ..pre })
                    &&& out matches ToolOutcome::PolylineFinished(points)
                    &&& points@ == pre.line_points
                }
            }),
    {
        if self.line_points.len() < 2 {
            self.reset_line();
            return ToolOutcome::Nothing;
        }
        let mut points: Vec<Pt> = Vec::new();
        core::mem::swap(&mut points, &mut self.line_points);
        self.drag_current = None;
        ToolOutcome::PolylineFinished(points)
    }

    /// The line tool: each press adds a point; Enter or a right click
    /// finishes the polyline.
    pub fn line_handle(&mut self, event: ToolEvent<Pt>) -> (out: ToolOutcome<Pt>)
        ensures
            ({
                let pre = old(self)@;
                let post = final(self)@;
                match event {
                    ToolEvent::Press(pos) => post == (ToolModel {
                        line_points: pre.line_points.push(pos),
                        ..pre
                    }) && out is RequestRedraw,
                    ToolEvent::Move(pos) => if pre.line_points.len() > 0 {
                        post == (ToolModel { drag_current: Some(pos), ..pre }) && out is RequestRedraw
                    } else {
                        post == pre && out is Nothing
                    },
                    ToolEvent::KeyEnter | ToolEvent::RightClick(_) => if pre.line_points.len() < 2 {
                        post == (ToolModel { line_points: Seq::empty(), ..pre }) && out is Nothing
                    } else {
                        &&& post == (ToolModel {
                            line_points: Seq::empty(),
                            drag_current: None,
                            ..pre
                        })
                        &&& out matches ToolOutcome::PolylineFinished(points)
                        &&& points@ == pre.line_points
                    },
                    _ => post == pre && out is Nothing,
                }
            }),
    {
        match event {
            ToolEvent::Press(pos) => {
                self.line_points.push(pos);
                ToolOutcome::RequestRedraw
            },
            ToolEvent::Move(pos) => {
                if !self.line_points.is_empty() {
                    self.drag_current = Some(pos);
                    ToolOutcome::RequestRedraw
                } else {
                    ToolOutcome::Nothing
                }
            },
            ToolEvent::KeyEnter | ToolEvent::RightClick(_) => self.finish_polyline(),
            _ => ToolOutcome::Nothing,
        }
    }

    /// Finishes the spline in progress: at least two anchors make one,
    /// fewer are dropped.
    fn finish_spline(&mut self) -> (out: ToolOutcome<Pt>)
        ensures
            ({
                let pre = old(self)@;
                let post = final(self)@;
                &&& post == (ToolModel { pen_anchors: Seq::empty(), pen_dragging: false, ..pre })
                &&& if pre.pen_anchors.len() < 2 {
                    out is Nothing
                } else {
                    out matches ToolOutcome::SplineFinished(segments) && segments@ == spline_segments(
                        pre.pen_anchors,
                    )
                }
            }),
    {
        if self.pen_anchors.len() < 2 {
            self.reset_pen();
            return ToolOutcome::Nothing;
        }
        let segments = build_segments(&self.pen_anchors);
        self.reset_pen();
        ToolOutcome::SplineFinished(segments)
    }

    /// The spline tool: a press adds an anchor, dragging pulls its outgoing
    /// handle to the pointer and its incoming handle to `reflected` (the
    /// pointer mirrored through the anchor), and Enter finishes the spline.
    pub fn pen_handle(&mut self, event: ToolEvent<Pt>, reflected: Option<Pt>) -> (out: ToolOutcome<Pt>)
        requires
            event is Drag && old(self).pen_dragging && old(self).pen_anchors@.len() > 0
                ==> reflected is Some,
        ensures
            ({
                let pre = old(self)@;
                let post = final(self)@;
                match event {
                    ToolEvent::Press(pos) => post == (ToolModel {
                        pen_dragging: true,
                        pen_anchors: pre.pen_anchors.push(
                            PenAnchor { point: pos, handle_in: pos, handle_out: pos },
                        ),
                        ..pre
                    }) && out is RequestRedraw,
                    ToolEvent::Drag(pos) => if pre.pen_dragging {
                        &&& out is RequestRedraw
                        &&& if pre.pen_anchors.len() > 0 {
                            let k = pre.pen_anchors.len() - 1;
                            post == (ToolModel {
                                pen_anchors: pre.pen_anchors.update(
                                    k,
                                    PenAnchor {
                                        point: pre.pen_anchors[k].point,
                                        handle_in: reflected->0,
                                        handle_out: pos,
                                    },
                                ),
                                ..pre
                            })
                        } else {
                            post == pre
                        }
                    } else {
                        post == pre && out is Nothing
                    },
                    ToolEvent::Release(_) => post == (ToolModel { pen_dragging: false, ..pre })
                        && out is RequestRedraw,
                    ToolEvent::Move(_) => post == pre && if pre.pen_anchors.len() > 0 {
                        out is RequestRedraw
                    } else {
                        out is Nothing
                    },
                    ToolEvent::KeyEnter => {
                        &&& post == (ToolModel {
                            pen_anchors: Seq::empty(),
                            pen_dragging: false,
                            ..pre
                        })
                        &&& if pre.pen_anchors.len() < 2 {
                            out is Nothing
                        } else {
                            out matches ToolOutcome::SplineFinished(segments) && segments@
                                == spline_segments(pre.pen_anchors)
                        }
                    },
                    ToolEvent::RightClick(_) => post == pre && out is Nothing,
                }
            }),
    {
        match event {
            ToolEvent::Press(pos) => {
                // Start a new anchor
                self.pen_dragging = true;
                self.pen_anchors.push(PenAnchor { point: pos, handle_in: pos, handle_out: pos });
                ToolOutcome::RequestRedraw
            },
            ToolEvent::Drag(pos) => {
                // Adjust tangent handles of current anchor
                if self.pen_dragging {
                    if self.pen_anchors.len() > 0 {
                        let k = self.pen_anchors.len() - 1;
                        let mirrored = match reflected {
                            Some(r) => r,
                            None => pos,
                        };
                        self.pen_anchors[k].handle_out = pos;
                        self.pen_anchors[k].handle_in = mirrored;
                    }
                    ToolOutcome::RequestRedraw
                } else {
                    ToolOutcome::Nothing
                }
            },
            ToolEvent::Release(_) => {
                self.pen_dragging = false;
                ToolOutcome::RequestRedraw
            },
            ToolEvent::Move(_) => {
                if !self.pen_anchors.is_empty() {
                    ToolOutcome::RequestRedraw
                } else {
                    ToolOutcome::Nothing
                }
            },
            ToolEvent::KeyEnter => self.finish_spline(),
            ToolEvent::RightClick(_) => ToolOutcome::Nothing,
        }
    }

    /// The select tool. `in_group_hit` is the shape of the group being
    /// edited that the press hits (see `Document::hit_test_in_group`), and
    /// `any_hit` the group or free shape it hits (`Document::hit_test_any`).
    /// A press inside the edited group selects the shape; a press elsewhere
    /// stops editing the group and selects what it hits; a drag moves the
    /// selected shape.
    pub fn select_handle(
        &mut self,
        event: ToolEvent<Pt>,
        in_group_hit: Option<usize>,
        any_hit: Option<HitTarget>,
    ) -> (out: ToolOutcome<Pt>)
        ensures
            select_step(old(self)@, event, in_group_hit, any_hit, final(self)@, out),
    {
        match event {
            ToolEvent::Press(pos) => {
                // If we're editing a boolean group, hit test within that group
                if self.editing_group.is_some() {
                    if let Some(shape_idx) = in_group_hit {
                        self.selected_index = Some(shape_idx);
                        self.selected_bool_group = None;
                        self.select_drag_start = Some(pos);
                        return ToolOutcome::SelectShape(Some(shape_idx));
                    } else {
                        // Clicked outside group: exit editing mode
                        self.editing_group = None;
                        self.selected_index = None;
                        self.selected_bool_group = None;
                        // Fall through to normal hit test below
                    }
                }
                // Normal hit test: boolean groups first, then free shapes
                match any_hit {
                    Some(HitTarget::BoolGroup(group_idx)) => {
                        self.selected_bool_group = Some(group_idx);
                        self.selected_index = None;
                        self.select_drag_start = None;
                        ToolOutcome::RequestRedraw
                    },
                    Some(HitTarget::Shape(idx)) => {
                        self.selected_index = Some(idx);
                        self.selected_bool_group = None;
                        self.select_drag_start = Some(pos);
                        ToolOutcome::SelectShape(Some(idx))
                    },
                    None => {
                        self.selected_index = None;
                        self.selected_bool_group = None;
                        ToolOutcome::SelectShape(None)
                    },
                }
            },
            ToolEvent::Drag(pos) => {
                match (self.selected_index, self.select_drag_start) {
                    (Some(_), Some(drag_start)) => {
                        self.select_drag_start = Some(pos);
                        ToolOutcome::MoveSelected(drag_start, pos)
                    },
                    _ => ToolOutcome::Nothing,
                }
            },
            ToolEvent::Release(_) => {
                self.select_drag_start = None;
                ToolOutcome::Nothing
            },
            _ => ToolOutcome::Nothing,
        }
    }

    /// The boolean tool. `hit` is the free shape a press hits, with its
    /// kind (`Document::hit_test`). Closed shapes are collected; the second
    /// one asks for a group of the two (unless it is the first again), and
    /// a right click drops the collection.
    pub fn bool_handle(&mut self, event: ToolEvent<Pt>, hit: Option<(usize, ShapeKind)>) -> (out: ToolOutcome<Pt>)
        ensures
            ({
                let pre = old(self)@;
                let post = final(self)@;
                match event {
                    ToolEvent::Press(_) => match hit {
                        Some((idx, kind)) => if spec_is_closed_shape(kind) {
                            let sel = pre.bool_selection.push(idx);
                            if sel.len() >= 2 {
                                &&& post == (ToolModel { bool_selection: Seq::empty(), ..pre })
                                &&& out == if sel[0] != sel[1] {
                                    ToolOutcome::<Pt>::CreateBooleanGroup(sel[0], sel[1], pre.bool_op)
                                } else {
                                    ToolOutcome::<Pt>::SelectShape(Some(idx))
                                }
                            } else {
                                post == (ToolModel { bool_selection: sel, ..pre })
                                    && out == ToolOutcome::<Pt>::SelectShape(Some(idx))
                            }
                        } else {
                            post == pre && out is Nothing
                        },
                        None => post == pre && out is Nothing,
                    },
                    ToolEvent::RightClick(_) => post == (ToolModel {
                        bool_selection: Seq::empty(),
                        ..pre
                    }) && out is RequestRedraw,
                    _ => post == pre && out is Nothing,
                }
            }),
    {
        match event {
            ToolEvent::Press(_) => {
                if let Some((idx, kind)) = hit {
                    // Only allow closed shapes
                    if is_closed_shape(kind) {
                        self.bool_selection.push(idx);
                        if self.bool_selection.len() >= 2 {
                            let a = self.bool_selection[0];
                            let b = self.bool_selection[1];
                            self.bool_selection.clear();
                            if a != b {
                                return ToolOutcome::CreateBooleanGroup(a, b, self.bool_op);
                            }
                        }
                        return ToolOutcome::SelectShape(Some(idx));
                    }
                }
                ToolOutcome::Nothing
            },
            ToolEvent::RightClick(_) => {
                // Cancel current selection
                self.bool_selection.clear();
                ToolOutcome::RequestRedraw
            },
            _ => ToolOutcome::Nothing,
        }
    }

    /// What to draw for the work in progress of `tool`.
    pub fn preview(&self, tool: Tool) -> (p: ToolPreview<Pt>)
        ensures
            match tool {
                Tool::Shape => match (self.drag_start, self.drag_current) {
                    (Some(start), Some(current)) => p == ToolPreview::Drag(start, current),
                    _ => p is Nothing,
                },
                Tool::Line => if self.line_points@.len() == 0 {
                    p is Nothing
                } else {
                    p matches ToolPreview::PolylineInProgress(points) && points@ == self.line_points@
                },
                Tool::Spline => if self.pen_anchors@.len() == 0 {
                    p is Nothing
                } else {
                    p matches ToolPreview::PenInProgress(anchors) && anchors@ == self.pen_anchors@
                },
                Tool::Select => p is Nothing,
            },
    {
        match tool {
            Tool::Shape => match (self.drag_start, self.drag_current) {
                (Some(start), Some(current)) => ToolPreview::Drag(start, current),
                _ => ToolPreview::Nothing,
            },
            Tool::Line => {
                if self.line_points.is_empty() {
                    ToolPreview::Nothing
                } else {
                    ToolPreview::PolylineInProgress(copy_all(&self.line_points))
                }
            },
            Tool::Spline => {
                if self.pen_anchors.is_empty() {
                    ToolPreview::Nothing
                } else {
                    ToolPreview::PenInProgress(copy_all(&self.pen_anchors))
                }
            },
            Tool::Select => ToolPreview::Nothing,
        }
    }
}

/// A press that hits no group and no free shape (and, while a group is
/// edited, none of its shapes) leaves nothing selected, whatever was
/// selected before, and stops editing any group.
pub proof fn law_press_on_nothing_deselects<Pt, St>(
    pre: ToolModel<Pt, St>,
    pos: Pt,
    in_group_hit: Option<usize>,
    post: ToolModel<Pt, St>,
    out: ToolOutcome<Pt>,
)
    requires
        select_step(pre, ToolEvent::Press(pos), in_group_hit, None, post, out),
        pre.editing_group is None || in_group_hit is None,
    ensures
        post.selected_index is None,
        post.selected_bool_group is None,
        post.editing_group is None,
        out == ToolOutcome::<Pt>::SelectShape(None),
{
}

/// A press on a free shape, outside any edited group, selects that shape
/// (and no group) and starts a drag from the press.
pub proof fn law_press_on_shape_selects_it<Pt, St>(
    pre: ToolModel<Pt, St>,
    pos: Pt,
    in_group_hit: Option<usize>,
    i: usize,
    post: ToolModel<Pt, St>,
    out: ToolOutcome<Pt>,
)
    requires
        select_step(pre, ToolEvent::Press(pos), in_group_hit, Some(HitTarget::Shape(i)), post, out),
        pre.editing_group is None || in_group_hit is None,
    ensures
        post.selected_index == Some(i),
        post.selected_bool_group is None,
        post.select_drag_start == Some(pos),
        post.editing_group is None,
        out == ToolOutcome::<Pt>::SelectShape(Some(i)),
{
}

/// A press on a group's outline, outside any edited group, selects the
/// group and no shape, and starts no drag.
pub proof fn law_press_on_group_selects_it<Pt, St>(
    pre: ToolModel<Pt, St>,
    pos: Pt,
    in_group_hit: Option<usize>,
    g: usize,
    post: ToolModel<Pt, St>,
    out: ToolOutcome<Pt>,
)
    requires
        select_step(pre, ToolEvent::Press(pos), in_group_hit, Some(HitTarget::BoolGroup(g)), post, out),
        pre.editing_group is None || in_group_hit is None,
    ensures
        post.selected_bool_group == Some(g),
        post.selected_index is None,
        post.select_drag_start is None,
        post.editing_group is None,
        out is RequestRedraw,
{
}

/// While a group is edited, a press on one of its shapes selects that
/// shape, keeps editing the group, and ignores what else the press hits.
pub proof fn law_press_inside_edited_group<Pt, St>(
    pre: ToolModel<Pt, St>,
    pos: Pt,
    i: usize,
    any_hit: Option<HitTarget>,
    post: ToolModel<Pt, St>,
    out: ToolOutcome<Pt>,
)
    requires
        pre.editing_group is Some,
        select_step(pre, ToolEvent::Press(pos), Some(i), any_hit, post, out),
    ensures
        post.selected_index == Some(i),
        post.selected_bool_group is None,
        post.editing_group == pre.editing_group,
        post.select_drag_start == Some(pos),
        out == ToolOutcome::<Pt>::SelectShape(Some(i)),
{
}

/// A drag with a shape selected asks to move it from where the last press
/// or drag was to the new position, which becomes the drag's start; the
/// selection does not change. Without a selection or a drag, nothing moves.
pub proof fn law_drag_moves_selection<Pt, St>(
    pre: ToolModel<Pt, St>,
    pos: Pt,
    post: ToolModel<Pt, St>,
    out: ToolOutcome<Pt>,
)
    requires
        select_step(pre, ToolEvent::Drag(pos), None, None, post, out),
    ensures
        post.selected_index == pre.selected_index,
        post.selected_bool_group == pre.selected_bool_group,
        pre.selected_index is Some && pre.select_drag_start is Some ==> out == ToolOutcome::MoveSelected(
            pre.select_drag_start->0,
            pos,
        ) && post.select_drag_start == Some(pos),
        !(pre.selected_index is Some && pre.select_drag_start is Some) ==> out is Nothing && post
            == pre,
{
}

} // verus!
