//! The document together with the tool state that points into it: the
//! edits that change the number of shapes or the selection, made so that
//! the selected shape index always names a shape of the document.

use vstd::prelude::*;

use crate::boolean::BoolOp;
use crate::document::{Document, Followup};
use crate::shape::ShapeEntry;
use crate::tool::{select_step, ShapeType, ToolEvent, ToolModel, ToolOutcome, ToolState};

verus! {

/// A document and the tools working on it.
pub struct Editor<P, D, St, R, Pt> {
    pub document: Document<P, D, St, R>,
    pub tools: ToolState<Pt, St>,
}

impl<P: Clone, D: Copy, St: Clone, R: Clone, Pt: Copy> Editor<P, D, St, R, Pt> {
    /// The selected shape, if any, is a shape of the document.
    pub open spec fn selection_in_range(self) -> bool {
        self.tools.selected_index matches Some(i) ==> i < self.document@.shapes.len()
    }

    /// The document is well formed and the selection names one of its shapes.
    pub open spec fn wf(self) -> bool {
        self.document@.wf() && self.selection_in_range()
    }

    /// An empty document, nothing selected, drawing with `style`.
    pub fn new(style: St) -> (e: Self)
        ensures
            e.wf(),
            e.document@.shapes.len() == 0,
            e.document@.groups.len() == 0,
            e.document@.undo.len() == 0,
            e.document@.redo.len() == 0,
            e.tools@ == (ToolModel::<Pt, St> {
                drag_start: None,
                drag_current: None,
                selected_index: None,
                selected_bool_group: None,
                editing_group: None,
                select_drag_start: None,
                pen_anchors: Seq::empty(),
                pen_dragging: false,
                line_points: Seq::empty(),
                bool_selection: Seq::empty(),
                bool_op: BoolOp::Union,
                shape_type: ShapeType::Rectangle,
                current_style: style,
            }),
    {
        Editor { document: Document::new(), tools: ToolState::new(style) }
    }

    /// Adds a shape; the selection is kept.
    pub fn add_shape(&mut self, shape: ShapeEntry<P>)
        requires
            old(self).wf(),
        ensures
            final(self).wf(),
            old(self).document@.add_shape_post(shape, final(self).document@),
            final(self).tools@ == old(self).tools@,
    {
        self.document.add_shape(shape);
    }

    /// Deletes the selected shape, if one is selected, and clears the
    /// selection; hands back the deleted shape.
    pub fn delete_selected(&mut self) -> (removed: Option<ShapeEntry<P>>)
        requires
            old(self).wf(),
        ensures
            final(self).wf(),
            match old(self).tools.selected_index {
                Some(i) => {
                    &&& old(self).document@.remove_shape_post(i, final(self).document@, removed)
                    &&& final(self).tools@ == (ToolModel { selected_index: None, ..old(self).tools@ })
                },
                None => {
                    &&& removed is None
                    &&& final(self).document@ == old(self).document@
                    &&& final(self).tools@ == old(self).tools@
                },
            },
    {
        match self.tools.selected_index {
            Some(idx) => {
                let removed = self.document.remove_shape(idx);
                self.tools.selected_index = None;
                removed
            },
            None => None,
        }
    }

    /// Undoes the newest edit and clears the selection.
    pub fn undo(&mut self) -> (f: Followup<D>)
        requires
            old(self).wf(),
        ensures
            final(self).wf(),
            old(self).document@.undo_post(final(self).document@, f),
            final(self).tools@ == (ToolModel { selected_index: None, ..old(self).tools@ }),
    {
        let f = self.document.undo();
        self.tools.selected_index = None;
        f
    }

    /// Redoes the newest undone edit and clears the selection.
    pub fn redo(&mut self) -> (f: Followup<D>)
        requires
            old(self).wf(),
        ensures
            final(self).wf(),
            old(self).document@.redo_post(final(self).document@, f),
            final(self).tools@ == (ToolModel { selected_index: None, ..old(self).tools@ }),
    {
        let f = self.document.redo();
        self.tools.selected_index = None;
        f
    }

    /// Moves the shape at `idx` by `delta` (see `Document::move_shape`).
    pub fn move_shape(&mut self, idx: usize, delta: D) -> (f: Followup<D>)
        requires
            old(self).wf(),
        ensures
            final(self).wf(),
            old(self).document@.move_shape_post(idx, delta, final(self).document@, f),
            final(self).tools@ == old(self).tools@,
    {
        self.document.move_shape(idx, delta)
    }

    /// Replaces the shape at `idx` (see `Document::update_shape`).
    pub fn update_shape(&mut self, idx: usize, shape: ShapeEntry<P>) -> (f: Followup<D>)
        requires
            old(self).wf(),
        ensures
            final(self).wf(),
            old(self).document@.update_shape_post(idx, shape, final(self).document@, f),
            final(self).tools@ == old(self).tools@,
    {
        self.document.update_shape(idx, shape)
    }

    /// The select tool on the document: a press is tested against the
    /// group being edited and then against all groups and free shapes,
    /// given which groups (`group_hits`) and shapes (`shape_hits`) the
    /// point hits; the hit flags are read for a press only.
    pub fn select_event(
        &mut self,
        event: ToolEvent<Pt>,
        group_hits: &Vec<bool>,
        shape_hits: &Vec<bool>,
    ) -> (out: ToolOutcome<Pt>)
        requires
            old(self).wf(),
            event is Press ==> group_hits@.len() == old(self).document@.groups.len()
                && shape_hits@.len() == old(self).document@.shapes.len(),
        ensures
            final(self).wf(),
            final(self).document@ == old(self).document@,
            event is Press ==> exists|any_hit|
                #![trigger old(self).document@.is_any_hit(group_hits@, shape_hits@, any_hit)]
                {
                    &&& old(self).document@.is_any_hit(group_hits@, shape_hits@, any_hit)
                    &&& select_step(
                        old(self).tools@,
                        event,
                        match old(self).tools.editing_group {
                            Some(g) => old(self).document@.in_group_hit(g, shape_hits@),
                            None => None,
                        },
                        any_hit,
                        final(self).tools@,
                        out,
                    )
                },
            !(event is Press) ==> select_step(old(self).tools@, event, None, None, final(self).tools@, out),
    {
        match event {
            ToolEvent::Press(_) => {
                let in_group_hit = match self.tools.editing_group {
                    Some(g) => self.document.hit_test_in_group(g, shape_hits),
                    None => None,
                };
                let any_hit = self.document.hit_test_any(group_hits, shape_hits);
                self.tools.select_handle(event, in_group_hit, any_hit)
            },
            _ => self.tools.select_handle(event, None, None),
        }
    }
}

} // verus!
