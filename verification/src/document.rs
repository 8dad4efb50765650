//! The editor document: its shapes, the boolean groups over them, which
//! group each shape belongs to, and the undo and redo history.
//!
//! Geometry is carried but not read: `P` is a shape's geometry and style,
//! `D` the offset of a move, `St` the style of a boolean group and `R` its
//! cached outline. Work that needs the geometry (moving a shape, computing a
//! group's outline) is handed back to the caller as a [`Followup`].

use vstd::prelude::*;

use crate::boolean::{is_closed_shape, spec_is_closed_shape, BoolOp, BooleanGroup};
use crate::shape::ShapeEntry;

verus! {

/// One undoable edit, as recorded on the undo and redo stacks.
pub enum Command<P, D, St, R> {
    AddShape(usize, ShapeEntry<P>),
    RemoveShape(usize, ShapeEntry<P>),
    MoveShape(usize, D),
    /// index, old shape, new shape
    UpdateShape(usize, ShapeEntry<P>, ShapeEntry<P>),
    CreateBooleanGroup(usize, BooleanGroup<St, R>),
    DissolveBooleanGroup(usize, BooleanGroup<St, R>),
    /// group index, old operation, new operation
    ChangeBooleanOp(usize, BoolOp, BoolOp),
}

/// Distinguishes whether a hit landed on a free shape or a boolean group.
#[derive(Debug, Clone, Copy, PartialEq, Eq, Structural)]
pub enum HitTarget {
    Shape(usize),
    BoolGroup(usize),
}

/// Work on the geometry that an edit leaves to the caller, in this order:
/// move the shape at `index` by `delta` (by its opposite when `reverse`),
/// then recompute the outline of the group `recompute`.
#[derive(PartialEq, Eq, Structural)]
pub enum Followup<D> {
    Nothing,
    Recompute(usize),
    Translate { index: usize, delta: D, reverse: bool, recompute: Option<usize> },
}

pub struct Document<P, D, St, R> {
    pub shapes: Vec<ShapeEntry<P>>,
    pub boolean_groups: Vec<BooleanGroup<St, R>>,
    /// parallel to `shapes`; `Some(group_idx)` if the shape is in a group
    pub group_membership: Vec<Option<usize>>,
    /// the edits that undo takes back, newest last
    pub undo_stack: Vec<Command<P, D, St, R>>,
    /// the undone edits that redo puts back, newest last
    pub redo_stack: Vec<Command<P, D, St, R>>,
}

/// The abstract state of a [`Document`].
#[verifier::ext_equal]
pub struct DocModel<P, D, St, R> {
    pub shapes: Seq<ShapeEntry<P>>,
    pub groups: Seq<BooleanGroup<St, R>>,
    pub membership: Seq<Option<usize>>,
    pub undo: Seq<Command<P, D, St, R>>,
    pub redo: Seq<Command<P, D, St, R>>,
}

impl<P, D, St, R> View for Document<P, D, St, R> {
    type V = DocModel<P, D, St, R>;

    open spec fn view(&self) -> DocModel<P, D, St, R> {
        DocModel {
            shapes: self.shapes@,
            groups: self.boolean_groups@,
            membership: self.group_membership@,
            undo: self.undo_stack@,
            redo: self.redo_stack@,
        }
    }
}

// ---------------------------------------------------------------------------
// Membership entries and group indices after an edit
// ---------------------------------------------------------------------------

/// A membership entry after group `g` is removed: members of `g` leave,
/// members of later groups follow their group down by one.
pub open spec fn dissolved(x: Option<usize>, g: usize) -> Option<usize> {
    match x {
        Some(h) => if h == g {
            None
        } else if h > g {
            Some((h - 1) as usize)
        } else {
            Some(h)
        },
        None => None,
    }
}

/// A membership entry after the group at `g` is removed, its members having
/// been cleared already.
pub open spec fn lowered(x: Option<usize>, g: usize) -> Option<usize> {
    match x {
        Some(h) => if h > g {
            Some((h - 1) as usize)
        } else {
            Some(h)
        },
        None => None,
    }
}

/// A membership entry after a group is inserted at `g`.
pub open spec fn raised(x: Option<usize>, g: usize) -> Option<usize> {
    match x {
        Some(h) => if h >= g {
            Some((h + 1) as usize)
        } else {
            Some(h)
        },
        None => None,
    }
}

/// `m` with entry `i` set to `v`, when there is such an entry.
pub open spec fn set_entry(m: Seq<Option<usize>>, i: usize, v: Option<usize>) -> Seq<Option<usize>> {
    if i < m.len() {
        m.update(i as int, v)
    } else {
        m
    }
}

/// A shape index after the shape at `removed` is taken out.
pub open spec fn index_after_removal(i: usize, removed: usize) -> usize {
    if i > removed {
        (i - 1) as usize
    } else {
        i
    }
}

/// A group after the shape at `removed` is taken out of the document.
pub open spec fn group_after_removal<St, R>(g: BooleanGroup<St, R>, removed: usize) -> BooleanGroup<St, R> {
    BooleanGroup {
        op: g.op,
        shape_a: index_after_removal(g.shape_a, removed),
        shape_b: index_after_removal(g.shape_b, removed),
        style: g.style,
        cached_result: g.cached_result,
    }
}

/// A group with another operation.
pub open spec fn group_with_op<St, R>(g: BooleanGroup<St, R>, op: BoolOp) -> BooleanGroup<St, R> {
    BooleanGroup { op, shape_a: g.shape_a, shape_b: g.shape_b, style: g.style, cached_result: g.cached_result }
}

/// A group with another cached outline.
pub open spec fn group_with_result<St, R>(g: BooleanGroup<St, R>, r: R) -> BooleanGroup<St, R> {
    BooleanGroup { op: g.op, shape_a: g.shape_a, shape_b: g.shape_b, style: g.style, cached_result: r }
}

/// `r` is the topmost (last) index at which `s` holds, or `None` if it holds nowhere.
pub open spec fn is_topmost(s: Seq<bool>, r: Option<usize>) -> bool {
    match r {
        Some(i) => i < s.len() && s[i as int] && forall|j: int| i < j < s.len() ==> !s[j],
        None => forall|j: int| 0 <= j < s.len() ==> !s[j],
    }
}

/// The topmost index at which `s` holds.
fn topmost(s: &Vec<bool>) -> (r: Option<usize>)
    ensures
        is_topmost(s@, r),
{
    let mut i = s.len();
    while i > 0
        invariant
            i <= s@.len(),
            forall|j: int| i <= j < s@.len() ==> !s@[j],
        decreases i,
    {
        i -= 1;
        if s[i] {
            return Some(i);
        }
    }
    None
}

// ---------------------------------------------------------------------------
// The history is consistent with the number of groups
// ---------------------------------------------------------------------------

/// Undoing the commands of `u`, last first, starting with `n` groups, never
/// inserts a group past the end and always finds the group it removes.
pub open spec fn undo_consistent<P, D, St, R>(u: Seq<Command<P, D, St, R>>, n: nat) -> bool
    decreases u.len(),
{
    if u.len() == 0 {
        true
    } else {
        match u.last() {
            Command::CreateBooleanGroup(i, _) => i + 1 == n && undo_consistent(
                u.drop_last(),
                (n - 1) as nat,
            ),
            Command::DissolveBooleanGroup(i, _) => i <= n && undo_consistent(u.drop_last(), n + 1),
            _ => undo_consistent(u.drop_last(), n),
        }
    }
}

/// Redoing the commands of `r`, last first, starting with `n` groups, never
/// inserts a group past the end and always finds the group it removes.
pub open spec fn redo_consistent<P, D, St, R>(r: Seq<Command<P, D, St, R>>, n: nat) -> bool
    decreases r.len(),
{
    if r.len() == 0 {
        true
    } else {
        match r.last() {
            Command::CreateBooleanGroup(i, _) => i == n && redo_consistent(r.drop_last(), n + 1),
            Command::DissolveBooleanGroup(i, _) => i < n && redo_consistent(
                r.drop_last(),
                (n - 1) as nat,
            ),
            _ => redo_consistent(r.drop_last(), n),
        }
    }
}

proof fn lemma_undo_push<P, D, St, R>(u: Seq<Command<P, D, St, R>>, c: Command<P, D, St, R>, n: nat)
    ensures
        undo_consistent(u.push(c), n) == match c {
            Command::CreateBooleanGroup(i, _) => i + 1 == n && undo_consistent(u, (n - 1) as nat),
            Command::DissolveBooleanGroup(i, _) => i <= n && undo_consistent(u, n + 1),
            _ => undo_consistent(u, n),
        },
{
    assert(u.push(c).drop_last() =~= u);
}

proof fn lemma_redo_push<P, D, St, R>(r: Seq<Command<P, D, St, R>>, c: Command<P, D, St, R>, n: nat)
    ensures
        redo_consistent(r.push(c), n) == match c {
            Command::CreateBooleanGroup(i, _) => i == n && redo_consistent(r, n + 1),
            Command::DissolveBooleanGroup(i, _) => i < n && redo_consistent(r, (n - 1) as nat),
            _ => redo_consistent(r, n),
        },
{
    assert(r.push(c).drop_last() =~= r);
}

// ---------------------------------------------------------------------------
// The abstract edits
// ---------------------------------------------------------------------------

impl<P, D, St, R> DocModel<P, D, St, R> {
    /// Every membership entry names a group index at most the number of
    /// groups (an entry may be left pointing just past the last group when
    /// the history is replayed over an inconsistent group).
    pub open spec fn membership_bounded(self) -> bool {
        forall|i: int|
            0 <= i < self.membership.len() ==> (#[trigger] self.membership[i] matches Some(g) ==> g
                <= self.groups.len())
    }

    /// Well-formedness of a document: membership runs parallel to the
    /// shapes, its entries are bounded, and both stacks can be replayed.
    pub open spec fn wf(self) -> bool {
        &&& self.membership.len() == self.shapes.len()
        &&& self.membership_bounded()
        &&& undo_consistent(self.undo, self.groups.len())
        &&& redo_consistent(self.redo, self.groups.len())
    }

    /// The same document with `c` pushed as the newest undoable command and
    /// the redo stack emptied.
    pub open spec fn records(self, post: Self, c: Command<P, D, St, R>) -> bool {
        post.undo == self.undo.push(c) && post.redo.len() == 0
    }

    /// The document after the boolean group `g` is dissolved.
    pub open spec fn dissolve_spec(self, g: usize) -> Self {
        if g < self.groups.len() {
            DocModel {
                shapes: self.shapes,
                groups: self.groups.remove(g as int),
                membership: self.membership.map_values(|x: Option<usize>| dissolved(x, g)),
                undo: self.undo.push(Command::DissolveBooleanGroup(g, self.groups[g as int])),
                redo: Seq::empty(),
            }
        } else {
            self
        }
    }

    /// Which shapes a point hits, keeping only those in no group, given
    /// which shapes it hits at all.
    pub open spec fn free_hits(self, hits: Seq<bool>) -> Seq<bool> {
        Seq::new(hits.len(), |i: int| hits[i] && self.membership[i] is None)
    }

    /// `r` is what the combined hit test gives: the topmost group hit, or
    /// else the topmost free shape hit, given which groups and shapes a
    /// point hits.
    pub open spec fn is_any_hit(self, group_hits: Seq<bool>, shape_hits: Seq<bool>, r: Option<HitTarget>) -> bool {
        match r {
            Some(HitTarget::BoolGroup(g)) => is_topmost(group_hits, Some(g)),
            Some(HitTarget::Shape(i)) => is_topmost(group_hits, None) && is_topmost(
                self.free_hits(shape_hits),
                Some(i),
            ),
            None => is_topmost(group_hits, None) && is_topmost(self.free_hits(shape_hits), None),
        }
    }

    /// The shape of group `group_idx` that a point hits, given which shapes
    /// it hits: the group's second shape (drawn on top) first, then its first.
    pub open spec fn in_group_hit(self, group_idx: usize, shape_hits: Seq<bool>) -> Option<usize> {
        if group_idx < self.groups.len() {
            let g = self.groups[group_idx as int];
            if g.shape_b < self.shapes.len() && shape_hits[g.shape_b as int] {
                Some(g.shape_b)
            } else if g.shape_a < self.shapes.len() && shape_hits[g.shape_a as int] {
                Some(g.shape_a)
            } else {
                None
            }
        } else {
            None
        }
    }

    /// The follow-up work after the shape at `idx` changed: recompute its group.
    pub open spec fn recompute_for(self, idx: usize) -> Followup<D> {
        match self.membership[idx as int] {
            Some(g) => Followup::Recompute(g),
            None => Followup::Nothing,
        }
    }
}

impl<P: Clone, D, St: Clone, R: Clone> DocModel<P, D, St, R> {
    /// `post` is the document after `shape` is added.
    pub open spec fn add_shape_post(self, shape: ShapeEntry<P>, post: Self) -> bool {
        &&& post.shapes == self.shapes.push(shape)
        &&& post.membership == self.membership.push(None)
        &&& post.groups == self.groups
        &&& post.undo.len() > 0
        &&& self.records(post, post.undo.last())
        &&& post.undo.last() matches Command::AddShape(i, c)
        &&& i == self.shapes.len()
        &&& shape.is_copy_of(c)
    }

    /// `post` is the document after the shape at `idx` is removed, and
    /// `removed` what the removal hands back.
    pub open spec fn remove_shape_post(
        self,
        idx: usize,
        post: Self,
        removed: Option<ShapeEntry<P>>,
    ) -> bool {
        if idx < self.shapes.len() {
            let mid = match self.membership[idx as int] {
                Some(g) => self.dissolve_spec(g),
                None => self,
            };
            &&& removed == Some(self.shapes[idx as int])
            &&& post.shapes == self.shapes.remove(idx as int)
            &&& post.membership == mid.membership.remove(idx as int)
            &&& post.groups == mid.groups.map_values(
                |g: BooleanGroup<St, R>| group_after_removal(g, idx),
            )
            &&& post.undo.len() > 0
            &&& mid.records(post, post.undo.last())
            &&& post.undo.last() matches Command::RemoveShape(i, c)
            &&& i == idx
            &&& self.shapes[idx as int].is_copy_of(c)
        } else {
            post == self && removed is None
        }
    }
    /// `post` is the document after the shape at `idx` is moved by `delta`,
    /// and `f` the work left to the caller.
    pub open spec fn move_shape_post(self, idx: usize, delta: D, post: Self, f: Followup<D>) -> bool {
        if idx < self.shapes.len() {
            &&& post.shapes == self.shapes
            &&& post.groups == self.groups
            &&& post.membership == self.membership
            &&& self.records(post, Command::MoveShape(idx, delta))
            &&& f == Followup::Translate {
                index: idx,
                delta,
                reverse: false,
                recompute: self.membership[idx as int],
            }
        } else {
            post == self && f == Followup::<D>::Nothing
        }
    }

    /// `post` is the document after the shape at `idx` is replaced by
    /// `shape`, and `f` the work left to the caller.
    pub open spec fn update_shape_post(
        self,
        idx: usize,
        shape: ShapeEntry<P>,
        post: Self,
        f: Followup<D>,
    ) -> bool {
        if idx < self.shapes.len() {
            &&& post.shapes == self.shapes.update(idx as int, shape)
            &&& post.groups == self.groups
            &&& post.membership == self.membership
            &&& post.undo.len() > 0
            &&& self.records(post, post.undo.last())
            &&& post.undo.last() matches Command::UpdateShape(i, old_copy, new_copy)
            &&& i == idx
            &&& self.shapes[idx as int].is_copy_of(old_copy)
            &&& shape.is_copy_of(new_copy)
            &&& f == self.recompute_for(idx)
        } else {
            post == self && f == Followup::<D>::Nothing
        }
    }

    /// The shapes `a` and `b` exist and are closed, so a boolean group can
    /// be made of them.
    pub open spec fn can_group(self, a: usize, b: usize) -> bool {
        &&& a < self.shapes.len()
        &&& b < self.shapes.len()
        &&& spec_is_closed_shape(self.shapes[a as int].kind)
        &&& spec_is_closed_shape(self.shapes[b as int].kind)
    }

    /// `post` is the document after a boolean group of `a` and `b` is asked for.
    pub open spec fn create_group_post(
        self,
        a: usize,
        b: usize,
        op: BoolOp,
        style: St,
        result: R,
        post: Self,
    ) -> bool {
        if self.can_group(a, b) {
            let g = BooleanGroup { op, shape_a: a, shape_b: b, style, cached_result: result };
            &&& post.shapes == self.shapes
            &&& post.groups == self.groups.push(g)
            &&& post.undo.len() > 0
            &&& self.records(post, post.undo.last())
            &&& post.undo.last() matches Command::CreateBooleanGroup(i, c)
            &&& i == self.groups.len()
            &&& g.is_copy_of(c)
            &&& post.membership == set_entry(set_entry(self.membership, a, Some(i)), b, Some(i))
        } else {
            post == self
        }
    }

    /// `post` is the document after group `g` is given the operation `op`.
    pub open spec fn change_op_post(self, g: usize, op: BoolOp, post: Self, f: Followup<D>) -> bool {
        if g < self.groups.len() {
            &&& post.shapes == self.shapes
            &&& post.groups == self.groups.update(g as int, group_with_op(self.groups[g as int], op))
            &&& post.membership == self.membership
            &&& self.records(post, Command::ChangeBooleanOp(g, self.groups[g as int].op, op))
            &&& f == Followup::<D>::Recompute(g)
        } else {
            post == self && f == Followup::<D>::Nothing
        }
    }
    /// `post` is the document after the newest command is undone, and `f`
    /// the work left to the caller. The command moves to the redo stack.
    pub open spec fn undo_post(self, post: Self, f: Followup<D>) -> bool {
        if self.undo.len() == 0 {
            post == self && f == Followup::<D>::Nothing
        } else {
            let cmd = self.undo.last();
            let len = self.shapes.len();
            let n = self.groups.len();
            &&& post.undo == self.undo.drop_last()
            &&& post.redo == self.redo.push(cmd)
            &&& match cmd {
                Command::AddShape(idx, _) => {
                    &&& post.groups == self.groups
                    &&& f == Followup::<D>::Nothing
                    &&& if idx < len {
                        post.shapes == self.shapes.remove(idx as int) && post.membership
                            == self.membership.remove(idx as int)
                    } else {
                        post.shapes == self.shapes && post.membership == self.membership
                    }
                },
                Command::RemoveShape(idx, c) => {
                    let i = if idx < len {
                        idx as int
                    } else {
                        len as int
                    };
                    &&& post.shapes.len() == len + 1
                    &&& post.shapes == self.shapes.insert(i, post.shapes[i])
                    &&& c.is_copy_of(post.shapes[i])
                    &&& post.membership == self.membership.insert(i, None)
                    &&& post.groups == self.groups
                    &&& f == Followup::<D>::Nothing
                },
                Command::MoveShape(idx, delta) => {
                    &&& post.shapes == self.shapes
                    &&& post.groups == self.groups
                    &&& post.membership == self.membership
                    &&& f == if idx < len {
                        Followup::Translate {
                            index: idx,
                            delta,
                            reverse: true,
                            recompute: self.membership[idx as int],
                        }
                    } else {
                        Followup::<D>::Nothing
                    }
                },
                Command::UpdateShape(idx, old_shape, _) => {
                    &&& post.groups == self.groups
                    &&& post.membership == self.membership
                    &&& if idx < len {
                        &&& post.shapes.len() == len
                        &&& post.shapes == self.shapes.update(idx as int, post.shapes[idx as int])
                        &&& old_shape.is_copy_of(post.shapes[idx as int])
                        &&& f == self.recompute_for(idx)
                    } else {
                        post.shapes == self.shapes && f == Followup::<D>::Nothing
                    }
                },
                Command::CreateBooleanGroup(gi, _) => {
                    &&& post.shapes == self.shapes
                    &&& f == Followup::<D>::Nothing
                    &&& if gi < n {
                        let g = self.groups[gi as int];
                        &&& post.groups == self.groups.remove(gi as int)
                        &&& post.membership == set_entry(
                            set_entry(self.membership, g.shape_a, None),
                            g.shape_b,
                            None,
                        ).map_values(|x: Option<usize>| lowered(x, gi))
                    } else {
                        post.groups == self.groups && post.membership == self.membership
                    }
                },
                Command::DissolveBooleanGroup(gi, g) => {
                    &&& post.shapes == self.shapes
                    &&& f == Followup::<D>::Nothing
                    &&& post.groups.len() == n + 1
                    &&& post.groups == self.groups.insert(gi as int, post.groups[gi as int])
                    &&& g.is_copy_of(post.groups[gi as int])
                    &&& post.membership == set_entry(
                        set_entry(
                            self.membership.map_values(|x: Option<usize>| raised(x, gi)),
                            g.shape_a,
                            Some(gi),
                        ),
                        g.shape_b,
                        Some(gi),
                    )
                },
                Command::ChangeBooleanOp(gi, old_op, _) => {
                    &&& post.shapes == self.shapes
                    &&& post.membership == self.membership
                    &&& if gi < n {
                        post.groups == self.groups.update(
                            gi as int,
                            group_with_op(self.groups[gi as int], old_op),
                        ) && f == Followup::<D>::Recompute(gi)
                    } else {
                        post.groups == self.groups && f == Followup::<D>::Nothing
                    }
                },
            }
        }
    }
    /// `post` is the document after the newest undone command is redone,
    /// and `f` the work left to the caller. The command moves back to the
    /// undo stack.
    pub open spec fn redo_post(self, post: Self, f: Followup<D>) -> bool {
        if self.redo.len() == 0 {
            post == self && f == Followup::<D>::Nothing
        } else {
            let cmd = self.redo.last();
            let len = self.shapes.len();
            let n = self.groups.len();
            &&& post.redo == self.redo.drop_last()
            &&& post.undo == self.undo.push(cmd)
            &&& match cmd {
                Command::AddShape(_, c) => {
                    &&& post.shapes.len() == len + 1
                    &&& post.shapes == self.shapes.push(post.shapes[len as int])
                    &&& c.is_copy_of(post.shapes[len as int])
                    &&& post.membership == self.membership.push(None)
                    &&& post.groups == self.groups
                    &&& f == Followup::<D>::Nothing
                },
                Command::RemoveShape(idx, _) => {
                    &&& post.groups == self.groups
                    &&& f == Followup::<D>::Nothing
                    &&& if idx < len {
                        post.shapes == self.shapes.remove(idx as int) && post.membership
                            == self.membership.remove(idx as int)
                    } else {
                        post.shapes == self.shapes && post.membership == self.membership
                    }
                },
                Command::MoveShape(idx, delta) => {
                    &&& post.shapes == self.shapes
                    &&& post.groups == self.groups
                    &&& post.membership == self.membership
                    &&& f == if idx < len {
                        Followup::Translate {
                            index: idx,
                            delta,
                            reverse: false,
                            recompute: self.membership[idx as int],
                        }
                    } else {
                        Followup::<D>::Nothing
                    }
                },
                Command::UpdateShape(idx, _, new_shape) => {
                    &&& post.groups == self.groups
                    &&& post.membership == self.membership
                    &&& if idx < len {
                        &&& post.shapes.len() == len
                        &&& post.shapes == self.shapes.update(idx as int, post.shapes[idx as int])
                        &&& new_shape.is_copy_of(post.shapes[idx as int])
                        &&& f == self.recompute_for(idx)
                    } else {
                        post.shapes == self.shapes && f == Followup::<D>::Nothing
                    }
                },
                Command::CreateBooleanGroup(gi, g) => {
                    &&& post.shapes == self.shapes
                    &&& f == Followup::<D>::Nothing
                    &&& post.groups.len() == n + 1
                    &&& post.groups == self.groups.insert(gi as int, post.groups[gi as int])
                    &&& g.is_copy_of(post.groups[gi as int])
                    &&& post.membership == set_entry(
                        set_entry(self.membership, g.shape_a, Some(gi)),
                        g.shape_b,
                        Some(gi),
                    )
                },
                Command::DissolveBooleanGroup(gi, g) => {
                    &&& post.shapes == self.shapes
                    &&& f == Followup::<D>::Nothing
                    &&& if gi < n {
                        &&& post.groups == self.groups.remove(gi as int)
                        &&& post.membership == set_entry(
                            set_entry(self.membership, g.shape_a, None),
                            g.shape_b,
                            None,
                        ).map_values(|x: Option<usize>| lowered(x, gi))
                    } else {
                        post.groups == self.groups && post.membership == self.membership
                    }
                },
                Command::ChangeBooleanOp(gi, _, new_op) => {
                    &&& post.shapes == self.shapes
                    &&& post.membership == self.membership
                    &&& if gi < n {
                        post.groups == self.groups.update(
                            gi as int,
                            group_with_op(self.groups[gi as int], new_op),
                        ) && f == Followup::<D>::Recompute(gi)
                    } else {
                        post.groups == self.groups && f == Followup::<D>::Nothing
                    }
                },
            }
        }
    }
}

// ---------------------------------------------------------------------------
// Executable edits
// ---------------------------------------------------------------------------

/// Applies `dissolved(_, g)` to every entry.
fn dissolve_entries(m: &mut Vec<Option<usize>>, g: usize)
    ensures
        final(m)@ == old(m)@.map_values(|x: Option<usize>| dissolved(x, g)),
{
    let ghost m0 = m@;
    let mut i: usize = 0;
    while i < m.len()
        invariant
            i <= m@.len(),
            m@.len() == m0.len(),
            forall|j: int| 0 <= j < i ==> m@[j] == dissolved(m0[j], g),
            forall|j: int| i <= j < m@.len() ==> m@[j] == m0[j],
        decreases m@.len() - i,
    {
        let next = match m[i] {
            Some(h) => if h == g {
                None
            } else if h > g {
                Some(h - 1)
            } else {
                Some(h)
            },
            None => None,
        };
        m.set(i, next);
        i += 1;
    }
    assert(m@ =~= m0.map_values(|x: Option<usize>| dissolved(x, g)));
}

/// Applies `lowered(_, g)` to every entry.
fn lower_entries(m: &mut Vec<Option<usize>>, g: usize)
    ensures
        final(m)@ == old(m)@.map_values(|x: Option<usize>| lowered(x, g)),
{
    let ghost m0 = m@;
    let mut i: usize = 0;
    while i < m.len()
        invariant
            i <= m@.len(),
            m@.len() == m0.len(),
            forall|j: int| 0 <= j < i ==> m@[j] == lowered(m0[j], g),
            forall|j: int| i <= j < m@.len() ==> m@[j] == m0[j],
        decreases m@.len() - i,
    {
        let next = match m[i] {
            Some(h) => if h > g {
                Some(h - 1)
            } else {
                Some(h)
            },
            None => None,
        };
        m.set(i, next);
        i += 1;
    }
    assert(m@ =~= m0.map_values(|x: Option<usize>| lowered(x, g)));
}

/// Applies `raised(_, g)` to every entry.
fn raise_entries(m: &mut Vec<Option<usize>>, g: usize)
    requires
        forall|j: int| 0 <= j < old(m)@.len() ==> (#[trigger] old(m)@[j] matches Some(h) ==> h < usize::MAX),
    ensures
        final(m)@ == old(m)@.map_values(|x: Option<usize>| raised(x, g)),
{
    let ghost m0 = m@;
    let mut i: usize = 0;
    while i < m.len()
        invariant
            i <= m@.len(),
            m@.len() == m0.len(),
            forall|j: int| 0 <= j < m0.len() ==> (#[trigger] m0[j] matches Some(h) ==> h < usize::MAX),
            forall|j: int| 0 <= j < i ==> m@[j] == raised(m0[j], g),
            forall|j: int| i <= j < m@.len() ==> m@[j] == m0[j],
        decreases m@.len() - i,
    {
        let next = match m[i] {
            Some(h) => if h >= g {
                Some(h + 1)
            } else {
                Some(h)
            },
            None => None,
        };
        m.set(i, next);
        i += 1;
    }
    assert(m@ =~= m0.map_values(|x: Option<usize>| raised(x, g)));
}

/// Moves the shape indices of every group down past the removed shape `idx`.
fn shift_group_indices<St, R>(groups: &mut Vec<BooleanGroup<St, R>>, idx: usize)
    ensures
        final(groups)@ == old(groups)@.map_values(|g: BooleanGroup<St, R>| group_after_removal(g, idx)),
{
    let ghost g0 = groups@;
    let mut k: usize = 0;
    while k < groups.len()
        invariant
            k <= groups@.len(),
            groups@.len() == g0.len(),
            forall|j: int| 0 <= j < k ==> groups@[j] == group_after_removal(g0[j], idx),
            forall|j: int| k <= j < groups@.len() ==> groups@[j] == g0[j],
        decreases groups@.len() - k,
    {
        if groups[k].shape_a > idx {
            groups[k].shape_a = groups[k].shape_a - 1;
        }
        if groups[k].shape_b > idx {
            groups[k].shape_b = groups[k].shape_b - 1;
        }
        k += 1;
    }
    assert(groups@ =~= g0.map_values(|g: BooleanGroup<St, R>| group_after_removal(g, idx)));
}

impl<P: Clone, D: Copy, St: Clone, R: Clone> Document<P, D, St, R> {
    proof fn lemma_undo_wf(&self, pre: DocModel<P, D, St, R>, f: Followup<D>)
        requires
            pre.wf(),
            pre.undo.len() > 0,
            pre.undo_post(self@, f),
        ensures
            self@.wf(),
    {
        let post = self@;
        let cmd = pre.undo.last();
        let n = pre.groups.len();
        lemma_redo_push(pre.redo, cmd, post.groups.len());
        match cmd {
            Command::AddShape(idx, _) => {
                assert forall|i: int| 0 <= i < post.membership.len() implies (
                #[trigger] post.membership[i] matches Some(g) ==> g <= post.groups.len()) by {
                    if idx < pre.shapes.len() && i >= idx {
                        assert(post.membership[i] == pre.membership[i + 1]);
                    } else {
                        assert(post.membership[i] == pre.membership[i]);
                    }
                }
            },
            Command::RemoveShape(idx, _) => {
                let k = if idx < pre.shapes.len() { idx as int } else { pre.shapes.len() as int };
                assert forall|i: int| 0 <= i < post.membership.len() implies (
                #[trigger] post.membership[i] matches Some(g) ==> g <= post.groups.len()) by {
                    if i < k {
                        assert(post.membership[i] == pre.membership[i]);
                    } else if i > k {
                        assert(post.membership[i] == pre.membership[i - 1]);
                    }
                }
            },
            Command::CreateBooleanGroup(gi, _) => {
                assert forall|i: int| 0 <= i < post.membership.len() implies (
                #[trigger] post.membership[i] matches Some(g) ==> g <= post.groups.len()) by {
                    assert(pre.membership[i] matches Some(h) ==> h <= n);
                }
            },
            Command::DissolveBooleanGroup(gi, g) => {
                assert forall|i: int| 0 <= i < post.membership.len() implies (
                #[trigger] post.membership[i] matches Some(h) ==> h <= post.groups.len()) by {
                    assert(pre.membership[i] matches Some(h) ==> h <= n);
                }
            },
            _ => {},
        }
    }

    proof fn lemma_redo_wf(&self, pre: DocModel<P, D, St, R>, f: Followup<D>)
        requires
            pre.wf(),
            pre.redo.len() > 0,
            pre.redo_post(self@, f),
        ensures
            self@.wf(),
    {
        let post = self@;
        let cmd = pre.redo.last();
        let n = pre.groups.len();
        lemma_undo_push(pre.undo, cmd, post.groups.len());
        match cmd {
            Command::AddShape(_, _) => {
                assert forall|i: int| 0 <= i < post.membership.len() implies (
                #[trigger] post.membership[i] matches Some(g) ==> g <= post.groups.len()) by {
                    if i < pre.membership.len() {
                        assert(post.membership[i] == pre.membership[i]);
                    }
                }
            },
            Command::RemoveShape(idx, _) => {
                assert forall|i: int| 0 <= i < post.membership.len() implies (
                #[trigger] post.membership[i] matches Some(g) ==> g <= post.groups.len()) by {
                    if idx < pre.shapes.len() && i >= idx {
                        assert(post.membership[i] == pre.membership[i + 1]);
                    } else {
                        assert(post.membership[i] == pre.membership[i]);
                    }
                }
            },
            Command::CreateBooleanGroup(gi, _) => {
                assert forall|i: int| 0 <= i < post.membership.len() implies (
                #[trigger] post.membership[i] matches Some(g) ==> g <= post.groups.len()) by {
                    assert(pre.membership[i] matches Some(h) ==> h <= n);
                }
            },
            Command::DissolveBooleanGroup(gi, _) => {
                assert forall|i: int| 0 <= i < post.membership.len() implies (
                #[trigger] post.membership[i] matches Some(g) ==> g <= post.groups.len()) by {
                    assert(pre.membership[i] matches Some(h) ==> h <= n);
                }
            },
            _ => {},
        }
    }
}

impl<P: Clone, D: Copy, St: Clone, R: Clone> Document<P, D, St, R> {
    pub fn new() -> (d: Self)
        ensures
            d@.shapes.len() == 0,
            d@.groups.len() == 0,
            d@.membership.len() == 0,
            d@.undo.len() == 0,
            d@.redo.len() == 0,
            d@.wf(),
    {
        Document {
            shapes: Vec::new(),
            boolean_groups: Vec::new(),
            group_membership: Vec::new(),
            undo_stack: Vec::new(),
            redo_stack: Vec::new(),
        }
    }

    /// Appends a shape, as a free shape, and records the edit.
    pub fn add_shape(&mut self, shape: ShapeEntry<P>)
        requires
            old(self)@.wf(),
        ensures
            final(self)@.wf(),
            old(self)@.add_shape_post(shape, final(self)@),
    {
        let idx = self.shapes.len();
        let copy = shape.duplicate();
        self.shapes.push(shape);
        self.group_membership.push(None);
        self.undo_stack.push(Command::AddShape(idx, copy));
        self.redo_stack.clear();
        proof {
            lemma_undo_push(old(self)@.undo, Command::AddShape(idx, copy), self@.groups.len());
            assert forall|i: int| 0 <= i < self@.membership.len() implies (
            #[trigger] self@.membership[i] matches Some(g) ==> g <= self@.groups.len()) by {
                if i < old(self)@.membership.len() {
                    assert(self@.membership[i] == old(self)@.membership[i]);
                }
            }
        }
    }

    /// Dissolves the boolean group `group_idx`, if there is one: its shapes
    /// become free again, and later groups move down by one.
    pub fn dissolve_boolean_group(&mut self, group_idx: usize)
        requires
            old(self)@.wf(),
        ensures
            final(self)@.wf(),
            final(self)@ == old(self)@.dissolve_spec(group_idx),
    {
        if group_idx >= self.boolean_groups.len() {
            return;
        }
        let ghost pre = self@;
        let group = self.boolean_groups.remove(group_idx);
        dissolve_entries(&mut self.group_membership, group_idx);
        self.undo_stack.push(Command::DissolveBooleanGroup(group_idx, group));
        self.redo_stack.clear();
        proof {
            let n = pre.groups.len();
            lemma_undo_push(pre.undo, Command::DissolveBooleanGroup(group_idx, group), (n - 1) as nat);
            assert forall|i: int| 0 <= i < self@.membership.len() implies (
            #[trigger] self@.membership[i] matches Some(g) ==> g <= self@.groups.len()) by {
                assert(pre.membership[i] matches Some(h) ==> h <= n);
            }
            assert(self@ =~= pre.dissolve_spec(group_idx));
        }
    }
    /// Removes the shape at `idx`, if there is one, and hands it back. A
    /// group the shape belongs to is dissolved first; group shape indices
    /// past `idx` move down by one.
    pub fn remove_shape(&mut self, idx: usize) -> (removed: Option<ShapeEntry<P>>)
        requires
            old(self)@.wf(),
        ensures
            final(self)@.wf(),
            old(self)@.remove_shape_post(idx, final(self)@, removed),
    {
        if idx < self.shapes.len() {
            let ghost pre = self@;
            // If this shape is in a boolean group, dissolve it first
            match self.group_membership[idx] {
                Some(group_idx) => self.dissolve_boolean_group(group_idx),
                None => {},
            }
            let ghost mid = self@;
            let shape = self.shapes.remove(idx);
            self.group_membership.remove(idx);
            shift_group_indices(&mut self.boolean_groups, idx);
            let copy = shape.duplicate();
            self.undo_stack.push(Command::RemoveShape(idx, copy));
            self.redo_stack.clear();
            proof {
                lemma_undo_push(mid.undo, Command::RemoveShape(idx, copy), mid.groups.len());
                assert forall|i: int| 0 <= i < self@.membership.len() implies (
                #[trigger] self@.membership[i] matches Some(g) ==> g <= self@.groups.len()) by {
                    if i < idx {
                        assert(self@.membership[i] == mid.membership[i]);
                    } else {
                        assert(self@.membership[i] == mid.membership[i + 1]);
                    }
                }
            }
            Some(shape)
        } else {
            None
        }
    }
    /// Records that the shape at `idx` was moved by `delta`, if there is
    /// such a shape. The caller moves the geometry and recomputes the group
    /// as the returned follow-up says.
    pub fn move_shape(&mut self, idx: usize, delta: D) -> (f: Followup<D>)
        requires
            old(self)@.wf(),
        ensures
            final(self)@.wf(),
            old(self)@.move_shape_post(idx, delta, final(self)@, f),
    {
        if idx < self.shapes.len() {
            self.undo_stack.push(Command::MoveShape(idx, delta));
            self.redo_stack.clear();
            proof {
                lemma_undo_push(old(self)@.undo, Command::MoveShape(idx, delta), self@.groups.len());
            }
            // Recompute boolean group if this shape is a member
            Followup::Translate {
                index: idx,
                delta,
                reverse: false,
                recompute: self.group_membership[idx],
            }
        } else {
            Followup::Nothing
        }
    }

    /// Replaces the shape at `idx`, if there is one, and records the edit.
    pub fn update_shape(&mut self, idx: usize, new_shape: ShapeEntry<P>) -> (f: Followup<D>)
        requires
            old(self)@.wf(),
        ensures
            final(self)@.wf(),
            old(self)@.update_shape_post(idx, new_shape, final(self)@, f),
    {
        if idx < self.shapes.len() {
            let old_copy = self.shapes[idx].duplicate();
            let new_copy = new_shape.duplicate();
            self.shapes.set(idx, new_shape);
            self.undo_stack.push(Command::UpdateShape(idx, old_copy, new_copy));
            self.redo_stack.clear();
            proof {
                lemma_undo_push(
                    old(self)@.undo,
                    Command::UpdateShape(idx, old_copy, new_copy),
                    self@.groups.len(),
                );
            }
            // Recompute boolean group if this shape is a member
            match self.group_membership[idx] {
                Some(g) => Followup::Recompute(g),
                None => Followup::Nothing,
            }
        } else {
            Followup::Nothing
        }
    }

    /// Whether `create_boolean_group` would make a group of `a` and `b`:
    /// both exist and are closed shapes.
    pub fn can_create_boolean_group(&self, shape_a: usize, shape_b: usize) -> (b: bool)
        ensures
            b == self@.can_group(shape_a, shape_b),
    {
        shape_a < self.shapes.len() && shape_b < self.shapes.len() && is_closed_shape(
            self.shapes[shape_a].kind,
        ) && is_closed_shape(self.shapes[shape_b].kind)
    }

    /// Makes a boolean group of the closed shapes `shape_a` and `shape_b`,
    /// with the outline `cached_result` that the caller computed, and
    /// records the edit. Does nothing unless both shapes exist and are closed.
    pub fn create_boolean_group(
        &mut self,
        shape_a: usize,
        shape_b: usize,
        op: BoolOp,
        style: St,
        cached_result: R,
    )
        requires
            old(self)@.wf(),
        ensures
            final(self)@.wf(),
            old(self)@.create_group_post(shape_a, shape_b, op, style, cached_result, final(self)@),
    {
        if !self.can_create_boolean_group(shape_a, shape_b) {
            return;
        }
        let group = BooleanGroup { op, shape_a, shape_b, style, cached_result };
        let copy = group.duplicate();
        let group_idx = self.boolean_groups.len();
        self.boolean_groups.push(group);
        self.group_membership.set(shape_a, Some(group_idx));
        self.group_membership.set(shape_b, Some(group_idx));
        self.undo_stack.push(Command::CreateBooleanGroup(group_idx, copy));
        self.redo_stack.clear();
        proof {
            let pre = old(self)@;
            lemma_undo_push(pre.undo, Command::CreateBooleanGroup(group_idx, copy), self@.groups.len());
            assert(self@.membership =~= set_entry(
                set_entry(pre.membership, shape_a, Some(group_idx)),
                shape_b,
                Some(group_idx),
            ));
            assert forall|i: int| 0 <= i < self@.membership.len() implies (
            #[trigger] self@.membership[i] matches Some(g) ==> g <= self@.groups.len()) by {
                if i != shape_a && i != shape_b {
                    assert(self@.membership[i] == pre.membership[i]);
                }
            }
        }
    }

    /// Gives group `group_idx`, if there is one, the operation `new_op` and
    /// records the edit. The caller recomputes the outline.
    pub fn change_boolean_op(&mut self, group_idx: usize, new_op: BoolOp) -> (f: Followup<D>)
        requires
            old(self)@.wf(),
        ensures
            final(self)@.wf(),
            old(self)@.change_op_post(group_idx, new_op, final(self)@, f),
    {
        if group_idx >= self.boolean_groups.len() {
            return Followup::Nothing;
        }
        let old_op = self.boolean_groups[group_idx].op;
        self.boolean_groups[group_idx].op = new_op;
        self.undo_stack.push(Command::ChangeBooleanOp(group_idx, old_op, new_op));
        self.redo_stack.clear();
        proof {
            lemma_undo_push(
                old(self)@.undo,
                Command::ChangeBooleanOp(group_idx, old_op, new_op),
                self@.groups.len(),
            );
            assert(self@.groups =~= old(self)@.groups.update(
                group_idx as int,
                group_with_op(old(self)@.groups[group_idx as int], new_op),
            ));
        }
        Followup::Recompute(group_idx)
    }

    /// What recomputing the outline of group `group_idx` needs: its two
    /// shapes and operation, when the group and both shapes exist.
    pub fn recompute_inputs(&self, group_idx: usize) -> (r: Option<(usize, usize, BoolOp)>)
        ensures
            r == (if group_idx < self@.groups.len() && self@.groups[group_idx as int].shape_a
                < self@.shapes.len() && self@.groups[group_idx as int].shape_b < self@.shapes.len() {
                Some(
                    (
                        self@.groups[group_idx as int].shape_a,
                        self@.groups[group_idx as int].shape_b,
                        self@.groups[group_idx as int].op,
                    ),
                )
            } else {
                None
            }),
    {
        if group_idx >= self.boolean_groups.len() {
            return None;
        }
        let group = &self.boolean_groups[group_idx];
        if group.shape_a < self.shapes.len() && group.shape_b < self.shapes.len() {
            Some((group.shape_a, group.shape_b, group.op))
        } else {
            None
        }
    }

    /// Stores the recomputed outline of group `group_idx`, if there is one.
    pub fn set_cached_result(&mut self, group_idx: usize, result: R)
        requires
            old(self)@.wf(),
        ensures
            final(self)@.wf(),
            final(self)@ == (if group_idx < old(self)@.groups.len() {
                DocModel {
                    groups: old(self)@.groups.update(
                        group_idx as int,
                        group_with_result(old(self)@.groups[group_idx as int], result),
                    ),
                    ..old(self)@
                }
            } else {
                old(self)@
            }),
    {
        if group_idx < self.boolean_groups.len() {
            self.boolean_groups[group_idx].cached_result = result;
            assert(self@.groups =~= old(self)@.groups.update(
                group_idx as int,
                group_with_result(old(self)@.groups[group_idx as int], result),
            ));
        }
    }
    /// Undoes the newest command, if any, and moves it to the redo stack.
    pub fn undo(&mut self) -> (f: Followup<D>)
        requires
            old(self)@.wf(),
        ensures
            final(self)@.wf(),
            old(self)@.undo_post(final(self)@, f),
    {
        let ghost pre = self@;
        let popped = self.undo_stack.pop();
        match popped {
            None => Followup::Nothing,
            Some(cmd) => {
                proof {
                    assert(cmd == pre.undo.last());
                    assert(self@.undo == pre.undo.drop_last());
                }
                let f = match &cmd {
                    Command::AddShape(idx, _) => {
                        if *idx < self.shapes.len() {
                            self.shapes.remove(*idx);
                            self.group_membership.remove(*idx);
                        }
                        Followup::Nothing
                    },
                    Command::RemoveShape(idx, shape) => {
                        let i = if *idx < self.shapes.len() {
                            *idx
                        } else {
                            self.shapes.len()
                        };
                        self.shapes.insert(i, shape.duplicate());
                        self.group_membership.insert(i, None);
                        Followup::Nothing
                    },
                    Command::MoveShape(idx, delta) => {
                        if *idx < self.shapes.len() {
                            Followup::Translate {
                                index: *idx,
                                delta: *delta,
                                reverse: true,
                                recompute: self.group_membership[*idx],
                            }
                        } else {
                            Followup::Nothing
                        }
                    },
                    Command::UpdateShape(idx, old_shape, _) => {
                        if *idx < self.shapes.len() {
                            self.shapes.set(*idx, old_shape.duplicate());
                            match self.group_membership[*idx] {
                                Some(g) => Followup::Recompute(g),
                                None => Followup::Nothing,
                            }
                        } else {
                            Followup::Nothing
                        }
                    },
                    Command::CreateBooleanGroup(group_idx, _) => {
                        let gi = *group_idx;
                        if gi < self.boolean_groups.len() {
                            let g = self.boolean_groups.remove(gi);
                            // Clear membership
                            if g.shape_a < self.group_membership.len() {
                                self.group_membership.set(g.shape_a, None);
                            }
                            if g.shape_b < self.group_membership.len() {
                                self.group_membership.set(g.shape_b, None);
                            }
                            // Adjust remaining group indices
                            lower_entries(&mut self.group_membership, gi);
                        }
                        Followup::Nothing
                    },
                    Command::DissolveBooleanGroup(group_idx, group) => {
                        // Re-create the group
                        let gi = *group_idx;
                        self.boolean_groups.insert(gi, group.duplicate());
                        let ghost n1 = self.boolean_groups.len();
                        // Adjust memberships that reference groups at or above the re-inserted index
                        proof {
                            assert forall|j: int| 0 <= j < self.group_membership@.len() implies (
                            #[trigger] self.group_membership@[j] matches Some(h) ==> h < usize::MAX) by {
                                assert(pre.membership[j] matches Some(h) ==> h <= pre.groups.len());
                            }
                        }
                        raise_entries(&mut self.group_membership, gi);
                        // Restore membership for the group's shapes
                        if group.shape_a < self.group_membership.len() {
                            self.group_membership.set(group.shape_a, Some(gi));
                        }
                        if group.shape_b < self.group_membership.len() {
                            self.group_membership.set(group.shape_b, Some(gi));
                        }
                        Followup::Nothing
                    },
                    Command::ChangeBooleanOp(group_idx, old_op, _) => {
                        let gi = *group_idx;
                        if gi < self.boolean_groups.len() {
                            self.boolean_groups[gi].op = *old_op;
                            Followup::Recompute(gi)
                        } else {
                            Followup::Nothing
                        }
                    },
                };
                self.redo_stack.push(cmd);
                proof {
                    self.lemma_undo_wf(pre, f);
                }
                f
            },
        }
    }
    /// Redoes the newest undone command, if any, and moves it back to the
    /// undo stack.
    pub fn redo(&mut self) -> (f: Followup<D>)
        requires
            old(self)@.wf(),
        ensures
            final(self)@.wf(),
            old(self)@.redo_post(final(self)@, f),
    {
        let ghost pre = self@;
        let popped = self.redo_stack.pop();
        match popped {
            None => Followup::Nothing,
            Some(cmd) => {
                proof {
                    assert(cmd == pre.redo.last());
                    assert(self@.redo == pre.redo.drop_last());
                }
                let f = match &cmd {
                    Command::AddShape(_, shape) => {
                        self.shapes.push(shape.duplicate());
                        self.group_membership.push(None);
                        Followup::Nothing
                    },
                    Command::RemoveShape(idx, _) => {
                        if *idx < self.shapes.len() {
                            self.shapes.remove(*idx);
                            self.group_membership.remove(*idx);
                        }
                        Followup::Nothing
                    },
                    Command::MoveShape(idx, delta) => {
                        if *idx < self.shapes.len() {
                            Followup::Translate {
                                index: *idx,
                                delta: *delta,
                                reverse: false,
                                recompute: self.group_membership[*idx],
                            }
                        } else {
                            Followup::Nothing
                        }
                    },
                    Command::UpdateShape(idx, _, new_shape) => {
                        if *idx < self.shapes.len() {
                            self.shapes.set(*idx, new_shape.duplicate());
                            match self.group_membership[*idx] {
                                Some(g) => Followup::Recompute(g),
                                None => Followup::Nothing,
                            }
                        } else {
                            Followup::Nothing
                        }
                    },
                    Command::CreateBooleanGroup(group_idx, group) => {
                        let gi = *group_idx;
                        self.boolean_groups.insert(gi, group.duplicate());
                        if group.shape_a < self.group_membership.len() {
                            self.group_membership.set(group.shape_a, Some(gi));
                        }
                        if group.shape_b < self.group_membership.len() {
                            self.group_membership.set(group.shape_b, Some(gi));
                        }
                        Followup::Nothing
                    },
                    Command::DissolveBooleanGroup(group_idx, group) => {
                        let gi = *group_idx;
                        if gi < self.boolean_groups.len() {
                            self.boolean_groups.remove(gi);
                            if group.shape_a < self.group_membership.len() {
                                self.group_membership.set(group.shape_a, None);
                            }
                            if group.shape_b < self.group_membership.len() {
                                self.group_membership.set(group.shape_b, None);
                            }
                            lower_entries(&mut self.group_membership, gi);
                        }
                        Followup::Nothing
                    },
                    Command::ChangeBooleanOp(group_idx, _, new_op) => {
                        let gi = *group_idx;
                        if gi < self.boolean_groups.len() {
                            self.boolean_groups[gi].op = *new_op;
                            Followup::Recompute(gi)
                        } else {
                            Followup::Nothing
                        }
                    },
                };
                self.undo_stack.push(cmd);
                proof {
                    self.lemma_redo_wf(pre, f);
                }
                f
            },
        }
    }
    /// Hit test for free shapes only (not in boolean groups): the topmost
    /// free shape among those that `hits` marks as hit by the point.
    pub fn hit_test(&self, hits: &Vec<bool>) -> (r: Option<usize>)
        requires
            self@.wf(),
            hits@.len() == self@.shapes.len(),
        ensures
            is_topmost(self@.free_hits(hits@), r),
    {
        let mut i = hits.len();
        while i > 0
            invariant
                i <= hits@.len(),
                hits@.len() == self.group_membership@.len(),
                forall|j: int| i <= j < hits@.len() ==> !self@.free_hits(hits@)[j],
            decreases i,
        {
            i -= 1;
            if hits[i] && self.group_membership[i].is_none() {
                return Some(i);
            }
        }
        None
    }

    /// Hit test for boolean group results: the topmost group among those
    /// that `group_hits` marks as hit by the point.
    pub fn hit_test_bool_group(&self, group_hits: &Vec<bool>) -> (r: Option<usize>)
        requires
            group_hits@.len() == self@.groups.len(),
        ensures
            is_topmost(group_hits@, r),
    {
        topmost(group_hits)
    }

    /// Combined hit test returning either a boolean group or a free shape.
    /// Boolean groups are checked first (they are drawn on top).
    pub fn hit_test_any(&self, group_hits: &Vec<bool>, shape_hits: &Vec<bool>) -> (r: Option<HitTarget>)
        requires
            self@.wf(),
            group_hits@.len() == self@.groups.len(),
            shape_hits@.len() == self@.shapes.len(),
        ensures
            self@.is_any_hit(group_hits@, shape_hits@, r),
    {
        if let Some(g) = self.hit_test_bool_group(group_hits) {
            return Some(HitTarget::BoolGroup(g));
        }
        if let Some(s) = self.hit_test(shape_hits) {
            return Some(HitTarget::Shape(s));
        }
        None
    }

    /// Hit test for the source shapes of group `group_idx`: its second shape
    /// (drawn on top) first, then its first.
    pub fn hit_test_in_group(&self, group_idx: usize, shape_hits: &Vec<bool>) -> (r: Option<usize>)
        requires
            shape_hits@.len() == self@.shapes.len(),
        ensures
            r == self@.in_group_hit(group_idx, shape_hits@),
    {
        if group_idx >= self.boolean_groups.len() {
            return None;
        }
        let group = &self.boolean_groups[group_idx];
        // Test shape_b first (drawn on top)
        if group.shape_b < self.shapes.len() && shape_hits[group.shape_b] {
            return Some(group.shape_b);
        }
        if group.shape_a < self.shapes.len() && shape_hits[group.shape_a] {
            return Some(group.shape_a);
        }
        None
    }
}

} // verus!
