//! What undo and redo promise: each edit, undone right away, leaves the
//! document as it was (up to the copies the history keeps of shapes and
//! groups), and redo puts back what undo took.

use vstd::prelude::*;

use crate::boolean::BoolOp;
use crate::boolean::BooleanGroup;
use crate::document::{dissolved, group_with_op, lowered, raised, set_entry, Command, DocModel, Followup};
use crate::shape::ShapeEntry;

verus! {

/// Undoing an added shape gives back the document it was added to; the add
/// moves to the redo stack.
pub proof fn law_undo_add<P: Clone, D, St: Clone, R: Clone>(
    d: DocModel<P, D, St, R>,
    shape: ShapeEntry<P>,
    d1: DocModel<P, D, St, R>,
    d2: DocModel<P, D, St, R>,
    f: Followup<D>,
)
    requires
        d.wf(),
        d.add_shape_post(shape, d1),
        d1.undo_post(d2, f),
    ensures
        d2.shapes == d.shapes,
        d2.membership == d.membership,
        d2.groups == d.groups,
        d2.undo == d.undo,
        d2.redo == seq![d1.undo.last()],
        f == Followup::<D>::Nothing,
{
    assert(d1.undo.drop_last() =~= d.undo);
    assert(d1.shapes.remove(d.shapes.len() as int) =~= d.shapes);
    assert(d1.membership.remove(d.shapes.len() as int) =~= d.membership);
    assert(d2.redo =~= seq![d1.undo.last()]);
}

/// Redoing an undone add gives back the document with the shape added, the
/// new shape being a copy of the recorded copy of the added shape.
pub proof fn law_redo_undo_add<P: Clone, D, St: Clone, R: Clone>(
    d: DocModel<P, D, St, R>,
    shape: ShapeEntry<P>,
    d1: DocModel<P, D, St, R>,
    d2: DocModel<P, D, St, R>,
    d3: DocModel<P, D, St, R>,
    f: Followup<D>,
    f2: Followup<D>,
)
    requires
        d.wf(),
        d.add_shape_post(shape, d1),
        d1.undo_post(d2, f),
        d2.redo_post(d3, f2),
    ensures
        d3.shapes.len() == d1.shapes.len(),
        d3.shapes.drop_last() == d.shapes,
        d1.undo.last() matches Command::AddShape(_, c) && shape.is_copy_of(c) && c.is_copy_of(
            d3.shapes.last(),
        ),
        d3.membership == d1.membership,
        d3.groups == d1.groups,
        d3.undo == d1.undo,
        d3.redo == d1.redo,
        f2 == Followup::<D>::Nothing,
{
    law_undo_add(d, shape, d1, d2, f);
    assert(d2.redo.drop_last() =~= d1.redo);
    assert(d3.shapes.drop_last() =~= d.shapes);
    assert(d3.undo =~= d1.undo);
}

/// Undoing the removal of a free shape puts a copy of the recorded copy of
/// it back where it was. The groups come back unchanged when none of them
/// names a shape past the removed one.
pub proof fn law_undo_remove_free<P: Clone, D, St: Clone, R: Clone>(
    d: DocModel<P, D, St, R>,
    idx: usize,
    d1: DocModel<P, D, St, R>,
    removed: Option<ShapeEntry<P>>,
    d2: DocModel<P, D, St, R>,
    f: Followup<D>,
)
    requires
        d.wf(),
        idx < d.shapes.len(),
        d.membership[idx as int] is None,
        d.remove_shape_post(idx, d1, removed),
        d1.undo_post(d2, f),
    ensures
        removed == Some(d.shapes[idx as int]),
        d2.shapes.len() == d.shapes.len(),
        d2.shapes == d.shapes.update(idx as int, d2.shapes[idx as int]),
        d1.undo.last() matches Command::RemoveShape(_, c) && d.shapes[idx as int].is_copy_of(c)
            && c.is_copy_of(d2.shapes[idx as int]),
        d2.membership == d.membership,
        (forall|k: int|
            0 <= k < d.groups.len() ==> #[trigger] d.groups[k].shape_a <= idx && d.groups[k].shape_b
                <= idx) ==> d2.groups == d.groups,
        d2.undo == d.undo,
        f == Followup::<D>::Nothing,
{
    assert(d1.undo.drop_last() =~= d.undo);
    assert(d2.shapes =~= d.shapes.update(idx as int, d2.shapes[idx as int]));
    assert(d2.membership =~= d.membership);
    if forall|k: int|
        0 <= k < d.groups.len() ==> #[trigger] d.groups[k].shape_a <= idx && d.groups[k].shape_b
            <= idx {
        assert(d2.groups =~= d.groups);
    }
}

/// Removing a shape of a group records the dissolution and then the
/// removal; undoing both gives back the shape, the group (as a copy) and
/// every membership, provided the group's members are exactly its two
/// shapes and no group names a shape past the removed one.
pub proof fn law_undo_remove_grouped<P: Clone, D, St: Clone, R: Clone>(
    d: DocModel<P, D, St, R>,
    idx: usize,
    d1: DocModel<P, D, St, R>,
    removed: Option<ShapeEntry<P>>,
    d2: DocModel<P, D, St, R>,
    f2: Followup<D>,
    d3: DocModel<P, D, St, R>,
    f3: Followup<D>,
)
    requires
        d.wf(),
        idx < d.shapes.len(),
        d.membership[idx as int] matches Some(g) && g < d.groups.len() && d.groups[g as int].shape_a
            < d.shapes.len() && d.groups[g as int].shape_b < d.shapes.len() && (forall|i: int|
            0 <= i < d.membership.len() ==> (#[trigger] d.membership[i] == Some(g) <==> (i
                == d.groups[g as int].shape_a || i == d.groups[g as int].shape_b))),
        forall|k: int|
            0 <= k < d.groups.len() ==> #[trigger] d.groups[k].shape_a <= idx && d.groups[k].shape_b
                <= idx,
        d.remove_shape_post(idx, d1, removed),
        d1.undo_post(d2, f2),
        d2.undo_post(d3, f3),
    ensures
        d3.shapes.len() == d.shapes.len(),
        d3.shapes == d.shapes.update(idx as int, d3.shapes[idx as int]),
        d1.undo.last() matches Command::RemoveShape(_, c) && d.shapes[idx as int].is_copy_of(c)
            && c.is_copy_of(d3.shapes[idx as int]),
        d3.membership == d.membership,
        d3.groups.len() == d.groups.len(),
        d.membership[idx as int] matches Some(g) && d3.groups == d.groups.update(
            g as int,
            d3.groups[g as int],
        ) && d.groups[g as int].is_copy_of(d3.groups[g as int]),
        d3.undo == d.undo,
{
    let g = d.membership[idx as int]->0;
    let grp = d.groups[g as int];
    let mid = d.dissolve_spec(g);
    assert(d1.undo.drop_last() =~= mid.undo);
    assert(mid.undo.drop_last() =~= d.undo);
    assert(mid.undo.last() == Command::<P, D, St, R>::DissolveBooleanGroup(g, grp));
    // the groups that remain name no shape past idx
    assert(d1.groups =~= mid.groups);
    assert(d2.groups =~= mid.groups);
    assert(d2.membership =~= mid.membership);
    assert(d3.groups =~= d.groups.update(g as int, d3.groups[g as int]));
    assert(d3.membership =~= d.membership) by {
        assert forall|i: int| 0 <= i < d.membership.len() implies d3.membership[i]
            == d.membership[i] by {
            if i != grp.shape_a && i != grp.shape_b {
                match d.membership[i] {
                    Some(h) => {
                        assert(h != g);
                    },
                    None => {},
                }
            }
        }
    }
}

/// Undoing a moved shape asks the caller to move it back by the same
/// offset, and leaves the document as it was before the move.
pub proof fn law_undo_move<P: Clone, D, St: Clone, R: Clone>(
    d: DocModel<P, D, St, R>,
    idx: usize,
    delta: D,
    d1: DocModel<P, D, St, R>,
    f1: Followup<D>,
    d2: DocModel<P, D, St, R>,
    f2: Followup<D>,
)
    requires
        d.wf(),
        idx < d.shapes.len(),
        d.move_shape_post(idx, delta, d1, f1),
        d1.undo_post(d2, f2),
    ensures
        f1 == (Followup::Translate {
            index: idx,
            delta,
            reverse: false,
            recompute: d.membership[idx as int],
        }),
        f2 == (Followup::Translate {
            index: idx,
            delta,
            reverse: true,
            recompute: d.membership[idx as int],
        }),
        d2.shapes == d.shapes,
        d2.membership == d.membership,
        d2.groups == d.groups,
        d2.undo == d.undo,
{
    assert(d1.undo.drop_last() =~= d.undo);
}

/// Undoing a replaced shape puts back a copy of the recorded copy of the
/// old shape, and asks for the same recomputation as the replacement did.
pub proof fn law_undo_update<P: Clone, D, St: Clone, R: Clone>(
    d: DocModel<P, D, St, R>,
    idx: usize,
    shape: ShapeEntry<P>,
    d1: DocModel<P, D, St, R>,
    f1: Followup<D>,
    d2: DocModel<P, D, St, R>,
    f2: Followup<D>,
)
    requires
        d.wf(),
        idx < d.shapes.len(),
        d.update_shape_post(idx, shape, d1, f1),
        d1.undo_post(d2, f2),
    ensures
        d2.shapes.len() == d.shapes.len(),
        d2.shapes == d.shapes.update(idx as int, d2.shapes[idx as int]),
        d1.undo.last() matches Command::UpdateShape(_, old_copy, _) && d.shapes[idx as int].is_copy_of(
            old_copy,
        ) && old_copy.is_copy_of(d2.shapes[idx as int]),
        d2.membership == d.membership,
        d2.groups == d.groups,
        d2.undo == d.undo,
        f2 == f1,
{
    assert(d1.undo.drop_last() =~= d.undo);
    assert(d2.shapes =~= d.shapes.update(idx as int, d2.shapes[idx as int]));
}

/// Undoing a new boolean group of two free shapes gives back the document
/// it was made in.
pub proof fn law_undo_create_group<P: Clone, D, St: Clone, R: Clone>(
    d: DocModel<P, D, St, R>,
    a: usize,
    b: usize,
    op: BoolOp,
    style: St,
    result: R,
    d1: DocModel<P, D, St, R>,
    d2: DocModel<P, D, St, R>,
    f: Followup<D>,
)
    requires
        d.wf(),
        d.can_group(a, b),
        d.membership[a as int] is None,
        d.membership[b as int] is None,
        d.create_group_post(a, b, op, style, result, d1),
        d1.undo_post(d2, f),
    ensures
        d2.shapes == d.shapes,
        d2.membership == d.membership,
        d2.groups == d.groups,
        d2.undo == d.undo,
        f == Followup::<D>::Nothing,
{
    let n = d.groups.len();
    assert(d1.undo.drop_last() =~= d.undo);
    assert(d1.groups.remove(n as int) =~= d.groups);
    let cleared = set_entry(set_entry(d1.membership, a, None), b, None);
    assert(cleared =~= d.membership);
    if let Command::CreateBooleanGroup(gi, _) = d1.undo.last() {
        assert(gi == n);
        assert forall|i: int| 0 <= i < d.membership.len() implies lowered(d.membership[i], gi)
            == d.membership[i] by {
            assert(d.membership[i] matches Some(h) ==> h <= n);
        }
    }
    assert(d2.membership =~= d.membership);
}

/// Undoing a dissolved group whose members are exactly its two shapes
/// gives back the document, the group being a copy of the dissolved one.
pub proof fn law_undo_dissolve<P: Clone, D, St: Clone, R: Clone>(
    d: DocModel<P, D, St, R>,
    g: usize,
    d2: DocModel<P, D, St, R>,
    f: Followup<D>,
)
    requires
        d.wf(),
        g < d.groups.len(),
        d.groups[g as int].shape_a < d.shapes.len(),
        d.groups[g as int].shape_b < d.shapes.len(),
        forall|i: int|
            0 <= i < d.membership.len() ==> (#[trigger] d.membership[i] == Some(g) <==> (i
                == d.groups[g as int].shape_a || i == d.groups[g as int].shape_b)),
        d.dissolve_spec(g).undo_post(d2, f),
    ensures
        d2.shapes == d.shapes,
        d2.membership == d.membership,
        d2.groups.len() == d.groups.len(),
        d2.groups == d.groups.update(g as int, d2.groups[g as int]),
        d.groups[g as int].is_copy_of(d2.groups[g as int]),
        d2.undo == d.undo,
        f == Followup::<D>::Nothing,
{
    let d1 = d.dissolve_spec(g);
    let grp = d.groups[g as int];
    assert(d1.undo.drop_last() =~= d.undo);
    assert(d2.groups =~= d.groups.update(g as int, d2.groups[g as int]));
    assert forall|i: int| 0 <= i < d.membership.len() implies d2.membership[i]
        == d.membership[i] by {
        if i != grp.shape_a && i != grp.shape_b {
            match d.membership[i] {
                Some(h) => {
                    assert(h != g);
                },
                None => {},
            }
        }
    }
    assert(d2.membership =~= d.membership);
}

/// Undoing a changed operation gives back the group's old operation; both
/// ask the caller to recompute the group's outline.
pub proof fn law_undo_change_op<P: Clone, D, St: Clone, R: Clone>(
    d: DocModel<P, D, St, R>,
    g: usize,
    op: BoolOp,
    d1: DocModel<P, D, St, R>,
    f1: Followup<D>,
    d2: DocModel<P, D, St, R>,
    f2: Followup<D>,
)
    requires
        d.wf(),
        g < d.groups.len(),
        d.change_op_post(g, op, d1, f1),
        d1.undo_post(d2, f2),
    ensures
        d2.shapes == d.shapes,
        d2.membership == d.membership,
        d2.groups == d.groups,
        d2.undo == d.undo,
        f1 == Followup::<D>::Recompute(g),
        f2 == Followup::<D>::Recompute(g),
{
    assert(d1.undo.drop_last() =~= d.undo);
    assert(d2.groups =~= d.groups);
}

/// Undo followed by redo gives back both stacks exactly.
pub proof fn law_redo_undo_stacks<P: Clone, D, St: Clone, R: Clone>(
    d: DocModel<P, D, St, R>,
    d1: DocModel<P, D, St, R>,
    f1: Followup<D>,
    d2: DocModel<P, D, St, R>,
    f2: Followup<D>,
)
    requires
        d.undo.len() > 0,
        d.undo_post(d1, f1),
        d1.redo_post(d2, f2),
    ensures
        d2.undo == d.undo,
        d2.redo == d.redo,
{
    assert(d1.redo.drop_last() =~= d.redo);
    assert(d2.undo =~= d.undo);
}

/// With nothing to undo (or redo), undo (redo) changes nothing.
pub proof fn law_empty_history<P: Clone, D, St: Clone, R: Clone>(
    d: DocModel<P, D, St, R>,
    d1: DocModel<P, D, St, R>,
    f1: Followup<D>,
    d2: DocModel<P, D, St, R>,
    f2: Followup<D>,
)
    requires
        d.undo_post(d1, f1),
        d.redo_post(d2, f2),
    ensures
        d.undo.len() == 0 ==> d1 == d && f1 == Followup::<D>::Nothing,
        d.redo.len() == 0 ==> d2 == d && f2 == Followup::<D>::Nothing,
{
}

/// Undoing a move and redoing it gives back the document exactly; the two
/// ask the caller to move the shape back and forth by the same offset.
pub proof fn law_redo_undo_move<P: Clone, D, St: Clone, R: Clone>(
    d: DocModel<P, D, St, R>,
    d1: DocModel<P, D, St, R>,
    f1: Followup<D>,
    d2: DocModel<P, D, St, R>,
    f2: Followup<D>,
)
    requires
        d.wf(),
        d.undo.len() > 0,
        d.undo.last() matches Command::MoveShape(idx, _) && idx < d.shapes.len(),
        d.undo_post(d1, f1),
        d1.redo_post(d2, f2),
    ensures
        d2 == d,
        d.undo.last() matches Command::MoveShape(idx, delta) && f1 == (Followup::Translate {
            index: idx,
            delta,
            reverse: true,
            recompute: d.membership[idx as int],
        }) && f2 == (Followup::Translate {
            index: idx,
            delta,
            reverse: false,
            recompute: d.membership[idx as int],
        }),
{
    law_redo_undo_stacks(d, d1, f1, d2, f2);
    assert(d2 =~= d);
}

/// Undoing an operation change and redoing it gives back the document with
/// the group carrying the new operation; both ask the caller to recompute
/// the group's outline.
pub proof fn law_redo_undo_change_op<P: Clone, D, St: Clone, R: Clone>(
    d: DocModel<P, D, St, R>,
    d1: DocModel<P, D, St, R>,
    f1: Followup<D>,
    d2: DocModel<P, D, St, R>,
    f2: Followup<D>,
)
    requires
        d.wf(),
        d.undo.len() > 0,
        d.undo.last() matches Command::ChangeBooleanOp(g, _, _) && g < d.groups.len(),
        d.undo_post(d1, f1),
        d1.redo_post(d2, f2),
    ensures
        d2.shapes == d.shapes,
        d2.membership == d.membership,
        d2.undo == d.undo,
        d2.redo == d.redo,
        d.undo.last() matches Command::ChangeBooleanOp(g, _, new_op) && d2.groups == d.groups.update(
            g as int,
            group_with_op(d.groups[g as int], new_op),
        ) && f1 == Followup::<D>::Recompute(g) && f2 == Followup::<D>::Recompute(g),
        d.undo.last() matches Command::ChangeBooleanOp(g, _, new_op) && d.groups[g as int].op
            == new_op ==> d2 == d,
{
    law_redo_undo_stacks(d, d1, f1, d2, f2);
    if let Command::ChangeBooleanOp(g, _, new_op) = d.undo.last() {
        assert(d2.groups =~= d.groups.update(g as int, group_with_op(d.groups[g as int], new_op)));
        if d.groups[g as int].op == new_op {
            assert(d2.groups =~= d.groups);
            assert(d2 =~= d);
        }
    }
}

/// Undoing a removal and redoing it gives back the document exactly.
pub proof fn law_redo_undo_remove<P: Clone, D, St: Clone, R: Clone>(
    d: DocModel<P, D, St, R>,
    d1: DocModel<P, D, St, R>,
    f1: Followup<D>,
    d2: DocModel<P, D, St, R>,
    f2: Followup<D>,
)
    requires
        d.wf(),
        d.undo.len() > 0,
        d.undo.last() matches Command::RemoveShape(idx, _) && idx <= d.shapes.len(),
        d.undo_post(d1, f1),
        d1.redo_post(d2, f2),
    ensures
        d2 == d,
        f1 == Followup::<D>::Nothing,
        f2 == Followup::<D>::Nothing,
{
    law_redo_undo_stacks(d, d1, f1, d2, f2);
    if let Command::RemoveShape(idx, _) = d.undo.last() {
        assert(d1.shapes.remove(idx as int) =~= d.shapes);
        assert(d1.membership.remove(idx as int) =~= d.membership);
    }
    assert(d2 =~= d);
}

/// Undoing a replaced shape and redoing it gives back the document with a
/// copy of the recorded copy of the new shape; both times the caller is
/// asked for the same recomputation as the replacement asked for.
pub proof fn law_redo_undo_update<P: Clone, D, St: Clone, R: Clone>(
    d: DocModel<P, D, St, R>,
    idx: usize,
    shape: ShapeEntry<P>,
    d1: DocModel<P, D, St, R>,
    f1: Followup<D>,
    d2: DocModel<P, D, St, R>,
    f2: Followup<D>,
    d3: DocModel<P, D, St, R>,
    f3: Followup<D>,
)
    requires
        d.wf(),
        idx < d.shapes.len(),
        d.update_shape_post(idx, shape, d1, f1),
        d1.undo_post(d2, f2),
        d2.redo_post(d3, f3),
    ensures
        d3.shapes.len() == d1.shapes.len(),
        d3.shapes == d1.shapes.update(idx as int, d3.shapes[idx as int]),
        d1.shapes[idx as int] == shape,
        d1.undo.last() matches Command::UpdateShape(_, _, new_copy) && shape.is_copy_of(new_copy)
            && new_copy.is_copy_of(d3.shapes[idx as int]),
        d3.membership == d1.membership,
        d3.groups == d1.groups,
        d3.undo == d1.undo,
        d3.redo == d1.redo,
        f2 == f1,
        f3 == f1,
{
    law_undo_update(d, idx, shape, d1, f1, d2, f2);
    law_redo_undo_stacks(d1, d2, f2, d3, f3);
    assert(d3.shapes =~= d1.shapes.update(idx as int, d3.shapes[idx as int]));
}

/// Undoing a new boolean group and redoing it gives back the document with
/// the group (as a copy of the recorded copy) and its memberships.
pub proof fn law_redo_undo_create_group<P: Clone, D, St: Clone, R: Clone>(
    d: DocModel<P, D, St, R>,
    a: usize,
    b: usize,
    op: BoolOp,
    style: St,
    result: R,
    d1: DocModel<P, D, St, R>,
    d2: DocModel<P, D, St, R>,
    f2: Followup<D>,
    d3: DocModel<P, D, St, R>,
    f3: Followup<D>,
)
    requires
        d.wf(),
        d.can_group(a, b),
        d.create_group_post(a, b, op, style, result, d1),
        d1.undo_post(d2, f2),
        d2.redo_post(d3, f3),
    ensures
        d3.shapes == d1.shapes,
        d3.membership == d1.membership,
        d3.groups.len() == d1.groups.len(),
        d3.groups == d1.groups.update(d.groups.len() as int, d3.groups[d.groups.len() as int]),
        d1.undo.last() matches Command::CreateBooleanGroup(_, c) && d1.groups[d.groups.len() as int].is_copy_of(
            c,
        ) && c.is_copy_of(d3.groups[d.groups.len() as int]),
        d3.undo == d1.undo,
        d3.redo == d1.redo,
        f2 == Followup::<D>::Nothing,
        f3 == Followup::<D>::Nothing,
{
    let n = d.groups.len();
    let grp = d1.groups[n as int];
    law_redo_undo_stacks(d1, d2, f2, d3, f3);
    assert(d1.groups.remove(n as int) =~= d.groups);
    let cleared = set_entry(set_entry(d1.membership, a, None), b, None);
    assert forall|i: int| 0 <= i < cleared.len() implies lowered(cleared[i], n as usize)
        == cleared[i] by {
        assert(d.membership[i] matches Some(h) ==> h <= n);
    }
    assert(d2.membership =~= cleared);
    assert(d3.membership =~= d1.membership);
    assert(d3.groups =~= d1.groups.update(n as int, d3.groups[n as int]));
}

/// Undoing a dissolved group and redoing it gives back the document
/// exactly, provided each of the group's two shapes belonged to it or to
/// no group.
pub proof fn law_redo_undo_dissolve<P: Clone, D, St: Clone, R: Clone>(
    d: DocModel<P, D, St, R>,
    g: usize,
    d2: DocModel<P, D, St, R>,
    f2: Followup<D>,
    d3: DocModel<P, D, St, R>,
    f3: Followup<D>,
)
    requires
        d.wf(),
        g < d.groups.len(),
        d.groups[g as int].shape_a < d.shapes.len() ==> (d.membership[d.groups[g as int].shape_a as int] matches Some(h) ==> h == g),
        d.groups[g as int].shape_b < d.shapes.len() ==> (d.membership[d.groups[g as int].shape_b as int] matches Some(h) ==> h == g),
        d.dissolve_spec(g).undo_post(d2, f2),
        d2.redo_post(d3, f3),
    ensures
        d3 == d.dissolve_spec(g),
        f2 == Followup::<D>::Nothing,
        f3 == Followup::<D>::Nothing,
{
    let d1 = d.dissolve_spec(g);
    let grp: BooleanGroup<St, R> = d.groups[g as int];
    law_redo_undo_stacks(d1, d2, f2, d3, f3);
    assert(d3.groups =~= d1.groups);
    let raised_m = d1.membership.map_values(|x: Option<usize>| raised(x, g));
    let set_m = set_entry(set_entry(raised_m, grp.shape_a, Some(g)), grp.shape_b, Some(g));
    assert(d2.membership == set_m);
    let cleared = set_entry(set_entry(set_m, grp.shape_a, None), grp.shape_b, None);
    assert(d3.membership == cleared.map_values(|x: Option<usize>| lowered(x, g)));
    assert forall|i: int| 0 <= i < d1.membership.len() implies d3.membership[i]
        == d1.membership[i] by {
        assert(d1.membership[i] == dissolved(d.membership[i], g));
        if i == grp.shape_a || i == grp.shape_b {
            assert(cleared[i] is None);
        } else {
            assert(cleared[i] == raised(d1.membership[i], g));
        }
    }
    assert(d3.membership =~= d1.membership);
    assert(d3 =~= d1);
}

/// Replacing the shape at `idx` puts `shape` there and changes no other
/// shape, group or membership; the caller is asked to recompute exactly
/// the group the shape belongs to, and nothing for a free shape. An index
/// past the shapes changes nothing.
pub proof fn law_update_recomputes_own_group<P: Clone, D, St: Clone, R: Clone>(
    d: DocModel<P, D, St, R>,
    idx: usize,
    shape: ShapeEntry<P>,
    post: DocModel<P, D, St, R>,
    f: Followup<D>,
)
    requires
        d.update_shape_post(idx, shape, post, f),
    ensures
        idx < d.shapes.len() ==> {
            &&& post.shapes.len() == d.shapes.len()
            &&& post.shapes[idx as int] == shape
            &&& forall|j: int| 0 <= j < d.shapes.len() && j != idx ==> post.shapes[j] == d.shapes[j]
            &&& post.groups == d.groups
            &&& post.membership == d.membership
            &&& (d.membership[idx as int] matches Some(g) ==> f == Followup::<D>::Recompute(g))
            &&& (d.membership[idx as int] is None ==> f == Followup::<D>::Nothing)
        },
        idx >= d.shapes.len() ==> post == d && f == Followup::<D>::Nothing,
{
}

/// Undoing a replacement asks the caller to recompute exactly the group
/// the replaced shape belongs to, and nothing for a free shape.
pub proof fn law_undo_update_recomputes_own_group<P: Clone, D, St: Clone, R: Clone>(
    d: DocModel<P, D, St, R>,
    post: DocModel<P, D, St, R>,
    f: Followup<D>,
)
    requires
        d.undo.len() > 0,
        d.undo.last() matches Command::UpdateShape(idx, _, _) && idx < d.shapes.len(),
        d.undo_post(post, f),
    ensures
        d.undo.last() matches Command::UpdateShape(idx, _, _) && (d.membership[idx as int] matches Some(
            g,
        ) ==> f == Followup::<D>::Recompute(g)) && (d.membership[idx as int] is None ==> f
            == Followup::<D>::Nothing),
        post.membership == d.membership,
        post.groups == d.groups,
{
}

/// Redoing a replacement asks the caller to recompute exactly the group
/// the replaced shape belongs to, and nothing for a free shape.
pub proof fn law_redo_update_recomputes_own_group<P: Clone, D, St: Clone, R: Clone>(
    d: DocModel<P, D, St, R>,
    post: DocModel<P, D, St, R>,
    f: Followup<D>,
)
    requires
        d.redo.len() > 0,
        d.redo.last() matches Command::UpdateShape(idx, _, _) && idx < d.shapes.len(),
        d.redo_post(post, f),
    ensures
        d.redo.last() matches Command::UpdateShape(idx, _, _) && (d.membership[idx as int] matches Some(
            g,
        ) ==> f == Followup::<D>::Recompute(g)) && (d.membership[idx as int] is None ==> f
            == Followup::<D>::Nothing),
        post.membership == d.membership,
        post.groups == d.groups,
{
}

} // verus!
