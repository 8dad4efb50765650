use maple_limit::boolean::{is_closed_shape, BoolOp};
use maple_limit::document::{Document, Followup, HitTarget};
use maple_limit::shape::{ShapeEntry, ShapeKind};

type Doc = Document<&'static str, (i32, i32), u8, Vec<u8>>;

fn entry(kind: ShapeKind, name: &'static str) -> ShapeEntry<&'static str> {
    ShapeEntry { kind, data: name }
}

fn names(d: &Doc) -> Vec<&'static str> {
    d.shapes.iter().map(|s| s.data).collect()
}

#[test]
fn add_then_undo_then_redo() {
    let mut d: Doc = Document::new();
    d.add_shape(entry(ShapeKind::Circle, "a"));
    d.add_shape(entry(ShapeKind::Line, "b"));
    assert_eq!(names(&d), vec!["a", "b"]);
    assert_eq!(d.group_membership, vec![None, None]);
    assert!(d.undo() == Followup::Nothing);
    assert_eq!(names(&d), vec!["a"]);
    assert_eq!(d.group_membership, vec![None]);
    d.redo();
    assert_eq!(names(&d), vec!["a", "b"]);
    assert_eq!(d.group_membership, vec![None, None]);
}

#[test]
fn empty_history_changes_nothing() {
    let mut d: Doc = Document::new();
    assert!(d.undo() == Followup::Nothing);
    assert!(d.redo() == Followup::Nothing);
    assert!(d.shapes.is_empty());
}

#[test]
fn new_edit_clears_redo() {
    let mut d: Doc = Document::new();
    d.add_shape(entry(ShapeKind::Circle, "a"));
    d.undo();
    d.add_shape(entry(ShapeKind::Rectangle, "b"));
    // nothing left to redo: "a" does not come back
    d.redo();
    assert_eq!(names(&d), vec!["b"]);
}

#[test]
fn remove_shape_returns_it_and_undo_restores() {
    let mut d: Doc = Document::new();
    d.add_shape(entry(ShapeKind::Circle, "a"));
    d.add_shape(entry(ShapeKind::Rectangle, "b"));
    d.add_shape(entry(ShapeKind::Line, "c"));
    let removed = d.remove_shape(1).map(|s| s.data);
    assert_eq!(removed, Some("b"));
    assert_eq!(names(&d), vec!["a", "c"]);
    assert!(d.remove_shape(7).is_none());
    d.undo();
    assert_eq!(names(&d), vec!["a", "b", "c"]);
    assert_eq!(d.shapes[1].kind, ShapeKind::Rectangle);
}

#[test]
fn move_shape_asks_for_translation() {
    let mut d: Doc = Document::new();
    d.add_shape(entry(ShapeKind::Circle, "a"));
    let f = d.move_shape(0, (3, 4));
    assert!(f == Followup::Translate { index: 0, delta: (3, 4), reverse: false, recompute: None });
    let f = d.undo();
    assert!(f == Followup::Translate { index: 0, delta: (3, 4), reverse: true, recompute: None });
    let f = d.redo();
    assert!(f == Followup::Translate { index: 0, delta: (3, 4), reverse: false, recompute: None });
    assert!(d.move_shape(5, (1, 1)) == Followup::Nothing);
}

#[test]
fn update_shape_and_undo() {
    let mut d: Doc = Document::new();
    d.add_shape(entry(ShapeKind::Circle, "a"));
    assert!(d.update_shape(0, entry(ShapeKind::Circle, "a2")) == Followup::Nothing);
    assert_eq!(names(&d), vec!["a2"]);
    d.undo();
    assert_eq!(names(&d), vec!["a"]);
    d.redo();
    assert_eq!(names(&d), vec!["a2"]);
}

#[test]
fn boolean_group_lifecycle() {
    let mut d: Doc = Document::new();
    d.add_shape(entry(ShapeKind::Circle, "a"));
    d.add_shape(entry(ShapeKind::Rectangle, "b"));
    d.add_shape(entry(ShapeKind::Line, "c"));
    // an open shape cannot take part
    assert!(!d.can_create_boolean_group(0, 2));
    d.create_boolean_group(0, 2, BoolOp::Union, 1, vec![9]);
    assert!(d.boolean_groups.is_empty());
    assert!(d.can_create_boolean_group(0, 1));
    d.create_boolean_group(0, 1, BoolOp::Union, 1, vec![9]);
    assert_eq!(d.boolean_groups.len(), 1);
    assert_eq!(d.group_membership, vec![Some(0), Some(0), None]);
    assert_eq!(d.recompute_inputs(0), Some((0, 1, BoolOp::Union)));
    assert_eq!(d.recompute_inputs(1), None);
    // a moved member asks for its group to be recomputed
    let f = d.move_shape(1, (1, 0));
    assert!(f == Followup::Translate { index: 1, delta: (1, 0), reverse: false, recompute: Some(0) });
    d.undo();
    // change the operation, then undo it
    assert!(d.change_boolean_op(0, BoolOp::Xor) == Followup::Recompute(0));
    assert_eq!(d.boolean_groups[0].op, BoolOp::Xor);
    assert!(d.undo() == Followup::Recompute(0));
    assert_eq!(d.boolean_groups[0].op, BoolOp::Union);
    assert!(d.change_boolean_op(4, BoolOp::Xor) == Followup::Nothing);
    d.set_cached_result(0, vec![1, 2]);
    assert_eq!(d.boolean_groups[0].cached_result, vec![1, 2]);
    // dissolve, then undo
    d.dissolve_boolean_group(0);
    assert!(d.boolean_groups.is_empty());
    assert_eq!(d.group_membership, vec![None, None, None]);
    d.undo();
    assert_eq!(d.boolean_groups.len(), 1);
    assert_eq!(d.group_membership, vec![Some(0), Some(0), None]);
    // undo the creation
    d.undo();
    assert!(d.boolean_groups.is_empty());
    assert_eq!(d.group_membership, vec![None, None, None]);
    d.redo();
    assert_eq!(d.group_membership, vec![Some(0), Some(0), None]);
}

#[test]
fn removing_a_grouped_shape_dissolves_its_group() {
    let mut d: Doc = Document::new();
    d.add_shape(entry(ShapeKind::Circle, "a"));
    d.add_shape(entry(ShapeKind::Rectangle, "b"));
    d.add_shape(entry(ShapeKind::Circle, "c"));
    d.add_shape(entry(ShapeKind::RegularPolygon, "d"));
    d.create_boolean_group(0, 1, BoolOp::Intersection, 0, vec![]);
    d.create_boolean_group(2, 3, BoolOp::Difference, 0, vec![]);
    assert_eq!(d.group_membership, vec![Some(0), Some(0), Some(1), Some(1)]);
    d.remove_shape(2);
    // group 1 is gone; group 0 is untouched
    assert_eq!(d.boolean_groups.len(), 1);
    assert_eq!(d.boolean_groups[0].op, BoolOp::Intersection);
    assert_eq!(d.group_membership, vec![Some(0), Some(0), None]);
    assert_eq!(names(&d), vec!["a", "b", "d"]);
    // undoing the removal, then the dissolution, gives everything back
    d.undo();
    d.undo();
    assert_eq!(names(&d), vec!["a", "b", "c", "d"]);
    assert_eq!(d.group_membership, vec![Some(0), Some(0), Some(1), Some(1)]);
    assert_eq!(d.boolean_groups[1].shape_a, 2);
    assert_eq!(d.boolean_groups[1].shape_b, 3);
}

#[test]
fn removing_a_shape_shifts_group_indices() {
    let mut d: Doc = Document::new();
    d.add_shape(entry(ShapeKind::Line, "a"));
    d.add_shape(entry(ShapeKind::Circle, "b"));
    d.add_shape(entry(ShapeKind::Circle, "c"));
    d.create_boolean_group(1, 2, BoolOp::Union, 0, vec![]);
    d.remove_shape(0);
    assert_eq!(d.boolean_groups[0].shape_a, 0);
    assert_eq!(d.boolean_groups[0].shape_b, 1);
    assert_eq!(d.group_membership, vec![Some(0), Some(0)]);
}

#[test]
fn hit_tests_pick_the_topmost() {
    let mut d: Doc = Document::new();
    d.add_shape(entry(ShapeKind::Circle, "a"));
    d.add_shape(entry(ShapeKind::Rectangle, "b"));
    d.add_shape(entry(ShapeKind::Circle, "c"));
    d.add_shape(entry(ShapeKind::Circle, "d"));
    assert_eq!(d.hit_test(&vec![true, true, false, false]), Some(1));
    assert_eq!(d.hit_test(&vec![false, false, false, false]), None);
    d.create_boolean_group(2, 3, BoolOp::Union, 0, vec![]);
    // grouped shapes are skipped
    assert_eq!(d.hit_test(&vec![true, false, true, true]), Some(0));
    assert_eq!(d.hit_test_bool_group(&vec![true]), Some(0));
    assert_eq!(d.hit_test_any(&vec![true], &vec![true, true, true, true]), Some(HitTarget::BoolGroup(0)));
    assert_eq!(d.hit_test_any(&vec![false], &vec![true, true, true, true]), Some(HitTarget::Shape(1)));
    assert_eq!(d.hit_test_any(&vec![false], &vec![false, false, true, true]), None);
    // inside a group, its second shape is tested first
    assert_eq!(d.hit_test_in_group(0, &vec![false, false, true, true]), Some(3));
    assert_eq!(d.hit_test_in_group(0, &vec![false, false, true, false]), Some(2));
    assert_eq!(d.hit_test_in_group(0, &vec![true, false, false, false]), None);
    assert_eq!(d.hit_test_in_group(3, &vec![true, true, true, true]), None);
}

#[test]
fn closed_shapes() {
    assert!(is_closed_shape(ShapeKind::Circle));
    assert!(is_closed_shape(ShapeKind::Rectangle));
    assert!(is_closed_shape(ShapeKind::RegularPolygon));
    assert!(is_closed_shape(ShapeKind::RightTriangle));
    assert!(!is_closed_shape(ShapeKind::Line));
    assert!(!is_closed_shape(ShapeKind::Polyline));
    assert!(!is_closed_shape(ShapeKind::Spline));
    assert_eq!(BoolOp::Difference.label(), "Difference");
    assert_eq!(BoolOp::all().len(), 4);
}

#[test]
fn redo_after_undo_of_operation_change() {
    let mut d: Doc = Document::new();
    d.add_shape(entry(ShapeKind::Circle, "a"));
    d.add_shape(entry(ShapeKind::Rectangle, "b"));
    d.create_boolean_group(0, 1, BoolOp::Union, 1, vec![9]);
    assert!(d.change_boolean_op(0, BoolOp::Difference) == Followup::Recompute(0));
    assert!(d.undo() == Followup::Recompute(0));
    assert_eq!(d.boolean_groups[0].op, BoolOp::Union);
    assert!(d.redo() == Followup::Recompute(0));
    assert_eq!(d.boolean_groups[0].op, BoolOp::Difference);
    assert_eq!(d.group_membership, vec![Some(0), Some(0)]);
    assert_eq!(names(&d), vec!["a", "b"]);
}

#[test]
fn redo_after_undo_restores_each_edit() {
    let mut d: Doc = Document::new();
    d.add_shape(entry(ShapeKind::Circle, "a"));
    d.add_shape(entry(ShapeKind::Rectangle, "b"));
    d.add_shape(entry(ShapeKind::Circle, "c"));
    // removal
    d.remove_shape(1);
    d.undo();
    assert_eq!(names(&d), vec!["a", "b", "c"]);
    d.redo();
    assert_eq!(names(&d), vec!["a", "c"]);
    assert_eq!(d.group_membership, vec![None, None]);
    // replacement
    assert!(d.update_shape(1, entry(ShapeKind::Circle, "c2")) == Followup::Nothing);
    d.undo();
    assert_eq!(names(&d), vec!["a", "c"]);
    assert!(d.redo() == Followup::Nothing);
    assert_eq!(names(&d), vec!["a", "c2"]);
    // group creation
    d.create_boolean_group(0, 1, BoolOp::Intersection, 3, vec![5]);
    d.undo();
    assert!(d.boolean_groups.is_empty());
    assert_eq!(d.group_membership, vec![None, None]);
    d.redo();
    assert_eq!(d.boolean_groups.len(), 1);
    assert_eq!(d.boolean_groups[0].op, BoolOp::Intersection);
    assert_eq!((d.boolean_groups[0].shape_a, d.boolean_groups[0].shape_b), (0, 1));
    assert_eq!(d.boolean_groups[0].cached_result, vec![5]);
    assert_eq!(d.group_membership, vec![Some(0), Some(0)]);
    // dissolution
    d.dissolve_boolean_group(0);
    d.undo();
    assert_eq!(d.group_membership, vec![Some(0), Some(0)]);
    d.redo();
    assert!(d.boolean_groups.is_empty());
    assert_eq!(d.group_membership, vec![None, None]);
}
