//! Boolean operations between two closed shapes, and the group that ties
//! them together in a document.

use vstd::prelude::*;

use crate::shape::ShapeKind;

verus! {

/// The set operation that a boolean group applies to its two shapes.
#[derive(Debug, Clone, Copy, PartialEq, Eq, Structural)]
pub enum BoolOp {
    Union,
    Intersection,
    Difference,
    Xor,
}

impl BoolOp {
    /// Every operation, in the order the user interface offers them.
    pub fn all() -> (ops: [BoolOp; 4])
        ensures
            ops@ == seq![BoolOp::Union, BoolOp::Intersection, BoolOp::Difference, BoolOp::Xor],
    {
        [BoolOp::Union, BoolOp::Intersection, BoolOp::Difference, BoolOp::Xor]
    }

    /// The name shown to the user.
    pub open spec fn spec_label(self) -> Seq<char> {
        match self {
            BoolOp::Union => "Union"@,
            BoolOp::Intersection => "Intersection"@,
            BoolOp::Difference => "Difference"@,
            BoolOp::Xor => "Xor"@,
        }
    }

    /// The name shown to the user.
    pub fn label(&self) -> (s: &'static str)
        ensures
            s@ == self.spec_label(),
    {
        match self {
            BoolOp::Union => "Union",
            BoolOp::Intersection => "Intersection",
            BoolOp::Difference => "Difference",
            BoolOp::Xor => "Xor",
        }
    }
}

/// Two shapes of a document combined by a boolean operation.
///
/// `St` is the style the combined outline is drawn with and `R` the cached
/// outline itself (a list of contours); the library only stores them.
pub struct BooleanGroup<St, R> {
    pub op: BoolOp,
    pub shape_a: usize,
    pub shape_b: usize,
    pub style: St,
    pub cached_result: R,
}

impl<St: Clone, R: Clone> BooleanGroup<St, R> {
    /// `other` is a copy of `self`: same operation and shapes, cloned payload.
    pub open spec fn is_copy_of(self, other: Self) -> bool {
        &&& other.op == self.op
        &&& other.shape_a == self.shape_a
        &&& other.shape_b == self.shape_b
        &&& cloned(self.style, other.style)
        &&& cloned(self.cached_result, other.cached_result)
    }

    /// A copy of the group, as `Clone` would make it.
    pub fn duplicate(&self) -> (r: Self)
        ensures
            self.is_copy_of(r),
    {
        BooleanGroup {
            op: self.op,
            shape_a: self.shape_a,
            shape_b: self.shape_b,
            style: self.style.clone(),
            cached_result: self.cached_result.clone(),
        }
    }
}

/// Only closed shapes take part in boolean operations.
pub open spec fn spec_is_closed_shape(kind: ShapeKind) -> bool {
    match kind {
        ShapeKind::Circle | ShapeKind::Rectangle | ShapeKind::RegularPolygon
        | ShapeKind::RightTriangle => true,
        ShapeKind::Line | ShapeKind::Polyline | ShapeKind::Spline => false,
    }
}

/// Returns true if a shape of this kind is closed and can take part in a
/// boolean operation.
pub fn is_closed_shape(kind: ShapeKind) -> (b: bool)
    ensures
        b == spec_is_closed_shape(kind),
{
    match kind {
        ShapeKind::Circle | ShapeKind::Rectangle | ShapeKind::RegularPolygon
        | ShapeKind::RightTriangle => true,
        ShapeKind::Line | ShapeKind::Polyline | ShapeKind::Spline => false,
    }
}

} // verus!
