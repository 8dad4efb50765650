//! The kinds of shape an editor document holds.

use vstd::prelude::*;

verus! {

/// Which kind of shape a document entry is. The geometry itself is held by
/// the caller; the library only needs to know the kind.
#[derive(Debug, Clone, Copy, PartialEq, Eq, Structural)]
pub enum ShapeKind {
    Circle,
    Rectangle,
    RegularPolygon,
    RightTriangle,
    Line,
    Polyline,
    Spline,
}

/// A shape of a document: its kind, and the geometry and style `P` that the
/// library carries without reading.
pub struct ShapeEntry<P> {
    pub kind: ShapeKind,
    pub data: P,
}

impl<P: Clone> ShapeEntry<P> {
    /// `other` is a copy of `self`: same kind, cloned payload.
    pub open spec fn is_copy_of(self, other: Self) -> bool {
        other.kind == self.kind && cloned(self.data, other.data)
    }

    /// A copy of the entry, as `Clone` would make it.
    pub fn duplicate(&self) -> (r: Self)
        ensures
            self.is_copy_of(r),
    {
        ShapeEntry { kind: self.kind, data: self.data.clone() }
    }
}

} // verus!
