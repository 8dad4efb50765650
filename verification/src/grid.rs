//! The canvas grid: its style, and when points snap to it.

use vstd::prelude::*;

verus! {

#[derive(Debug, Clone, Copy, PartialEq, Eq, Structural)]
pub enum GridStyle {
    Lines,
    Dots,
    Isometric,
}

impl GridStyle {
    /// Every style, in the order the settings offer them.
    pub fn all() -> (styles: [GridStyle; 3])
        ensures
            styles@ == seq![GridStyle::Lines, GridStyle::Dots, GridStyle::Isometric],
    {
        [GridStyle::Lines, GridStyle::Dots, GridStyle::Isometric]
    }

    pub open spec fn spec_label(self) -> Seq<char> {
        match self {
            GridStyle::Lines => "Lines"@,
            GridStyle::Dots => "Dots"@,
            GridStyle::Isometric => "Isometric"@,
        }
    }

    /// The name shown to the user.
    pub fn label(&self) -> (s: &'static str)
        ensures
            s@ == self.spec_label(),
    {
        match self {
            GridStyle::Lines => "Lines",
            GridStyle::Dots => "Dots",
            GridStyle::Isometric => "Isometric",
        }
    }
}

/// The grid settings; `F` is the cell size.
#[derive(Debug, Clone, Copy)]
pub struct GridConfig<F> {
    pub style: GridStyle,
    pub size: F,
    pub visible: bool,
    pub snap: bool,
}

impl<F> GridConfig<F> {
    /// The default grid: visible lines that points snap to, of cell `size`.
    pub fn with_size(size: F) -> (g: Self)
        ensures
            g.style == GridStyle::Lines,
            g.size == size,
            g.visible,
            g.snap,
    {
        GridConfig { style: GridStyle::Lines, size, visible: true, snap: true }
    }

    /// Whether a pointer position snaps to the grid: only to a visible
    /// grid, and holding shift inverts the snap setting.
    pub fn snaps(&self, shift_held: bool) -> (b: bool)
        ensures
            b == (self.visible && (self.snap != shift_held)),
    {
        self.visible && (self.snap ^ shift_held)
    }
}

} // verus!
