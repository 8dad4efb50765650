//! The state of the side panels: which panel is open, which colour slot
//! the palette fills, and the palette indices that follow colours around
//! when the palette is reordered or shrinks.
//!
//! Palette indices as the panel shows them are 1-based: slot 0 is "no
//! colour" and slot `i >= 1` is `colors[i - 1]`.

use vstd::prelude::*;

verus! {

/// Which style colour the palette panel sets.
#[derive(Debug, Clone, Copy, PartialEq, Eq, Structural)]
pub enum PaletteTarget {
    Fill,
    Stroke,
}

/// What the side panel shows.
#[derive(Debug, Clone, Copy, PartialEq, Eq, Structural)]
pub enum SidebarMode {
    ToolConfig,
    Palette,
    Settings,
}

/// The side panel after `requested` is asked for: asking for the panel
/// that is open goes back to the tool settings.
pub fn next_sidebar_mode(current: SidebarMode, requested: SidebarMode) -> (m: SidebarMode)
    ensures
        m == (if current == requested {
            SidebarMode::ToolConfig
        } else {
            requested
        }),
{
    if current == requested {
        SidebarMode::ToolConfig
    } else {
        requested
    }
}

// ---------------------------------------------------------------------------
// Reordering and deleting colours
// ---------------------------------------------------------------------------

/// Where the colour moved from 0-based `src_vec` to before `target_vec`
/// lands, once taken out of a palette that then has `len_after` colours.
pub open spec fn insert_position(src_vec: int, target_vec: int, len_after: int) -> int {
    let at = if target_vec > src_vec {
        target_vec - 1
    } else {
        target_vec
    };
    if at < len_after {
        at
    } else {
        len_after
    }
}

/// The colours after the colour at 1-based `src` is moved to 1-based `target`.
pub open spec fn reordered<C>(colors: Seq<C>, src: int, target: int) -> Seq<C> {
    let s = src - 1;
    let rest = colors.remove(s);
    rest.insert(insert_position(s, target - 1, rest.len() as int), colors[s])
}

/// A 1-based index after the colour at 1-based `src` moved to 0-based
/// position `insert_at`.
pub open spec fn remapped(idx: int, src: int, insert_at: int) -> int {
    if idx == src {
        insert_at + 1
    } else {
        let vec_idx = idx - 1;
        let adjusted = if vec_idx >= src - 1 && vec_idx > 0 {
            vec_idx - 1
        } else {
            vec_idx
        };
        let final_idx = if adjusted >= insert_at {
            adjusted + 1
        } else {
            adjusted
        };
        final_idx + 1
    }
}

/// A 1-based index after the colour at 1-based `deleted` is deleted.
pub open spec fn after_delete(x: Option<usize>, deleted: usize) -> Option<usize> {
    match x {
        Some(i) => if i == deleted {
            None
        } else if i > deleted {
            Some((i - 1) as usize)
        } else {
            Some(i)
        },
        None => None,
    }
}

fn remap_index(idx: usize, src: usize, insert_at: usize) -> (r: usize)
    requires
        idx >= 1,
        src >= 1,
        insert_at < usize::MAX,
    ensures
        r == remapped(idx as int, src as int, insert_at as int),
{
    if idx == src {
        insert_at + 1
    } else {
        let vec_idx = idx - 1;
        let src_vec = src - 1;
        let adjusted = if vec_idx >= src_vec && vec_idx > 0 {
            vec_idx - 1
        } else {
            vec_idx
        };
        let final_idx = if adjusted >= insert_at {
            adjusted + 1
        } else {
            adjusted
        };
        final_idx + 1
    }
}

/// The palette panel's selection state.
#[derive(Debug, Clone, Copy, PartialEq, Eq, Structural)]
pub struct PaletteState {
    /// which style colour the palette sets, when the palette is expanded
    pub target: Option<PaletteTarget>,
    pub stroke_color_index: Option<usize>,
    pub fill_color_index: Option<usize>,
    /// the slot picked up for moving (1-based; slot 0 cannot move)
    pub reorder: Option<usize>,
    pub reorder_mode: bool,
    /// the slot whose colour is being edited
    pub color_picker_target: Option<usize>,
}

impl PaletteState {
    /// The chosen colour indices name palette slots, never "no colour".
    pub open spec fn wf(self) -> bool {
        &&& self.stroke_color_index matches Some(i) ==> i >= 1
        &&& self.fill_color_index matches Some(i) ==> i >= 1
    }

    /// The index a dropped colour leaves `x` at.
    pub open spec fn after_drop(x: Option<usize>, src: usize, insert_at: int) -> Option<usize> {
        match x {
            Some(i) => Some(remapped(i as int, src as int, insert_at) as usize),
            None => None,
        }
    }

    /// The state after the palette target `target` is asked for.
    pub open spec fn with_target_toggled(self, target: PaletteTarget) -> Self {
        PaletteState {
            target: if self.target == Some(target) {
                None
            } else {
                Some(target)
            },
            ..self
        }
    }

    pub fn new() -> (s: Self)
        ensures
            s.target is None,
            s.stroke_color_index == Some(1usize),
            s.fill_color_index is None,
            s.reorder is None,
            !s.reorder_mode,
            s.color_picker_target is None,
            s.wf(),
    {
        PaletteState {
            target: None,
            stroke_color_index: Some(1),
            fill_color_index: None,
            reorder: None,
            reorder_mode: false,
            color_picker_target: None,
        }
    }

    /// Expands the palette for `target`, or collapses it if it was
    /// expanded for `target` already.
    pub fn set_target(&mut self, target: PaletteTarget)
        ensures
            *final(self) == old(self).with_target_toggled(target),
    {
        if self.target == Some(target) {
            self.target = None;  // collapse
        } else {
            self.target = Some(target);  // expand
        }
    }

    /// Turns reordering on or off; nothing stays picked up.
    pub fn toggle_reorder_mode(&mut self)
        ensures
            *final(self) == (PaletteState {
                reorder_mode: !old(self).reorder_mode,
                reorder: None,
                ..*old(self)
            }),
    {
        self.reorder_mode = !self.reorder_mode;
        self.reorder = None;
    }

    /// Picks up slot `idx` for moving, or puts it down if it was picked up;
    /// slot 0 ("no colour") cannot move.
    pub fn pick_up(&mut self, idx: usize)
        ensures
            *final(self) == (if idx == 0 {
                *old(self)
            } else {
                PaletteState {
                    reorder: if old(self).reorder == Some(idx) {
                        None
                    } else {
                        Some(idx)
                    },
                    ..*old(self)
                }
            }),
    {
        if idx == 0 {
            return;
        }
        if self.reorder == Some(idx) {
            self.reorder = None;  // deselect
        } else {
            self.reorder = Some(idx);
        }
    }

    /// Drops the picked-up colour at slot `target_idx`: the colour moves
    /// there and the stroke and fill indices follow their colours. Nothing
    /// stays picked up.
    pub fn drop_at<C>(&mut self, colors: &mut Vec<C>, target_idx: usize)
        requires
            old(self).wf(),
            match old(self).reorder {
                Some(src) => src > 0 && target_idx > 0 && src != target_idx ==> src - 1 < old(
                    colors,
                )@.len(),
                None => true,
            },
        ensures
            final(self).wf(),
            match old(self).reorder {
                Some(src) => if src > 0 && target_idx > 0 && src != target_idx {
                    let insert_at = insert_position(
                        src - 1,
                        target_idx - 1,
                        old(colors)@.len() - 1,
                    );
                    &&& final(colors)@ == reordered(old(colors)@, src as int, target_idx as int)
                    &&& *final(self) == (PaletteState {
                        reorder: None,
                        stroke_color_index: Self::after_drop(
                            old(self).stroke_color_index,
                            src,
                            insert_at,
                        ),
                        fill_color_index: Self::after_drop(
                            old(self).fill_color_index,
                            src,
                            insert_at,
                        ),
                        ..*old(self)
                    })
                } else {
                    final(colors)@ == old(colors)@ && *final(self) == (PaletteState {
                        reorder: None,
                        ..*old(self)
                    })
                },
                None => final(colors)@ == old(colors)@ && *final(self) == *old(self),
            },
    {
        if let Some(src_idx) = self.reorder {
            if src_idx > 0 && target_idx > 0 && src_idx != target_idx {
                // Convert from 1-based UI indices to 0-based vec indices
                let src_vec = src_idx - 1;
                let target_vec = target_idx - 1;
                // Remove from old position
                let color = colors.remove(src_vec);
                // Adjust target if it was after the source
                let insert_at = if target_vec > src_vec {
                    target_vec - 1
                } else {
                    target_vec
                };
                // Clamp to valid range
                let insert_at = if insert_at < colors.len() {
                    insert_at
                } else {
                    colors.len()
                };
                colors.insert(insert_at, color);
                // Update chosen indices to follow their colors
                if let Some(si) = self.stroke_color_index {
                    self.stroke_color_index = Some(remap_index(si, src_idx, insert_at));
                }
                if let Some(fi) = self.fill_color_index {
                    self.fill_color_index = Some(remap_index(fi, src_idx, insert_at));
                }
            }
            self.reorder = None;
        }
    }

    /// Deletes the colour at slot `index`, if there is one; the stroke and
    /// fill indices and the edited slot follow their colours, or become
    /// none when their colour is the one deleted. Reports whether it did.
    pub fn delete_color<C>(&mut self, colors: &mut Vec<C>, index: usize) -> (deleted: bool)
        requires
            old(self).wf(),
        ensures
            final(self).wf(),
            deleted == (index > 0 && index <= old(colors)@.len()),
            deleted ==> final(colors)@ == old(colors)@.remove(index - 1) && *final(self) == (
            PaletteState {
                stroke_color_index: after_delete(old(self).stroke_color_index, index),
                fill_color_index: after_delete(old(self).fill_color_index, index),
                color_picker_target: after_delete(old(self).color_picker_target, index),
                ..*old(self)
            }),
            !deleted ==> final(colors)@ == old(colors)@ && *final(self) == *old(self),
    {
        if index > 0 && index <= colors.len() {
            colors.remove(index - 1);
            self.stroke_color_index = match self.stroke_color_index {
                Some(si) => if si == index {
                    None
                } else if si > index {
                    Some(si - 1)
                } else {
                    Some(si)
                },
                None => None,
            };
            self.fill_color_index = match self.fill_color_index {
                Some(fi) => if fi == index {
                    None
                } else if fi > index {
                    Some(fi - 1)
                } else {
                    Some(fi)
                },
                None => None,
            };
            // Close color picker if editing deleted color
            self.color_picker_target = match self.color_picker_target {
                Some(t) => if t == index {
                    None
                } else if t > index {
                    Some(t - 1)
                } else {
                    Some(t)
                },
                None => None,
            };
            true
        } else {
            false
        }
    }

    /// A click on slot `color_index`: when the palette is expanded for a
    /// target, hands back that target and the slot's colour (none for slot
    /// 0 or a slot past the end) and tracks the slot for the target. The
    /// palette collapses unless the click edits the selected shape.
    pub fn click_color<C: Copy>(&mut self, colors: &Vec<C>, color_index: usize, editing_selected: bool) -> (r: Option<(PaletteTarget, Option<C>)>)
        requires
            old(self).wf(),
        ensures
            final(self).wf(),
            match old(self).target {
                None => r is None && *final(self) == *old(self),
                Some(t) => {
                    let color = if color_index == 0 || color_index > colors@.len() {
                        None
                    } else {
                        Some(colors@[color_index - 1])
                    };
                    let chosen = if color_index == 0 {
                        None
                    } else {
                        Some(color_index)
                    };
                    &&& r == Some((t, color))
                    &&& *final(self) == (PaletteState {
                        target: if editing_selected {
                            Some(t)
                        } else {
                            None
                        },
                        fill_color_index: if t == PaletteTarget::Fill {
                            chosen
                        } else {
                            old(self).fill_color_index
                        },
                        stroke_color_index: if t == PaletteTarget::Stroke {
                            chosen
                        } else {
                            old(self).stroke_color_index
                        },
                        ..*old(self)
                    })
                },
            },
    {
        let target = match self.target {
            Some(t) => t,
            None => {
                return None;
            },
        };
        // Index 0 = None, index 1+ = palette.colors[i-1]
        let color = if color_index == 0 || color_index > colors.len() {
            None
        } else {
            Some(colors[color_index - 1])
        };
        // Update chosen indices
        let chosen = if color_index == 0 {
            None
        } else {
            Some(color_index)
        };
        match target {
            PaletteTarget::Fill => self.fill_color_index = chosen,
            PaletteTarget::Stroke => self.stroke_color_index = chosen,
        }
        if !editing_selected {
            self.target = None;  // collapse after selection
        }
        Some((target, color))
    }

    /// Starts editing slot `index`, if there is one; otherwise stops
    /// editing. Hands back the 0-based position of the edited colour.
    pub fn edit_color(&mut self, index: usize, palette_len: usize) -> (pos: Option<usize>)
        ensures
            pos == (if index > 0 && index <= palette_len {
                Some((index - 1) as usize)
            } else {
                None
            }),
            *final(self) == (PaletteState {
                color_picker_target: if index > 0 && index <= palette_len {
                    Some(index)
                } else {
                    None
                },
                ..*old(self)
            }),
    {
        if index > 0 && index <= palette_len {
            self.color_picker_target = Some(index);
            Some(index - 1)
        } else {
            self.color_picker_target = None;
            None
        }
    }

    /// Stops editing and hands back the 0-based position the edited colour
    /// goes to, if a slot that exists was being edited.
    pub fn finish_color_edit(&mut self, palette_len: usize) -> (pos: Option<usize>)
        ensures
            pos == (match old(self).color_picker_target {
                Some(i) => if i > 0 && i <= palette_len {
                    Some((i - 1) as usize)
                } else {
                    None
                },
                None => None,
            }),
            *final(self) == (PaletteState { color_picker_target: None, ..*old(self) }),
    {
        let pos = match self.color_picker_target {
            Some(i) => if i > 0 && i <= palette_len {
                Some(i - 1)
            } else {
                None
            },
            None => None,
        };
        self.color_picker_target = None;
        pos
    }

    /// After the palette is reset to the default one: stroke from the first
    /// colour, no fill, no colour edited.
    pub fn reset(&mut self)
        ensures
            *final(self) == (PaletteState {
                stroke_color_index: Some(1),
                fill_color_index: None,
                color_picker_target: None,
                ..*old(self)
            }),
            final(self).wf(),
    {
        self.stroke_color_index = Some(1);
        self.fill_color_index = None;
        self.color_picker_target = None;
    }

    /// After another palette is loaded: stroke from the first colour, no
    /// fill, no reordering.
    pub fn palette_loaded(&mut self)
        ensures
            *final(self) == (PaletteState {
                reorder: None,
                reorder_mode: false,
                stroke_color_index: Some(1),
                fill_color_index: None,
                ..*old(self)
            }),
            final(self).wf(),
    {
        self.reorder = None;
        self.reorder_mode = false;
        self.stroke_color_index = Some(1);
        self.fill_color_index = None;
    }
}

// ---------------------------------------------------------------------------
// The swatch grid
// ---------------------------------------------------------------------------

/// How a swatch's border is drawn.
#[derive(Debug, Clone, Copy, PartialEq, Eq, Structural)]
pub enum SwatchBorder {
    PickedUp,
    DropTarget,
    Selected,
    Plain,
}

/// What clicking a swatch does.
#[derive(Debug, Clone, Copy, PartialEq, Eq, Structural)]
pub enum SwatchAction {
    /// choose the slot's colour
    Click(usize),
    /// pick the slot's colour up for moving
    PickUp(usize),
    /// drop the picked-up colour at the slot
    Drop(usize),
}

/// One swatch of the palette grid.
#[derive(Debug, Clone, Copy, PartialEq, Eq, Structural)]
pub struct Swatch {
    /// the 1-based slot (0 is "no colour")
    pub index: usize,
    pub border: SwatchBorder,
    /// whether the border is drawn thick
    pub thick: bool,
    pub action: SwatchAction,
    /// whether the swatch is the last of its row (rows hold four)
    pub ends_row: bool,
}

/// Swatch `i` of a grid of `total` slots, with `selected` the slot the
/// target colour comes from and `src` the slot picked up for moving.
pub open spec fn swatch_at(
    i: usize,
    total: int,
    selected: Option<usize>,
    reorder_mode: bool,
    src: Option<usize>,
) -> Swatch {
    let is_selected = if i == 0 {
        selected is None
    } else {
        selected == Some(i)
    };
    let picked = src == Some(i);
    let drop_zone = reorder_mode && src is Some && i > 0;
    Swatch {
        index: i,
        border: if picked {
            SwatchBorder::PickedUp
        } else if drop_zone {
            SwatchBorder::DropTarget
        } else if is_selected {
            SwatchBorder::Selected
        } else {
            SwatchBorder::Plain
        },
        thick: picked || drop_zone || is_selected,
        action: if reorder_mode {
            if i == 0 {
                SwatchAction::Click(0)
            } else if src is Some {
                SwatchAction::Drop(i)
            } else {
                SwatchAction::PickUp(i)
            }
        } else {
            SwatchAction::Click(i)
        },
        ends_row: (i + 1) % 4 == 0 || i == total - 1,
    }
}

/// The swatch grid of a palette of `palette_len` colours: "no colour" and
/// then every colour, and, while a colour is picked up for moving, the
/// slot past the end to drop it at.
pub fn palette_swatches(
    palette_len: usize,
    selected: Option<usize>,
    reorder_mode: bool,
    src: Option<usize>,
) -> (r: (Vec<Swatch>, Option<usize>))
    requires
        palette_len < usize::MAX,
    ensures
        r.0@.len() == palette_len + 1,
        forall|i: int|
            0 <= i <= palette_len ==> #[trigger] r.0@[i] == swatch_at(
                i as usize,
                palette_len + 1,
                selected,
                reorder_mode,
                src,
            ),
        r.1 == (if reorder_mode && src is Some {
            Some((palette_len + 1) as usize)
        } else {
            None
        }),
{
    let total = palette_len + 1;  // +1 for "None" at index 0
    let mut swatches: Vec<Swatch> = Vec::new();
    let mut i: usize = 0;
    while i < total
        invariant
            total == palette_len + 1,
            i <= total,
            swatches@.len() == i,
            forall|j: int|
                0 <= j < i ==> #[trigger] swatches@[j] == swatch_at(
                    j as usize,
                    total as int,
                    selected,
                    reorder_mode,
                    src,
                ),
        decreases total - i,
    {
        let is_selected = if i == 0 {
            selected.is_none()
        } else {
            selected == Some(i)
        };
        let picked = src == Some(i);
        let drop_zone = reorder_mode && src.is_some() && i > 0;
        let border = if picked {
            SwatchBorder::PickedUp
        } else if drop_zone {
            SwatchBorder::DropTarget
        } else if is_selected {
            SwatchBorder::Selected
        } else {
            SwatchBorder::Plain
        };
        // Determine what clicking this swatch does
        let action = if reorder_mode {
            if i == 0 {
                // Can't pick up or drop on None
                SwatchAction::Click(0)
            } else if src.is_some() {
                SwatchAction::Drop(i)
            } else {
                SwatchAction::PickUp(i)
            }
        } else {
            SwatchAction::Click(i)
        };
        swatches.push(
            Swatch {
                index: i,
                border,
                thick: picked || drop_zone || is_selected,
                action,
                ends_row: (i + 1) % 4 == 0 || i == total - 1,
            },
        );
        i += 1;
    }
    // With a colour picked up, one more drop target past the last slot
    let end = if reorder_mode && src.is_some() {
        Some(total)
    } else {
        None
    };
    (swatches, end)
}

// ---------------------------------------------------------------------------
// Laws

// ---------------------------------------------------------------------------

/// After a colour is moved, an index that named a colour of the palette
/// names the same colour.
pub proof fn law_reorder_follows_colors<C>(colors: Seq<C>, src: int, target: int, i: int)
    requires
        1 <= src <= colors.len(),
        1 <= target,
        src != target,
        1 <= i <= colors.len(),
    ensures
        ({
            let j = remapped(i, src, insert_position(src - 1, target - 1, colors.len() - 1));
            let moved = reordered(colors, src, target);
            &&& moved.len() == colors.len()
            &&& 1 <= j <= moved.len()
            &&& moved[j - 1] == colors[i - 1]
        }),
{
    let s = src - 1;
    let rest = colors.remove(s);
    let at = insert_position(s, target - 1, rest.len() as int);
    let moved = rest.insert(at, colors[s]);
    assert(moved == reordered(colors, src, target));
    if i != src {
        let v = i - 1;
        let adjusted = if v >= s && v > 0 { v - 1 } else { v };
        assert(rest[adjusted] == colors[v]);
    }
}

/// After a colour is deleted, an index that named another colour of the
/// palette names the same colour.
pub proof fn law_delete_follows_colors<C>(colors: Seq<C>, index: usize, i: usize)
    requires
        1 <= index <= colors.len(),
        1 <= i <= colors.len(),
        i != index,
    ensures
        after_delete(Some(i), index) matches Some(j) && 1 <= j <= colors.len() - 1 && colors.remove(
            index - 1,
        )[j - 1] == colors[i - 1],
{
}

/// Asking twice for the same palette target leaves the panel as it was,
/// unless the palette was expanded for the other target.
pub proof fn law_set_target_twice(s: PaletteState, target: PaletteTarget)
    requires
        s.target is None || s.target == Some(target),
    ensures
        s.with_target_toggled(target).with_target_toggled(target) == s,
{
}

/// Moving the colour at 1-based slot `src` onto 1-based slot `target` (the
/// slot past the last colour included) keeps every colour: the moved colour
/// lands at 0-based position `target - 2` when the target is after it and
/// `target - 1` otherwise, and the others keep their order. A drop on the
/// slot past the end makes it the last colour.
pub proof fn law_drop_places_colour<C>(colors: Seq<C>, src: int, target: int)
    requires
        1 <= src <= colors.len(),
        1 <= target <= colors.len() + 1,
        src != target,
    ensures
        ({
            let moved = reordered(colors, src, target);
            let pos = if target > src {
                target - 2
            } else {
                target - 1
            };
            &&& moved.len() == colors.len()
            &&& 0 <= pos < moved.len()
            &&& moved[pos] == colors[src - 1]
            &&& moved.remove(pos) == colors.remove(src - 1)
            &&& target == colors.len() + 1 ==> moved.last() == colors[src - 1]
        }),
{
    let s = src - 1;
    let rest = colors.remove(s);
    let pos = if target > src { target - 2 } else { target - 1 };
    assert(insert_position(s, target - 1, rest.len() as int) == pos);
    let moved = rest.insert(pos, colors[s]);
    assert(moved == reordered(colors, src, target));
    assert(moved.remove(pos) =~= rest);
}

} // verus!
