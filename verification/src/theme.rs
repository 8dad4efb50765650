//! Themes: a five-colour palette per mode (dark and light), a mapping from
//! the editable UI elements to palette slots, and the colours of every UI
//! element that follow from them.

use vstd::prelude::*;

use crate::palette::Rgb8;

verus! {

#[derive(Debug, Clone, Copy, PartialEq, Eq, Structural)]
pub enum ThemeMode {
    Dark,
    Light,
}

/// A named palette of five colours.
#[derive(Debug, Clone)]
pub struct ThemePalette<C> {
    pub name: String,
    pub colors: [C; 5],
}

/// The Twilight 5 palette: the default in dark mode.
pub open spec fn twilight5() -> Seq<Rgb8> {
    seq![
        Rgb8 { r: 0xfb, g: 0xbb, b: 0xad },
        Rgb8 { r: 0xee, g: 0x86, b: 0x95 },
        Rgb8 { r: 0x4a, g: 0x7a, b: 0x96 },
        Rgb8 { r: 0x33, g: 0x3f, b: 0x58 },
        Rgb8 { r: 0x29, g: 0x28, b: 0x31 },
    ]
}

/// The Golden Sunset palette: the default in light mode.
pub open spec fn golden_sunset() -> Seq<Rgb8> {
    seq![
        Rgb8 { r: 0xff, g: 0xec, b: 0xd6 },
        Rgb8 { r: 0xff, g: 0xb8, b: 0x73 },
        Rgb8 { r: 0xcb, g: 0x76, b: 0x5c },
        Rgb8 { r: 0x7a, g: 0x4a, b: 0x5a },
        Rgb8 { r: 0x25, g: 0x21, b: 0x3e },
    ]
}

impl ThemePalette<Rgb8> {
    pub fn default_dark() -> (p: Self)
        ensures
            p.name@ == "Twilight 5"@,
            p.colors@ == twilight5(),
    {
        let colors = [
            Rgb8 { r: 0xfb, g: 0xbb, b: 0xad },  // peachy-pink
            Rgb8 { r: 0xee, g: 0x86, b: 0x95 },  // muted rose
            Rgb8 { r: 0x4a, g: 0x7a, b: 0x96 },  // blue-gray
            Rgb8 { r: 0x33, g: 0x3f, b: 0x58 },  // deep navy
            Rgb8 { r: 0x29, g: 0x28, b: 0x31 },  // dark charcoal
        ];
        assert(colors@ =~= twilight5());
        ThemePalette { name: String::from_str("Twilight 5"), colors }
    }

    /// Golden Sunset palette (https://lospec.com/palette-list/golden-sunset)
    pub fn default_light() -> (p: Self)
        ensures
            p.name@ == "Golden Sunset"@,
            p.colors@ == golden_sunset(),
    {
        let colors = [
            Rgb8 { r: 0xff, g: 0xec, b: 0xd6 },  // light peach
            Rgb8 { r: 0xff, g: 0xb8, b: 0x73 },  // warm orange
            Rgb8 { r: 0xcb, g: 0x76, b: 0x5c },  // dusty rose
            Rgb8 { r: 0x7a, g: 0x4a, b: 0x5a },  // muted plum
            Rgb8 { r: 0x25, g: 0x21, b: 0x3e },  // deep indigo
        ];
        assert(colors@ =~= golden_sunset());
        ThemePalette { name: String::from_str("Golden Sunset"), colors }
    }

    pub fn from_mode(mode: ThemeMode) -> (p: Self)
        ensures
            p.colors@ == (match mode {
                ThemeMode::Dark => twilight5(),
                ThemeMode::Light => golden_sunset(),
            }),
            p.name@ == (match mode {
                ThemeMode::Dark => "Twilight 5"@,
                ThemeMode::Light => "Golden Sunset"@,
            }),
    {
        match mode {
            ThemeMode::Dark => Self::default_dark(),
            ThemeMode::Light => Self::default_light(),
        }
    }
}

/// Indices into `ThemePalette::colors` for the 7 editable UI elements.
/// Order matches `editable_fields`: icon, text, panel_bg, panel_border,
/// canvas_bg, grid, selection_highlight.
#[derive(Debug, Clone, Copy)]
pub struct ThemeMapping {
    pub indices: [usize; 7],
}

impl ThemeMapping {
    /// Every index names one of the five palette slots.
    pub open spec fn valid(self) -> bool {
        forall|i: int| 0 <= i < 7 ==> #[trigger] self.indices@[i] < 5
    }

    /// Whether every index names one of the five palette slots.
    pub fn is_valid(&self) -> (b: bool)
        ensures
            b == self.valid(),
    {
        let mut i: usize = 0;
        while i < 7
            invariant
                i <= 7,
                forall|j: int| 0 <= j < i ==> #[trigger] self.indices@[j] < 5,
            decreases 7 - i,
        {
            if self.indices[i] >= 5 {
                return false;
            }
            i += 1;
        }
        true
    }

    pub fn default_dark() -> (m: Self)
        ensures
            m.indices@ == seq![0usize, 0, 4, 3, 3, 2, 2],
            m.valid(),
    {
        // T1=0, T2=1, T3=2, T4=3, T5=4
        let m = ThemeMapping { indices: [0, 0, 4, 3, 3, 2, 2] };
        assert(m.indices@ =~= seq![0usize, 0, 4, 3, 3, 2, 2]);
        m
    }

    pub fn default_light() -> (m: Self)
        ensures
            m.indices@ == seq![4usize, 4, 0, 1, 0, 1, 3],
            m.valid(),
    {
        let m = ThemeMapping { indices: [4, 4, 0, 1, 0, 1, 3] };
        assert(m.indices@ =~= seq![4usize, 4, 0, 1, 0, 1, 3]);
        m
    }

    pub fn from_mode(mode: ThemeMode) -> (m: Self)
        ensures
            m.indices@ == (match mode {
                ThemeMode::Dark => seq![0usize, 0, 4, 3, 3, 2, 2],
                ThemeMode::Light => seq![4usize, 4, 0, 1, 0, 1, 3],
            }),
            m.valid(),
    {
        match mode {
            ThemeMode::Dark => Self::default_dark(),
            ThemeMode::Light => Self::default_light(),
        }
    }

    /// Maps the editable element `element_idx` to palette slot
    /// `palette_idx`, when both exist; reports whether it did.
    pub fn set_element_palette_index(&mut self, element_idx: usize, palette_idx: usize) -> (done: bool)
        ensures
            done == (element_idx < 7 && palette_idx < 5),
            final(self).indices@ == (if done {
                old(self).indices@.update(element_idx as int, palette_idx)
            } else {
                old(self).indices@
            }),
            old(self).valid() ==> final(self).valid(),
    {
        if element_idx < 7 && palette_idx < 5 {
            self.indices[element_idx] = palette_idx;
            true
        } else {
            false
        }
    }
}

/// The key and label of the editable UI element `i`.
pub open spec fn editable_field(i: int) -> (Seq<char>, Seq<char>) {
    if i == 0 {
        ("icon_color"@, "Icon"@)
    } else if i == 1 {
        ("text"@, "Text"@)
    } else if i == 2 {
        ("panel_bg"@, "Panel BG"@)
    } else if i == 3 {
        ("panel_border"@, "Panel Border"@)
    } else if i == 4 {
        ("canvas_bg"@, "Canvas BG"@)
    } else if i == 5 {
        ("grid"@, "Grid"@)
    } else {
        ("selection_highlight"@, "Selection"@)
    }
}

/// The editable UI elements, as (key, label), in mapping order.
pub fn editable_fields() -> (f: [(&'static str, &'static str); 7])
    ensures
        forall|i: int| 0 <= i < 7 ==> (#[trigger] f@[i]).0@ == editable_field(i).0 && f@[i].1@
            == editable_field(i).1,
{
    [
        ("icon_color", "Icon"),
        ("text", "Text"),
        ("panel_bg", "Panel BG"),
        ("panel_border", "Panel Border"),
        ("canvas_bg", "Canvas BG"),
        ("grid", "Grid"),
        ("selection_highlight", "Selection"),
    ]
}

/// The colour of every UI element.
#[derive(Debug, Clone, Copy)]
pub struct EditorColors<C> {
    // Canvas
    pub canvas_bg: C,
    pub grid_line: C,
    pub grid_dot: C,
    // Tool overlays
    pub selection_highlight: C,
    pub pen_anchor: C,
    pub pen_handle_stroke: C,
    pub pen_handle_fill: C,
    pub pen_curve: C,
    pub pen_preview: C,
    pub polyline_dot: C,
    // Sidebar swatches
    pub swatch_border: C,
    pub swatch_border_selected: C,
    pub swatch_border_picked_up: C,
    pub swatch_border_drop_target: C,
    pub swatch_none_bg: C,
    pub swatch_none_text: C,
    pub end_drop_bg: C,
    pub end_drop_text: C,
    pub end_drop_border: C,
    // Icons & text
    pub icon_color: C,
    pub text: C,
    // Floating panels
    pub panel_bg: C,
    pub panel_border: C,
    pub panel_button_active: C,
    pub panel_button_hover: C,
}

/// The UI colours for palette `p` in `mode` with mapping `m`: the editable
/// elements take the slots `m` names, the others fixed slots per mode. In
/// dark mode swatch borders take `dimmed`, the palette's third colour at
/// half brightness.
pub open spec fn editor_colors_spec<C>(p: Seq<C>, mode: ThemeMode, m: Seq<usize>, dimmed: C) -> EditorColors<C> {
    let dark = mode == ThemeMode::Dark;
    EditorColors {
        icon_color: p[m[0] as int],
        text: p[m[1] as int],
        panel_bg: p[m[2] as int],
        panel_border: p[m[3] as int],
        canvas_bg: p[m[4] as int],
        grid_line: p[m[5] as int],
        grid_dot: p[m[5] as int],
        selection_highlight: p[m[6] as int],
        pen_anchor: if dark { p[2] } else { p[3] },
        pen_handle_stroke: p[2],
        pen_handle_fill: if dark { p[4] } else { p[0] },
        pen_curve: if dark { p[0] } else { p[4] },
        pen_preview: if dark { p[1] } else { p[2] },
        polyline_dot: if dark { p[2] } else { p[3] },
        swatch_border: if dark { dimmed } else { p[2] },
        swatch_border_selected: if dark { p[2] } else { p[3] },
        swatch_border_picked_up: if dark { p[0] } else { p[4] },
        swatch_border_drop_target: if dark { p[1] } else { p[3] },
        swatch_none_bg: if dark { p[3] } else { p[0] },
        swatch_none_text: if dark { p[1] } else { p[3] },
        end_drop_bg: if dark { p[3] } else { p[0] },
        end_drop_text: if dark { p[2] } else { p[3] },
        end_drop_border: if dark { p[2] } else { p[3] },
        panel_button_active: p[2],
        panel_button_hover: if dark { p[3] } else { p[0] },
    }
}

impl<C: Copy> EditorColors<C> {
    /// The UI colours for `palette` in `mode`: the editable elements take
    /// the slots `mapping` names, the others fixed slots per mode. In dark
    /// mode swatch borders take `dimmed_slot2`, the palette's third colour
    /// at half brightness.
    pub fn from_palette(palette: &[C; 5], mode: ThemeMode, mapping: &ThemeMapping, dimmed_slot2: C) -> (c: Self)
        requires
            mapping.valid(),
        ensures
            c == editor_colors_spec(palette@, mode, mapping.indices@, dimmed_slot2),
    {
        let p = palette;
        let m = &mapping.indices;
        assert(m@[0] < 5 && m@[1] < 5 && m@[2] < 5 && m@[3] < 5 && m@[4] < 5 && m@[5] < 5 && m@[6] < 5);

        // Editable fields from mapping
        let icon_color = p[m[0]];
        let text = p[m[1]];
        let panel_bg = p[m[2]];
        let panel_border = p[m[3]];
        let canvas_bg = p[m[4]];
        let grid = p[m[5]];
        let selection_highlight = p[m[6]];

        // Non-editable fields derived from palette + mode
        match mode {
            ThemeMode::Dark => EditorColors {
                canvas_bg,
                grid_line: grid,
                grid_dot: grid,
                selection_highlight,
                pen_anchor: p[2],
                pen_handle_stroke: p[2],
                pen_handle_fill: p[4],
                pen_curve: p[0],
                pen_preview: p[1],
                polyline_dot: p[2],
                swatch_border: dimmed_slot2,
                swatch_border_selected: p[2],
                swatch_border_picked_up: p[0],
                swatch_border_drop_target: p[1],
                swatch_none_bg: p[3],
                swatch_none_text: p[1],
                end_drop_bg: p[3],
                end_drop_text: p[2],
                end_drop_border: p[2],
                icon_color,
                text,
                panel_bg,
                panel_border,
                panel_button_active: p[2],
                panel_button_hover: p[3],
            },
            ThemeMode::Light => EditorColors {
                canvas_bg,
                grid_line: grid,
                grid_dot: grid,
                selection_highlight,
                pen_anchor: p[3],
                pen_handle_stroke: p[2],
                pen_handle_fill: p[0],
                pen_curve: p[4],
                pen_preview: p[2],
                polyline_dot: p[3],
                swatch_border: p[2],
                swatch_border_selected: p[3],
                swatch_border_picked_up: p[4],
                swatch_border_drop_target: p[3],
                swatch_none_bg: p[0],
                swatch_none_text: p[3],
                end_drop_bg: p[0],
                end_drop_text: p[3],
                end_drop_border: p[3],
                icon_color,
                text,
                panel_bg,
                panel_border,
                panel_button_active: p[2],
                panel_button_hover: p[0],
            },
        }
    }
}

/// The colours a UI toolkit theme is built from.
#[derive(Debug, Clone, Copy)]
pub struct ThemeColors<C> {
    pub background: C,
    pub text: C,
    pub primary: C,
    pub success: C,
    pub danger: C,
    pub warning: C,
}

/// The toolkit theme colours for `palette` in `mode`.
pub fn theme_colors<C: Copy>(palette: &[C; 5], mode: ThemeMode) -> (t: ThemeColors<C>)
    ensures
        ({
            let p = palette@;
            match mode {
                ThemeMode::Dark => t.background == p[4] && t.text == p[0] && t.primary == p[2]
                    && t.success == p[2] && t.danger == p[1] && t.warning == p[0],
                ThemeMode::Light => t.background == p[0] && t.text == p[4] && t.primary == p[3]
                    && t.success == p[3] && t.danger == p[1] && t.warning == p[2],
            }
        }),
{
    let p = palette;
    match mode {
        ThemeMode::Dark => ThemeColors {
            background: p[4],
            text: p[0],
            primary: p[2],
            success: p[2],
            danger: p[1],
            warning: p[0],
        },
        ThemeMode::Light => ThemeColors {
            background: p[0],
            text: p[4],
            primary: p[3],
            success: p[3],
            danger: p[1],
            warning: p[2],
        },
    }
}

/// The name of the toolkit theme in `mode`.
pub fn theme_name(mode: ThemeMode) -> (s: &'static str)
    ensures
        s@ == (match mode {
            ThemeMode::Dark => "Custom Dark"@,
            ThemeMode::Light => "Custom Light"@,
        }),
{
    match mode {
        ThemeMode::Dark => "Custom Dark",
        ThemeMode::Light => "Custom Light",
    }
}

/// The theme settings of the editor: the palette and mapping in use, and
/// those of the other mode, kept for when the mode is switched back.
pub struct ThemeState<Pal> {
    pub mode: ThemeMode,
    pub palette: Pal,
    pub mapping: ThemeMapping,
    pub other_palette: Pal,
    pub other_mapping: ThemeMapping,
    /// the palette slot whose colour is being edited, if any
    pub editing_palette_idx: Option<usize>,
}

impl<Pal> ThemeState<Pal> {
    pub open spec fn dark_palette(self) -> Pal {
        if self.mode == ThemeMode::Dark { self.palette } else { self.other_palette }
    }

    pub open spec fn dark_mapping(self) -> ThemeMapping {
        if self.mode == ThemeMode::Dark { self.mapping } else { self.other_mapping }
    }

    pub open spec fn light_palette(self) -> Pal {
        if self.mode == ThemeMode::Dark { self.other_palette } else { self.palette }
    }

    pub open spec fn light_mapping(self) -> ThemeMapping {
        if self.mode == ThemeMode::Dark { self.other_mapping } else { self.mapping }
    }

    /// Both mappings, the one in use and the one kept for the other mode,
    /// name palette slots only. Every edit of the theme state keeps this.
    pub open spec fn mappings_valid(self) -> bool {
        self.mapping.valid() && self.other_mapping.valid()
    }

    /// Both states give each mode the same palette and mapping.
    pub open spec fn same_assignment(self, other: Self) -> bool {
        &&& self.dark_palette() == other.dark_palette()
        &&& self.dark_mapping() == other.dark_mapping()
        &&& self.light_palette() == other.light_palette()
        &&& self.light_mapping() == other.light_mapping()
    }

    /// The state for saved settings: the palette and mapping of `mode` in
    /// use, those of the other mode kept.
    pub fn from_saved(
        mode: ThemeMode,
        dark_palette: Pal,
        dark_mapping: ThemeMapping,
        light_palette: Pal,
        light_mapping: ThemeMapping,
    ) -> (s: Self)
        ensures
            s.mode == mode,
            s.dark_palette() == dark_palette,
            s.dark_mapping() == dark_mapping,
            s.light_palette() == light_palette,
            s.light_mapping() == light_mapping,
            s.editing_palette_idx is None,
            s.mappings_valid() == (dark_mapping.valid() && light_mapping.valid()),
    {
        match mode {
            ThemeMode::Dark => ThemeState {
                mode,
                palette: dark_palette,
                mapping: dark_mapping,
                other_palette: light_palette,
                other_mapping: light_mapping,
                editing_palette_idx: None,
            },
            ThemeMode::Light => ThemeState {
                mode,
                palette: light_palette,
                mapping: light_mapping,
                other_palette: dark_palette,
                other_mapping: dark_mapping,
                editing_palette_idx: None,
            },
        }
    }

    /// The dark palette and mapping, then the light ones, for saving.
    pub fn by_mode(&self) -> (r: (&Pal, &ThemeMapping, &Pal, &ThemeMapping))
        ensures
            *r.0 == self.dark_palette(),
            *r.1 == self.dark_mapping(),
            *r.2 == self.light_palette(),
            *r.3 == self.light_mapping(),
    {
        match self.mode {
            ThemeMode::Dark => (&self.palette, &self.mapping, &self.other_palette, &self.other_mapping),
            ThemeMode::Light => (&self.other_palette, &self.other_mapping, &self.palette, &self.mapping),
        }
    }

    /// Switches to `mode`, if it is not the mode in use: the palettes and
    /// mappings trade places and colour editing stops. Reports whether the
    /// mode changed. Each mode keeps its own palette and mapping.
    pub fn set_mode(&mut self, mode: ThemeMode) -> (changed: bool)
        ensures
            changed == (mode != old(self).mode),
            final(self).mode == mode,
            final(self).same_assignment(*old(self)),
            final(self).mappings_valid() == old(self).mappings_valid(),
            final(self).editing_palette_idx == (if changed {
                None
            } else {
                old(self).editing_palette_idx
            }),
    {
        if mode != self.mode {
            // Swap current into other, other into current
            core::mem::swap(&mut self.palette, &mut self.other_palette);
            core::mem::swap(&mut self.mapping, &mut self.other_mapping);
            self.mode = mode;
            self.editing_palette_idx = None;
            true
        } else {
            false
        }
    }

    /// Starts editing palette slot `idx`, if there is one; reports whether
    /// it did.
    pub fn edit_palette_color(&mut self, idx: usize) -> (started: bool)
        ensures
            started == (idx < 5),
            final(self).editing_palette_idx == (if started {
                Some(idx)
            } else {
                old(self).editing_palette_idx
            }),
            final(self).mode == old(self).mode,
            final(self).palette == old(self).palette,
            final(self).mapping == old(self).mapping,
            final(self).other_palette == old(self).other_palette,
            final(self).other_mapping == old(self).other_mapping,
    {
        if idx < 5 {
            self.editing_palette_idx = Some(idx);
            true
        } else {
            false
        }
    }

    /// Stops editing and names the slot that the edited colour goes to, if
    /// one was being edited.
    pub fn finish_palette_edit(&mut self) -> (slot: Option<usize>)
        ensures
            slot == (match old(self).editing_palette_idx {
                Some(i) => if i < 5 {
                    Some(i)
                } else {
                    None
                },
                None => None,
            }),
            final(self).editing_palette_idx is None,
            final(self).mode == old(self).mode,
            final(self).palette == old(self).palette,
            final(self).mapping == old(self).mapping,
            final(self).other_palette == old(self).other_palette,
            final(self).other_mapping == old(self).other_mapping,
    {
        let slot = match self.editing_palette_idx {
            Some(i) => if i < 5 {
                Some(i)
            } else {
                None
            },
            None => None,
        };
        self.editing_palette_idx = None;
        slot
    }

    /// Puts back the default mapping of the mode in use.
    pub fn reset_mapping(&mut self)
        ensures
            final(self).mapping.indices@ == (match old(self).mode {
                ThemeMode::Dark => seq![0usize, 0, 4, 3, 3, 2, 2],
                ThemeMode::Light => seq![4usize, 4, 0, 1, 0, 1, 3],
            }),
            final(self).mapping.valid(),
            final(self).mode == old(self).mode,
            final(self).palette == old(self).palette,
            final(self).other_palette == old(self).other_palette,
            final(self).other_mapping == old(self).other_mapping,
            final(self).editing_palette_idx == old(self).editing_palette_idx,
    {
        self.mapping = ThemeMapping::from_mode(self.mode);
    }
}

/// Copies the first colours of a loaded palette over the theme palette, as
/// many as fit.
pub fn load_theme_colors<C: Copy>(dst: &mut [C; 5], src: &[C])
    ensures
        forall|i: int|
            0 <= i < 5 ==> #[trigger] final(dst)@[i] == if i < src@.len() {
                src@[i]
            } else {
                old(dst)@[i]
            },
{
    let mut i: usize = 0;
    while i < 5 && i < src.len()
        invariant
            i <= 5,
            forall|j: int|
                0 <= j < 5 ==> #[trigger] dst@[j] == if j < i && j < src@.len() {
                    src@[j]
                } else {
                    old(dst)@[j]
                },
        decreases 5 - i,
    {
        dst[i] = src[i];
        i += 1;
    }
}

/// The theme settings together with the UI colours built from them. `C` is
/// a colour; `dimmed` is the third colour of the palette in use at half
/// brightness and `other_dimmed` that of the palette kept for the other
/// mode (the caller dims colours: it is arithmetic on the colour's channels).
pub struct Appearance<C> {
    pub theme: ThemeState<ThemePalette<C>>,
    pub dimmed: C,
    pub other_dimmed: C,
    pub colors: EditorColors<C>,
}

impl<C: Copy> Appearance<C> {
    /// The UI colours that the theme settings give.
    pub open spec fn colors_spec(self) -> EditorColors<C> {
        editor_colors_spec(self.theme.palette.colors@, self.theme.mode, self.theme.mapping.indices@, self.dimmed)
    }

    /// The mapping in use names palette slots only, and the UI colours are
    /// those the theme settings give. Every edit keeps this, and keeps the
    /// mapping of the other mode valid when it was.
    pub open spec fn wf(self) -> bool {
        self.theme.mapping.valid() && self.colors == self.colors_spec()
    }

    fn rebuild(&mut self)
        requires
            old(self).theme.mapping.valid(),
        ensures
            final(self).theme == old(self).theme,
            final(self).dimmed == old(self).dimmed,
            final(self).other_dimmed == old(self).other_dimmed,
            final(self).colors == old(self).colors_spec(),
    {
        let colors = EditorColors::from_palette(&self.theme.palette.colors, self.theme.mode, &self.theme.mapping, self.dimmed);
        self.colors = colors;
    }

    /// The appearance of `theme`, its colours built.
    pub fn new(theme: ThemeState<ThemePalette<C>>, dimmed: C, other_dimmed: C) -> (a: Self)
        requires
            theme.mapping.valid(),
        ensures
            a.wf(),
            a.theme == theme,
            a.dimmed == dimmed,
            a.other_dimmed == other_dimmed,
    {
        let colors = EditorColors::from_palette(&theme.palette.colors, theme.mode, &theme.mapping, dimmed);
        Appearance { theme, dimmed, other_dimmed, colors }
    }

    /// Switches to `mode` (see `ThemeState::set_mode`); the dimmed colours
    /// trade places with the palettes. Reports whether the mode changed.
    pub fn set_mode(&mut self, mode: ThemeMode) -> (changed: bool)
        requires
            old(self).wf(),
            mode != old(self).theme.mode ==> old(self).theme.other_mapping.valid(),
        ensures
            final(self).wf(),
            old(self).theme.mappings_valid() ==> final(self).theme.mappings_valid(),
            changed == (mode != old(self).theme.mode),
            final(self).theme.mode == mode,
            final(self).theme.same_assignment(old(self).theme),
            final(self).theme.editing_palette_idx == (if changed {
                None
            } else {
                old(self).theme.editing_palette_idx
            }),
            final(self).dimmed == (if changed { old(self).other_dimmed } else { old(self).dimmed }),
            final(self).other_dimmed == (if changed { old(self).dimmed } else { old(self).other_dimmed }),
    {
        let changed = self.theme.set_mode(mode);
        if changed {
            core::mem::swap(&mut self.dimmed, &mut self.other_dimmed);
            self.rebuild();
        }
        changed
    }

    /// Maps element `element_idx` to palette slot `palette_idx`, when both
    /// exist (see `ThemeMapping::set_element_palette_index`).
    pub fn set_element_palette_index(&mut self, element_idx: usize, palette_idx: usize) -> (done: bool)
        requires
            old(self).wf(),
        ensures
            final(self).wf(),
            old(self).theme.mappings_valid() ==> final(self).theme.mappings_valid(),
            done == (element_idx < 7 && palette_idx < 5),
            final(self).theme.mapping.indices@ == (if done {
                old(self).theme.mapping.indices@.update(element_idx as int, palette_idx)
            } else {
                old(self).theme.mapping.indices@
            }),
            final(self).theme.mode == old(self).theme.mode,
            final(self).theme.palette == old(self).theme.palette,
            final(self).theme.other_palette == old(self).theme.other_palette,
            final(self).theme.other_mapping == old(self).theme.other_mapping,
            final(self).theme.editing_palette_idx == old(self).theme.editing_palette_idx,
            final(self).dimmed == old(self).dimmed,
            final(self).other_dimmed == old(self).other_dimmed,
    {
        let done = self.theme.mapping.set_element_palette_index(element_idx, palette_idx);
        if done {
            self.rebuild();
        }
        done
    }

    /// Puts back the default mapping of the mode in use.
    pub fn reset_mapping(&mut self)
        requires
            old(self).wf(),
        ensures
            final(self).wf(),
            old(self).theme.mappings_valid() ==> final(self).theme.mappings_valid(),
            final(self).theme.mapping.indices@ == (match old(self).theme.mode {
                ThemeMode::Dark => seq![0usize, 0, 4, 3, 3, 2, 2],
                ThemeMode::Light => seq![4usize, 4, 0, 1, 0, 1, 3],
            }),
            final(self).theme.mode == old(self).theme.mode,
            final(self).theme.palette == old(self).theme.palette,
            final(self).theme.other_palette == old(self).theme.other_palette,
            final(self).theme.other_mapping == old(self).theme.other_mapping,
            final(self).theme.editing_palette_idx == old(self).theme.editing_palette_idx,
            final(self).dimmed == old(self).dimmed,
            final(self).other_dimmed == old(self).other_dimmed,
    {
        self.theme.reset_mapping();
        self.rebuild();
    }

    /// Finishes the palette colour edit in progress, if any: the edited
    /// slot takes `color`, and `dimmed` is `color` at half brightness.
    /// Names the slot that changed.
    pub fn apply_palette_edit(&mut self, color: C, dimmed: C) -> (slot: Option<usize>)
        requires
            old(self).wf(),
        ensures
            final(self).wf(),
            old(self).theme.mappings_valid() ==> final(self).theme.mappings_valid(),
            slot == (match old(self).theme.editing_palette_idx {
                Some(i) => if i < 5 {
                    Some(i)
                } else {
                    None
                },
                None => None,
            }),
            final(self).theme.editing_palette_idx is None,
            final(self).theme.palette.colors@ == (match slot {
                Some(i) => old(self).theme.palette.colors@.update(i as int, color),
                None => old(self).theme.palette.colors@,
            }),
            final(self).theme.palette.name == old(self).theme.palette.name,
            final(self).theme.mode == old(self).theme.mode,
            final(self).theme.mapping == old(self).theme.mapping,
            final(self).theme.other_palette == old(self).theme.other_palette,
            final(self).theme.other_mapping == old(self).theme.other_mapping,
            final(self).dimmed == (if slot == Some(2usize) { dimmed } else { old(self).dimmed }),
            final(self).other_dimmed == old(self).other_dimmed,
    {
        let slot = self.theme.finish_palette_edit();
        if let Some(i) = slot {
            self.theme.palette.colors.set(i, color);
            if i == 2 {
                self.dimmed = dimmed;
            }
            self.rebuild();
        }
        slot
    }

    /// Puts `palette` in use for the current mode and stops colour editing;
    /// `dimmed` is its third colour at half brightness.
    pub fn set_palette(&mut self, palette: ThemePalette<C>, dimmed: C)
        requires
            old(self).wf(),
        ensures
            final(self).wf(),
            old(self).theme.mappings_valid() ==> final(self).theme.mappings_valid(),
            final(self).theme.palette == palette,
            final(self).theme.editing_palette_idx is None,
            final(self).theme.mode == old(self).theme.mode,
            final(self).theme.mapping == old(self).theme.mapping,
            final(self).theme.other_palette == old(self).theme.other_palette,
            final(self).theme.other_mapping == old(self).theme.other_mapping,
            final(self).dimmed == dimmed,
            final(self).other_dimmed == old(self).other_dimmed,
    {
        self.theme.palette = palette;
        self.theme.editing_palette_idx = None;
        self.dimmed = dimmed;
        self.rebuild();
    }

    /// Loads the first colours of a palette named `name` over the palette
    /// in use (see `load_theme_colors`) and stops colour editing;
    /// `dimmed[i]` is `colors[i]` at half brightness.
    pub fn load_palette(&mut self, name: String, colors: &[C], dimmed: &[C])
        requires
            old(self).wf(),
            dimmed@.len() == colors@.len(),
        ensures
            final(self).wf(),
            old(self).theme.mappings_valid() ==> final(self).theme.mappings_valid(),
            final(self).theme.palette.name == name,
            forall|i: int|
                0 <= i < 5 ==> #[trigger] final(self).theme.palette.colors@[i] == if i < colors@.len() {
                    colors@[i]
                } else {
                    old(self).theme.palette.colors@[i]
                },
            final(self).theme.editing_palette_idx is None,
            final(self).theme.mode == old(self).theme.mode,
            final(self).theme.mapping == old(self).theme.mapping,
            final(self).theme.other_palette == old(self).theme.other_palette,
            final(self).theme.other_mapping == old(self).theme.other_mapping,
            final(self).dimmed == (if colors@.len() > 2 { dimmed@[2] } else { old(self).dimmed }),
            final(self).other_dimmed == old(self).other_dimmed,
    {
        self.theme.palette.name = name;
        load_theme_colors(&mut self.theme.palette.colors, colors);
        self.theme.editing_palette_idx = None;
        if colors.len() > 2 {
            self.dimmed = dimmed[2];
        }
        self.rebuild();
    }
}

/// The colour of editable element `i` (in the order of `editable_fields`).
pub open spec fn element_color<C>(c: EditorColors<C>, i: int) -> C {
    if i == 0 {
        c.icon_color
    } else if i == 1 {
        c.text
    } else if i == 2 {
        c.panel_bg
    } else if i == 3 {
        c.panel_border
    } else if i == 4 {
        c.canvas_bg
    } else if i == 5 {
        c.grid_line
    } else {
        c.selection_highlight
    }
}

/// Each editable element takes the palette slot its own mapping entry
/// names, and the grid's dots take the grid's colour.
pub proof fn law_elements_take_their_slots<C>(p: Seq<C>, mode: ThemeMode, m: Seq<usize>, dimmed: C)
    ensures
        forall|i: int|
            0 <= i < 7 ==> #[trigger] element_color(editor_colors_spec(p, mode, m, dimmed), i)
                == p[m[i] as int],
        editor_colors_spec(p, mode, m, dimmed).grid_dot == p[m[5] as int],
{
}

/// Pointing mapping entry `i` at slot `k` gives element `i` the colour of
/// slot `k` and changes no other colour.
pub proof fn law_mapping_entry_changes_only_its_element<C>(
    p: Seq<C>,
    mode: ThemeMode,
    m: Seq<usize>,
    dimmed: C,
    i: int,
    k: usize,
)
    requires
        m.len() == 7,
        0 <= i < 7,
    ensures
        ({
            let before = editor_colors_spec(p, mode, m, dimmed);
            let after = editor_colors_spec(p, mode, m.update(i, k), dimmed);
            &&& element_color(after, i) == p[k as int]
            &&& forall|j: int|
                0 <= j < 7 && j != i ==> #[trigger] element_color(after, j) == element_color(
                    before,
                    j,
                )
            &&& after.grid_dot == element_color(after, 5)
            &&& after.pen_anchor == before.pen_anchor
            &&& after.pen_handle_stroke == before.pen_handle_stroke
            &&& after.pen_handle_fill == before.pen_handle_fill
            &&& after.pen_curve == before.pen_curve
            &&& after.pen_preview == before.pen_preview
            &&& after.polyline_dot == before.polyline_dot
            &&& after.swatch_border == before.swatch_border
            &&& after.swatch_border_selected == before.swatch_border_selected
            &&& after.swatch_border_picked_up == before.swatch_border_picked_up
            &&& after.swatch_border_drop_target == before.swatch_border_drop_target
            &&& after.swatch_none_bg == before.swatch_none_bg
            &&& after.swatch_none_text == before.swatch_none_text
            &&& after.end_drop_bg == before.end_drop_bg
            &&& after.end_drop_text == before.end_drop_text
            &&& after.end_drop_border == before.end_drop_border
            &&& after.panel_button_active == before.panel_button_active
            &&& after.panel_button_hover == before.panel_button_hover
        }),
{
    let m2 = m.update(i, k);
    assert forall|j: int| 0 <= j < 7 implies #[trigger] m2[j] == if j == i { k } else { m[j] } by {}
    assert(m2[0] == if i == 0 { k } else { m[0] });
    assert(m2[1] == if i == 1 { k } else { m[1] });
    assert(m2[2] == if i == 2 { k } else { m[2] });
    assert(m2[3] == if i == 3 { k } else { m[3] });
    assert(m2[4] == if i == 4 { k } else { m[4] });
    assert(m2[5] == if i == 5 { k } else { m[5] });
    assert(m2[6] == if i == 6 { k } else { m[6] });
}

/// The colours that are not editable depend on the mode only through fixed
/// slots: the pen handles' outline and the active button take slot 2 in
/// both modes; swatch borders take the dimmed third colour in dark mode and
/// the third colour in light mode.
pub proof fn law_fixed_colours<C>(p: Seq<C>, mode: ThemeMode, m: Seq<usize>, dimmed: C)
    ensures
        editor_colors_spec(p, mode, m, dimmed).pen_handle_stroke == p[2],
        editor_colors_spec(p, mode, m, dimmed).panel_button_active == p[2],
        editor_colors_spec(p, mode, m, dimmed).swatch_border == (if mode == ThemeMode::Dark {
            dimmed
        } else {
            p[2]
        }),
        forall|m2: Seq<usize>|
            #![trigger editor_colors_spec(p, mode, m2, dimmed)]
            editor_colors_spec(p, mode, m2, dimmed).pen_curve == editor_colors_spec(p, mode, m, dimmed).pen_curve
                && editor_colors_spec(p, mode, m2, dimmed).swatch_border == editor_colors_spec(
                p,
                mode,
                m,
                dimmed,
            ).swatch_border,
{
}

/// Switching to another mode and back gives back the palette and mapping
/// that were in use, and those kept for the other mode.
pub proof fn law_set_mode_back<Pal>(s: ThemeState<Pal>, s1: ThemeState<Pal>, s2: ThemeState<Pal>)
    requires
        s1.same_assignment(s),
        s2.same_assignment(s1),
        s2.mode == s.mode,
    ensures
        s2.palette == s.palette,
        s2.mapping == s.mapping,
        s2.other_palette == s.other_palette,
        s2.other_mapping == s.other_mapping,
{
}

} // verus!
