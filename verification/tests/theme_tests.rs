use maple_limit::palette::Rgb8;
use maple_limit::theme::{
    editable_fields, load_theme_colors, theme_colors, theme_name, EditorColors, ThemeMapping, ThemeMode,
    ThemePalette, ThemeState,
};

#[test]
fn default_mappings() {
    assert_eq!(ThemeMapping::default_dark().indices, [0, 0, 4, 3, 3, 2, 2]);
    assert_eq!(ThemeMapping::default_light().indices, [4, 4, 0, 1, 0, 1, 3]);
    assert_eq!(ThemeMapping::from_mode(ThemeMode::Dark).indices, [0, 0, 4, 3, 3, 2, 2]);
    assert_eq!(ThemeMapping::from_mode(ThemeMode::Light).indices, [4, 4, 0, 1, 0, 1, 3]);
}

#[test]
fn set_element_index() {
    let mut m = ThemeMapping::default_dark();
    assert!(m.set_element_palette_index(6, 4));
    assert_eq!(m.indices, [0, 0, 4, 3, 3, 2, 4]);
    assert!(!m.set_element_palette_index(7, 0));
    assert!(!m.set_element_palette_index(0, 5));
    assert_eq!(m.indices, [0, 0, 4, 3, 3, 2, 4]);
}

#[test]
fn default_palettes() {
    let d = ThemePalette::default_dark();
    assert_eq!(d.name, "Twilight 5");
    assert_eq!(d.colors[0], Rgb8 { r: 0xfb, g: 0xbb, b: 0xad });
    let l = ThemePalette::from_mode(ThemeMode::Light);
    assert_eq!(l.name, "Golden Sunset");
    assert_eq!(l.colors[4], Rgb8 { r: 0x25, g: 0x21, b: 0x3e });
}

#[test]
fn editor_colors_follow_mapping_and_mode() {
    let p = ['0', '1', '2', '3', '4'];
    let dark = EditorColors::from_palette(&p, ThemeMode::Dark, &ThemeMapping::default_dark(), 'h');
    assert_eq!(dark.icon_color, '0');
    assert_eq!(dark.panel_bg, '4');
    assert_eq!(dark.canvas_bg, '3');
    assert_eq!(dark.grid_line, '2');
    assert_eq!(dark.swatch_border, 'h');
    assert_eq!(dark.pen_curve, '0');
    assert_eq!(dark.panel_button_hover, '3');
    let light = EditorColors::from_palette(&p, ThemeMode::Light, &ThemeMapping::default_light(), 'h');
    assert_eq!(light.icon_color, '4');
    assert_eq!(light.canvas_bg, '0');
    assert_eq!(light.swatch_border, '2');
    assert_eq!(light.pen_curve, '4');
    assert_eq!(light.selection_highlight, '3');
}

#[test]
fn toolkit_theme() {
    let p = ['0', '1', '2', '3', '4'];
    let t = theme_colors(&p, ThemeMode::Dark);
    assert_eq!((t.background, t.text, t.primary, t.danger, t.warning), ('4', '0', '2', '1', '0'));
    let t = theme_colors(&p, ThemeMode::Light);
    assert_eq!((t.background, t.text, t.primary, t.danger, t.warning), ('0', '4', '3', '1', '2'));
    assert_eq!(theme_name(ThemeMode::Dark), "Custom Dark");
    assert_eq!(theme_name(ThemeMode::Light), "Custom Light");
}

#[test]
fn switching_mode_keeps_each_modes_palette() {
    let mut s = ThemeState::from_saved(
        ThemeMode::Dark,
        "dark",
        ThemeMapping::default_dark(),
        "light",
        ThemeMapping::default_light(),
    );
    assert_eq!(s.palette, "dark");
    assert!(s.edit_palette_color(2));
    assert!(!s.set_mode(ThemeMode::Dark));
    assert_eq!(s.editing_palette_idx, Some(2));
    assert!(s.set_mode(ThemeMode::Light));
    assert_eq!(s.palette, "light");
    assert_eq!(s.mapping.indices, [4, 4, 0, 1, 0, 1, 3]);
    assert_eq!(s.editing_palette_idx, None);
    let (dp, _, lp, _) = s.by_mode();
    assert_eq!((*dp, *lp), ("dark", "light"));
    assert!(s.set_mode(ThemeMode::Dark));
    assert_eq!(s.palette, "dark");
    assert_eq!(s.mapping.indices, [0, 0, 4, 3, 3, 2, 2]);
    assert_eq!(s.other_palette, "light");
    assert_eq!(s.other_mapping.indices, [4, 4, 0, 1, 0, 1, 3]);
}

#[test]
fn theme_palette_editing() {
    let mut s = ThemeState::from_saved(ThemeMode::Light, 1, ThemeMapping::default_dark(), 2, ThemeMapping::default_light());
    assert!(!s.edit_palette_color(5));
    assert!(s.edit_palette_color(4));
    assert_eq!(s.finish_palette_edit(), Some(4));
    assert_eq!(s.finish_palette_edit(), None);
    s.mapping.indices[0] = 2;
    s.reset_mapping();
    assert_eq!(s.mapping.indices, [4, 4, 0, 1, 0, 1, 3]);
}

#[test]
fn loading_theme_colors() {
    let mut dst = [0, 0, 0, 0, 0];
    load_theme_colors(&mut dst, &[1, 2, 3]);
    assert_eq!(dst, [1, 2, 3, 0, 0]);
    load_theme_colors(&mut dst, &[9, 9, 9, 9, 9, 9, 9]);
    assert_eq!(dst, [9, 9, 9, 9, 9]);
}

#[test]
fn editable_field_names() {
    let f = editable_fields();
    assert_eq!(f[0], ("icon_color", "Icon"));
    assert_eq!(f[3], ("panel_border", "Panel Border"));
    assert_eq!(f[6], ("selection_highlight", "Selection"));
}

#[test]
fn mappings_stay_valid() {
    let mut m = ThemeMapping::default_dark();
    assert!(m.is_valid());
    assert!(!m.set_element_palette_index(2, 5));
    assert!(!m.set_element_palette_index(7, 1));
    assert!(m.set_element_palette_index(6, 4));
    assert!(m.is_valid());
    assert_eq!(m.indices, [0, 0, 4, 3, 3, 2, 4]);
    let bad = ThemeMapping { indices: [0, 0, 0, 0, 0, 0, 5] };
    assert!(!bad.is_valid());
    let mut s = ThemeState::from_saved(ThemeMode::Dark, 0u8, bad, 1u8, ThemeMapping::default_light());
    s.reset_mapping();
    assert!(s.mapping.is_valid());
    assert!(s.set_mode(ThemeMode::Light));
    assert!(s.mapping.is_valid() && s.other_mapping.is_valid());
}
