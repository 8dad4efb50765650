use maple_limit::document::{Followup, HitTarget};
use maple_limit::editor::Editor;
use maple_limit::shape::{ShapeEntry, ShapeKind};
use maple_limit::theme::{Appearance, ThemeMapping, ThemeMode, ThemePalette, ThemeState};
use maple_limit::tool::{ToolEvent, ToolOutcome};

type Ed = Editor<&'static str, (i32, i32), u8, Vec<u8>, (i32, i32)>;

fn entry(kind: ShapeKind, name: &'static str) -> ShapeEntry<&'static str> {
    ShapeEntry { kind, data: name }
}

#[test]
fn selection_follows_the_document() {
    let mut e: Ed = Editor::new(0);
    e.add_shape(entry(ShapeKind::Circle, "a"));
    e.add_shape(entry(ShapeKind::Rectangle, "b"));
    // a press hitting both shapes selects the topmost
    let out = e.select_event(ToolEvent::Press((1, 1)), &vec![], &vec![true, true]);
    assert!(matches!(out, ToolOutcome::SelectShape(Some(1))));
    assert_eq!(e.tools.selected_index, Some(1));
    // dragging asks to move the selection
    let out = e.select_event(ToolEvent::Drag((3, 1)), &vec![], &vec![]);
    assert!(matches!(out, ToolOutcome::MoveSelected((1, 1), (3, 1))));
    let f = e.move_shape(1, (2, 0));
    assert!(f == Followup::Translate { index: 1, delta: (2, 0), reverse: false, recompute: None });
    // deleting removes it and clears the selection
    let removed = e.delete_selected();
    assert_eq!(removed.map(|s| s.data), Some("b"));
    assert_eq!(e.tools.selected_index, None);
    assert_eq!(e.document.shapes.len(), 1);
    assert!(e.delete_selected().is_none());
    // undo brings it back, with nothing selected
    e.select_event(ToolEvent::Press((0, 0)), &vec![], &vec![true]);
    assert_eq!(e.tools.selected_index, Some(0));
    e.undo();
    assert_eq!(e.tools.selected_index, None);
    assert_eq!(e.document.shapes.len(), 2);
    e.select_event(ToolEvent::Press((0, 0)), &vec![], &vec![false, true]);
    assert_eq!(e.tools.selected_index, Some(1));
    e.redo();
    assert_eq!(e.tools.selected_index, None);
    assert_eq!(e.document.shapes.len(), 1);
}

#[test]
fn a_press_on_a_group_selects_the_group() {
    let mut e: Ed = Editor::new(0);
    e.add_shape(entry(ShapeKind::Circle, "a"));
    e.add_shape(entry(ShapeKind::Circle, "b"));
    e.document.create_boolean_group(0, 1, maple_limit::boolean::BoolOp::Union, 0, vec![]);
    assert_eq!(e.document.hit_test_any(&vec![true], &vec![true, true]), Some(HitTarget::BoolGroup(0)));
    let out = e.select_event(ToolEvent::Press((0, 0)), &vec![true], &vec![true, true]);
    assert!(matches!(out, ToolOutcome::RequestRedraw));
    assert_eq!(e.tools.selected_bool_group, Some(0));
    assert_eq!(e.tools.selected_index, None);
}

fn state() -> ThemeState<ThemePalette<char>> {
    ThemeState::from_saved(
        ThemeMode::Dark,
        ThemePalette { name: "d".to_string(), colors: ['a', 'b', 'c', 'd', 'e'] },
        ThemeMapping::default_dark(),
        ThemePalette { name: "l".to_string(), colors: ['v', 'w', 'x', 'y', 'z'] },
        ThemeMapping::default_light(),
    )
}

#[test]
fn appearance_colours_follow_every_theme_edit() {
    let mut a = Appearance::new(state(), 'C', 'X');
    assert_eq!(a.colors.icon_color, 'a');
    assert_eq!(a.colors.swatch_border, 'C');
    assert!(a.set_element_palette_index(0, 3));
    assert_eq!(a.colors.icon_color, 'd');
    assert!(!a.set_element_palette_index(0, 5));
    assert!(a.set_mode(ThemeMode::Light));
    assert_eq!((a.dimmed, a.other_dimmed), ('X', 'C'));
    assert_eq!(a.colors.icon_color, 'z');
    assert_eq!(a.colors.swatch_border, 'x');
    assert!(a.set_mode(ThemeMode::Dark));
    assert_eq!(a.colors.icon_color, 'd');
    a.reset_mapping();
    assert_eq!(a.colors.icon_color, 'a');
    assert!(a.theme.edit_palette_color(2));
    assert_eq!(a.apply_palette_edit('q', 'Q'), Some(2));
    assert_eq!(a.theme.palette.colors, ['a', 'b', 'q', 'd', 'e']);
    assert_eq!(a.colors.swatch_border, 'Q');
    assert_eq!(a.colors.pen_anchor, 'q');
    assert_eq!(a.apply_palette_edit('r', 'R'), None);
    a.load_palette("new".to_string(), &['1', '2', '3'], &['!', '@', '#']);
    assert_eq!(a.theme.palette.colors, ['1', '2', '3', 'd', 'e']);
    assert_eq!(a.colors.swatch_border, '#');
    assert_eq!(a.colors.canvas_bg, 'd');
    a.set_palette(ThemePalette { name: "p".to_string(), colors: ['k', 'l', 'm', 'n', 'o'] }, 'M');
    assert_eq!(a.colors.text, 'k');
    assert_eq!(a.colors.swatch_border, 'M');
}
