use maple_limit::panels::{
    next_sidebar_mode, palette_swatches, PaletteState, PaletteTarget, SidebarMode, SwatchAction, SwatchBorder,
};

#[test]
fn sidebar_toggles() {
    assert_eq!(next_sidebar_mode(SidebarMode::ToolConfig, SidebarMode::Palette), SidebarMode::Palette);
    assert_eq!(next_sidebar_mode(SidebarMode::Palette, SidebarMode::Palette), SidebarMode::ToolConfig);
    assert_eq!(next_sidebar_mode(SidebarMode::Settings, SidebarMode::Palette), SidebarMode::Palette);
}

#[test]
fn target_expands_and_collapses() {
    let mut s = PaletteState::new();
    s.set_target(PaletteTarget::Fill);
    assert_eq!(s.target, Some(PaletteTarget::Fill));
    s.set_target(PaletteTarget::Stroke);
    assert_eq!(s.target, Some(PaletteTarget::Stroke));
    s.set_target(PaletteTarget::Stroke);
    assert_eq!(s.target, None);
}

#[test]
fn reorder_moves_color_and_indices_follow() {
    let mut colors = vec!['a', 'b', 'c', 'd', 'e'];
    let mut s = PaletteState::new();
    s.stroke_color_index = Some(2); // 'b'
    s.fill_color_index = Some(4); // 'd'
    s.toggle_reorder_mode();
    assert!(s.reorder_mode);
    s.pick_up(0);
    assert_eq!(s.reorder, None);
    s.pick_up(2);
    assert_eq!(s.reorder, Some(2));
    s.drop_at(&mut colors, 5);
    assert_eq!(colors, vec!['a', 'c', 'd', 'b', 'e']);
    assert_eq!(s.reorder, None);
    assert_eq!(colors[s.stroke_color_index.unwrap() - 1], 'b');
    assert_eq!(colors[s.fill_color_index.unwrap() - 1], 'd');
    // moving towards the front
    s.pick_up(5);
    s.drop_at(&mut colors, 1);
    assert_eq!(colors, vec!['e', 'a', 'c', 'd', 'b']);
    assert_eq!(colors[s.stroke_color_index.unwrap() - 1], 'b');
    assert_eq!(colors[s.fill_color_index.unwrap() - 1], 'd');
    // dropping on itself moves nothing
    s.pick_up(3);
    s.drop_at(&mut colors, 3);
    assert_eq!(colors, vec!['e', 'a', 'c', 'd', 'b']);
    assert_eq!(s.reorder, None);
}

#[test]
fn pick_up_twice_puts_down() {
    let mut s = PaletteState::new();
    s.pick_up(3);
    s.pick_up(3);
    assert_eq!(s.reorder, None);
}

#[test]
fn delete_color_adjusts_indices() {
    let mut colors = vec!['a', 'b', 'c', 'd'];
    let mut s = PaletteState::new();
    s.stroke_color_index = Some(2);
    s.fill_color_index = Some(4);
    s.color_picker_target = Some(3);
    assert!(s.delete_color(&mut colors, 3));
    assert_eq!(colors, vec!['a', 'b', 'd']);
    assert_eq!(s.stroke_color_index, Some(2));
    assert_eq!(s.fill_color_index, Some(3));
    assert_eq!(s.color_picker_target, None);
    assert!(s.delete_color(&mut colors, 2));
    assert_eq!(s.stroke_color_index, None);
    assert!(!s.delete_color(&mut colors, 0));
    assert!(!s.delete_color(&mut colors, 9));
    assert_eq!(colors, vec!['a', 'd']);
}

#[test]
fn clicking_a_color() {
    let colors = vec!['a', 'b'];
    let mut s = PaletteState::new();
    assert_eq!(s.click_color(&colors, 1, false), None);
    s.set_target(PaletteTarget::Fill);
    assert_eq!(s.click_color(&colors, 2, false), Some((PaletteTarget::Fill, Some('b'))));
    assert_eq!(s.fill_color_index, Some(2));
    assert_eq!(s.target, None);
    s.set_target(PaletteTarget::Stroke);
    assert_eq!(s.click_color(&colors, 0, true), Some((PaletteTarget::Stroke, None)));
    assert_eq!(s.stroke_color_index, None);
    assert_eq!(s.target, Some(PaletteTarget::Stroke));
    assert_eq!(s.click_color(&colors, 7, true), Some((PaletteTarget::Stroke, None)));
    assert_eq!(s.stroke_color_index, Some(7));
}

#[test]
fn editing_a_color() {
    let mut s = PaletteState::new();
    assert_eq!(s.edit_color(2, 3), Some(1));
    assert_eq!(s.color_picker_target, Some(2));
    assert_eq!(s.finish_color_edit(3), Some(1));
    assert_eq!(s.color_picker_target, None);
    assert_eq!(s.edit_color(0, 3), None);
    assert_eq!(s.finish_color_edit(3), None);
    s.reset();
    assert_eq!(s.stroke_color_index, Some(1));
    s.toggle_reorder_mode();
    s.palette_loaded();
    assert!(!s.reorder_mode);
    assert_eq!(s.fill_color_index, None);
}

#[test]
fn swatch_grid() {
    let (swatches, end) = palette_swatches(4, Some(2), false, None);
    assert_eq!(swatches.len(), 5);
    assert_eq!(end, None);
    assert_eq!(swatches[0].border, SwatchBorder::Plain);
    assert_eq!(swatches[2].border, SwatchBorder::Selected);
    assert!(swatches[2].thick && !swatches[1].thick);
    assert_eq!(swatches[3].action, SwatchAction::Click(3));
    assert!(swatches[3].ends_row && swatches[4].ends_row && !swatches[2].ends_row);
    // "no colour" is selected when nothing is
    let (swatches, _) = palette_swatches(2, None, false, None);
    assert_eq!(swatches[0].border, SwatchBorder::Selected);
    // reordering with slot 2 picked up
    let (swatches, end) = palette_swatches(4, Some(1), true, Some(2));
    assert_eq!(end, Some(5));
    assert_eq!(swatches[0].action, SwatchAction::Click(0));
    assert_eq!(swatches[2].border, SwatchBorder::PickedUp);
    assert_eq!(swatches[1].border, SwatchBorder::DropTarget);
    assert_eq!(swatches[3].action, SwatchAction::Drop(3));
    // reordering with nothing picked up
    let (swatches, end) = palette_swatches(4, Some(1), true, None);
    assert_eq!(end, None);
    assert_eq!(swatches[1].action, SwatchAction::PickUp(1));
}
