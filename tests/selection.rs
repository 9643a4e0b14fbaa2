use common::selection::CellSelection;
use common::{Aabb2i, Vec2i};

#[test]
fn selection_starts_empty() {
    let s = CellSelection::new();
    assert!(s.selected_cells.is_empty());
    assert_eq!(s.drag_start_cell, Vec2i::zero());
}

#[test]
fn selection_unchanged_without_hover() {
    let s = CellSelection::new().update(Some(Vec2i::new(2, 3)), true, false);
    assert_eq!(s.update(None, true, true), s);
}

#[test]
fn selection_click_selects_one_cell() {
    let s = CellSelection::new().update(Some(Vec2i::new(2, 3)), true, false);
    assert_eq!(s.drag_start_cell, Vec2i::new(2, 3));
    assert_eq!(s.selected_cells, Aabb2i::new(Vec2i::new(2, 3), Vec2i::new(3, 4)));
}

#[test]
fn selection_hover_alone_keeps_selection() {
    let s = CellSelection::new().update(Some(Vec2i::new(2, 3)), true, false);
    let t = s.update(Some(Vec2i::new(7, 7)), false, false);
    assert_eq!(t, s);
}

#[test]
fn selection_drag_spans_start_and_hovered() {
    let s = CellSelection::new().update(Some(Vec2i::new(4, 4)), true, false);
    let t = s.update(Some(Vec2i::new(1, 6)), false, true);
    assert_eq!(t.drag_start_cell, Vec2i::new(4, 4));
    assert_eq!(t.selected_cells, Aabb2i::new(Vec2i::new(1, 4), Vec2i::new(5, 7)));
    assert!(t.selected_cells.contains_point(Vec2i::new(1, 6)));
    assert!(t.selected_cells.contains_point(Vec2i::new(4, 4)));
    assert!(!t.selected_cells.contains_point(Vec2i::new(5, 4)));
}
