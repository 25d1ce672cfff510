use vuis::layout::{
    child_position_update, grid_track_count, needs_placeholder, places_children_in_flow,
    placeholder_visible, resolve_flow, scrollbar_update, shows_grid_overlay, FlowMode,
    PositionKind, PositionUpdate, ScrollbarUpdate,
};

#[test]
fn flow_names_select_layouts() {
    assert_eq!(resolve_flow("None", false), FlowMode::Free);
    assert_eq!(resolve_flow("None", true), FlowMode::Grid);
    assert_eq!(resolve_flow("Grid", false), FlowMode::Grid);
    assert_eq!(resolve_flow("Vertical", true), FlowMode::Vertical);
    assert_eq!(resolve_flow("Horizontal", false), FlowMode::Horizontal);
    assert_eq!(resolve_flow("Diagonal", true), FlowMode::Free);
    assert_eq!(resolve_flow("", false), FlowMode::Free);
}

#[test]
fn grid_overlay_matches_grid_layout() {
    for flow in ["None", "Grid", "Vertical", "Horizontal", "x"] {
        for g in [false, true] {
            assert_eq!(shows_grid_overlay(flow, g), resolve_flow(flow, g) == FlowMode::Grid);
        }
    }
}

#[test]
fn flow_parents_reposition_children() {
    assert!(!places_children_in_flow("None"));
    assert!(places_children_in_flow("Vertical"));
    assert!(places_children_in_flow("Nonesuch"));
    assert_eq!(child_position_update(true, PositionKind::Absolute), PositionUpdate::MakeRelative);
    assert_eq!(child_position_update(true, PositionKind::Relative), PositionUpdate::Keep);
    assert_eq!(child_position_update(false, PositionKind::Relative), PositionUpdate::MakeAbsolute);
    assert_eq!(child_position_update(false, PositionKind::Absolute), PositionUpdate::Keep);
}

#[test]
fn scrollbars_follow_scrollability() {
    assert_eq!(scrollbar_update(true, false), ScrollbarUpdate::Spawn);
    assert_eq!(scrollbar_update(false, true), ScrollbarUpdate::Despawn);
    assert_eq!(scrollbar_update(true, true), ScrollbarUpdate::Keep);
    assert_eq!(scrollbar_update(false, false), ScrollbarUpdate::Keep);
}

#[test]
fn grid_tracks_at_least_one() {
    assert_eq!(grid_track_count(0), 1);
    assert_eq!(grid_track_count(1), 1);
    assert_eq!(grid_track_count(7), 7);
}

#[test]
fn placeholders() {
    assert!(needs_placeholder(true, false));
    assert!(!needs_placeholder(true, true));
    assert!(!needs_placeholder(false, false));
    assert!(placeholder_visible(&vec![]));
    assert!(placeholder_visible(&vec![String::new(), String::new()]));
    assert!(!placeholder_visible(&vec![String::new(), "typed".to_string()]));
}
