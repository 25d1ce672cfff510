use vuis::hierarchy::{Hierarchy, HierarchyEntry};
use vuis::selection::{EditorSelection, HierarchyRowInput};

fn tree() -> Hierarchy {
    // 1 -> {2, 3}, 2 -> {4}, 4 -> {5}, 6 -> {7}
    let e = |entity: u64, children: &[u64]| HierarchyEntry { entity, children: children.to_vec() };
    Hierarchy { entries: vec![e(1, &[2, 3]), e(2, &[4]), e(4, &[5]), e(6, &[7])] }
}

#[test]
fn node_is_its_own_descendant() {
    assert!(tree().is_descendant(9, 9));
    assert!(Hierarchy { entries: vec![] }.is_descendant(1, 1));
}

#[test]
fn descendants_at_any_depth() {
    let h = tree();
    assert!(h.is_descendant(2, 1));
    assert!(h.is_descendant(5, 1));
    assert!(h.is_descendant(5, 2));
    assert!(h.is_descendant(7, 6));
}

#[test]
fn non_descendants() {
    let h = tree();
    assert!(!h.is_descendant(1, 2));
    assert!(!h.is_descendant(7, 1));
    assert!(!h.is_descendant(3, 2));
    assert!(!h.is_descendant(1, 8));
}

#[test]
fn search_terminates_on_cycles() {
    let h = Hierarchy {
        entries: vec![
            HierarchyEntry { entity: 1, children: vec![2] },
            HierarchyEntry { entity: 2, children: vec![1, 3] },
        ],
    };
    assert!(h.is_descendant(3, 1));
    assert!(!h.is_descendant(4, 1));
}

#[test]
fn drop_on_own_descendant_is_refused() {
    let h = tree();
    let mut sel = EditorSelection::default();
    sel.DraggedHierarchyEntity = Some(2);
    // moving 2 under 5 (its grandchild) would create a cycle
    assert_eq!(sel.settle_hierarchy_drop(&h, Some((2, 5)), false, true, Some(100)), None);
    assert_eq!(sel.DraggedHierarchyEntity, None);
    // moving 3 under 5 is fine
    assert_eq!(sel.settle_hierarchy_drop(&h, Some((3, 5)), false, true, Some(100)), Some((3, 5)));
}

#[test]
fn drop_on_panel_moves_to_canvas() {
    let h = tree();
    let mut sel = EditorSelection::default();
    sel.DraggedHierarchyEntity = Some(4);
    // a panel drop onto a node below the dragged one is refused
    assert_eq!(sel.settle_hierarchy_drop(&h, None, true, true, Some(5)), None);
    sel.DraggedHierarchyEntity = Some(4);
    assert_eq!(sel.settle_hierarchy_drop(&h, None, true, true, Some(100)), Some((4, 100)));
    assert_eq!(sel.DraggedHierarchyEntity, None);
}

#[test]
fn drag_continues_until_release() {
    let h = tree();
    let mut sel = EditorSelection::default();
    sel.DraggedHierarchyEntity = Some(4);
    assert_eq!(sel.settle_hierarchy_drop(&h, None, true, false, Some(100)), None);
    assert_eq!(sel.DraggedHierarchyEntity, Some(4));
}

#[test]
fn hierarchy_row_click_drag_and_release() {
    let mut sel = EditorSelection::default();
    let mut reparent = None;
    let click = HierarchyRowInput { clicked: true, drag_started: false, released_over: false };
    sel.hierarchy_row(3, &click, &mut reparent);
    assert_eq!(sel.SelectedNode, Some(3));
    let drag = HierarchyRowInput { clicked: false, drag_started: true, released_over: false };
    sel.hierarchy_row(3, &drag, &mut reparent);
    assert_eq!(sel.DraggedHierarchyEntity, Some(3));
    let release = HierarchyRowInput { clicked: false, drag_started: false, released_over: true };
    sel.hierarchy_row(3, &release, &mut reparent);
    assert_eq!(reparent, None);
    sel.hierarchy_row(7, &release, &mut reparent);
    assert_eq!(reparent, Some((3, 7)));
}
