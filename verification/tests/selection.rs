use vuis::selection::EditorSelection;

#[test]
fn selection_defaults_empty() {
    let sel = EditorSelection::default();
    assert_eq!(sel.SelectedNode, None);
    assert!(!sel.IsPointerOverUi);
    assert_eq!(sel.DraggedHierarchyEntity, None);
}

#[test]
fn insertion_parent_prefers_selection() {
    let mut sel = EditorSelection::default();
    assert_eq!(sel.insertion_parent(10), 10);
    sel.SelectedNode = Some(4);
    assert_eq!(sel.insertion_parent(10), 4);
    assert!(sel.is_selected(4));
    assert!(!sel.is_selected(10));
}

#[test]
fn delete_selected_node() {
    let mut sel = EditorSelection::default();
    assert_eq!(sel.delete_selected(false), None);
    sel.SelectedNode = Some(4);
    assert_eq!(sel.delete_selected(true), None);
    assert_eq!(sel.SelectedNode, Some(4));
    assert_eq!(sel.delete_selected(false), Some(4));
    assert_eq!(sel.SelectedNode, None);
}

#[test]
fn press_on_canvas_selects_or_clears() {
    let mut sel = EditorSelection::default();
    sel.press_on_canvas(Some(5), true);
    assert_eq!(sel.SelectedNode, Some(5));
    sel.press_on_canvas(None, false);
    assert_eq!(sel.SelectedNode, Some(5));
    sel.press_on_canvas(None, true);
    assert_eq!(sel.SelectedNode, None);
}
