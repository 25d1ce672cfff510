use vuis::history::UndoRedoHistory;

fn s(x: &str) -> String {
    x.to_string()
}

#[test]
fn new_history_needs_initial_snapshot() {
    let h = UndoRedoHistory::new();
    assert!(h.needs_initial_snapshot());
    assert!(h.UndoStack.is_empty());
    assert!(h.RedoStack.is_empty());
}

#[test]
fn record_pushes_new_snapshot_and_clears_redo() {
    let mut h = UndoRedoHistory::new();
    h.record(s("a"));
    h.record(s("b"));
    assert!(!h.needs_initial_snapshot());
    assert_eq!(h.undo(), Some(s("a")));
    assert_eq!(h.RedoStack, vec![s("b")]);
    h.record(s("c"));
    assert_eq!(h.UndoStack, vec![s("a"), s("c")]);
    assert!(h.RedoStack.is_empty());
}

#[test]
fn record_ignores_snapshot_equal_to_current() {
    let mut h = UndoRedoHistory::new();
    h.record(s("a"));
    h.record(s("b"));
    h.undo();
    h.record(s("a"));
    assert_eq!(h.UndoStack, vec![s("a")]);
    assert_eq!(h.RedoStack, vec![s("b")]);
}

#[test]
fn undo_keeps_the_last_snapshot() {
    let mut h = UndoRedoHistory::new();
    assert_eq!(h.undo(), None);
    h.record(s("only"));
    assert_eq!(h.undo(), None);
    assert_eq!(h.UndoStack, vec![s("only")]);
    assert!(h.RedoStack.is_empty());
}

#[test]
fn redo_with_nothing_to_redo_changes_nothing() {
    let mut h = UndoRedoHistory::new();
    h.record(s("a"));
    assert_eq!(h.redo(), None);
    assert_eq!(h.UndoStack, vec![s("a")]);
}

#[test]
fn undo_then_redo_restores_history() {
    let mut h = UndoRedoHistory::new();
    h.record(s("a"));
    h.record(s("b"));
    h.record(s("c"));
    assert_eq!(h.undo(), Some(s("b")));
    assert_eq!(h.redo(), Some(s("c")));
    assert_eq!(h.UndoStack, vec![s("a"), s("b"), s("c")]);
    assert!(h.RedoStack.is_empty());
}

#[test]
fn redo_then_undo_restores_history() {
    let mut h = UndoRedoHistory::new();
    h.record(s("a"));
    h.record(s("b"));
    h.undo();
    assert_eq!(h.redo(), Some(s("b")));
    assert_eq!(h.undo(), Some(s("a")));
    assert_eq!(h.UndoStack, vec![s("a")]);
    assert_eq!(h.RedoStack, vec![s("b")]);
}

#[test]
fn undo_after_record_restores_previous_state() {
    let mut h = UndoRedoHistory::new();
    h.record(s("before"));
    h.record(s("after"));
    assert_eq!(h.apply_requests(1, 0), Some(s("before")));
    assert_eq!(h.UndoStack, vec![s("before")]);
    assert_eq!(h.RedoStack, vec![s("after")]);
}

#[test]
fn frame_requests_restore_last_successful_state() {
    let mut h = UndoRedoHistory::new();
    for x in ["a", "b", "c", "d"] {
        h.record(s(x));
    }
    // three undos, one redo: a b c d -> a -> a b
    assert_eq!(h.apply_requests(3, 1), Some(s("b")));
    assert_eq!(h.UndoStack, vec![s("a"), s("b")]);
    assert_eq!(h.RedoStack, vec![s("d"), s("c")]);
    // too many undos stop at the first snapshot
    assert_eq!(h.apply_requests(5, 0), Some(s("a")));
    assert_eq!(h.UndoStack, vec![s("a")]);
    // redos beyond the stack only restore the last one
    assert_eq!(h.apply_requests(0, 9), Some(s("d")));
    assert_eq!(h.UndoStack, vec![s("a"), s("b"), s("c"), s("d")]);
    assert!(h.RedoStack.is_empty());
}

#[test]
fn frame_without_successful_request_restores_nothing() {
    let mut h = UndoRedoHistory::new();
    h.record(s("a"));
    assert_eq!(h.apply_requests(2, 2), None);
    assert_eq!(h.apply_requests(0, 0), None);
    assert_eq!(h.UndoStack, vec![s("a")]);
}

#[test]
fn requests_keep_total_number_of_snapshots() {
    let mut h = UndoRedoHistory::new();
    for x in ["a", "b", "c"] {
        h.record(s(x));
    }
    h.apply_requests(2, 1);
    assert_eq!(h.UndoStack.len() + h.RedoStack.len(), 3);
    assert!(!h.UndoStack.is_empty());
}

#[test]
fn default_history_is_empty() {
    let h = UndoRedoHistory::default();
    assert!(h.UndoStack.is_empty() && h.RedoStack.is_empty());
}
