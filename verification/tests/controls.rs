use vuis::controls::{
    arrow_nudges, clipboard_shortcut, delete_requested, history_shortcut, Axis, ClipboardShortcut,
    HistoryShortcut, KeyState, Nudge,
};

fn keys() -> KeyState {
    KeyState {
        captured: false,
        ctrl_left: false,
        ctrl_right: false,
        shift_left: false,
        shift_right: false,
        z_pressed: false,
        y_pressed: false,
        c_pressed: false,
        v_pressed: false,
        delete_pressed: false,
        left_pressed: false,
        right_pressed: false,
        up_pressed: false,
        down_pressed: false,
    }
}

#[test]
fn ctrl_z_undoes_ctrl_y_redoes() {
    let mut k = keys();
    k.z_pressed = true;
    assert_eq!(history_shortcut(&k), None);
    k.ctrl_left = true;
    assert_eq!(history_shortcut(&k), Some(HistoryShortcut::Undo));
    k.y_pressed = true;
    assert_eq!(history_shortcut(&k), Some(HistoryShortcut::Undo));
    k.z_pressed = false;
    k.ctrl_left = false;
    k.ctrl_right = true;
    assert_eq!(history_shortcut(&k), Some(HistoryShortcut::Redo));
    k.captured = true;
    assert_eq!(history_shortcut(&k), None);
}

#[test]
fn clipboard_needs_ctrl() {
    let mut k = keys();
    k.c_pressed = true;
    k.v_pressed = true;
    assert_eq!(clipboard_shortcut(&k), ClipboardShortcut { copy: false, paste: false });
    k.ctrl_right = true;
    assert_eq!(clipboard_shortcut(&k), ClipboardShortcut { copy: true, paste: true });
    k.captured = true;
    assert_eq!(clipboard_shortcut(&k), ClipboardShortcut { copy: false, paste: false });
}

#[test]
fn delete_key() {
    let mut k = keys();
    assert!(!delete_requested(&k));
    k.delete_pressed = true;
    assert!(delete_requested(&k));
    k.captured = true;
    assert!(!delete_requested(&k));
}

#[test]
fn arrows_nudge_by_one_or_ten() {
    let mut k = keys();
    assert!(arrow_nudges(&k).is_empty());
    k.left_pressed = true;
    k.down_pressed = true;
    assert_eq!(
        arrow_nudges(&k),
        vec![Nudge { axis: Axis::X, delta: -1 }, Nudge { axis: Axis::Y, delta: 1 }]
    );
    k.shift_left = true;
    k.right_pressed = true;
    k.up_pressed = true;
    assert_eq!(
        arrow_nudges(&k),
        vec![
            Nudge { axis: Axis::X, delta: -10 },
            Nudge { axis: Axis::X, delta: 10 },
            Nudge { axis: Axis::Y, delta: -10 },
            Nudge { axis: Axis::Y, delta: 10 },
        ]
    );
    k.captured = true;
    assert!(arrow_nudges(&k).is_empty());
}
