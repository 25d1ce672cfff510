use vuis::gizmo::{pick_drag_action, resize_anchor, DragAction, HandleHits, ResizeAnchor};

fn none() -> HandleHits {
    HandleHits {
        top_left: false,
        top_right: false,
        bottom_left: false,
        bottom_right: false,
        rotate: false,
        nearest_edge: None,
        inside: false,
    }
}

#[test]
fn corners_take_priority() {
    let mut h = none();
    assert_eq!(pick_drag_action(&h), None);
    h.inside = true;
    assert_eq!(pick_drag_action(&h), Some(DragAction::Move));
    h.nearest_edge = Some(DragAction::ResizeLeft);
    assert_eq!(pick_drag_action(&h), Some(DragAction::ResizeLeft));
    h.rotate = true;
    assert_eq!(pick_drag_action(&h), Some(DragAction::Rotate));
    h.bottom_right = true;
    assert_eq!(pick_drag_action(&h), Some(DragAction::ResizeBottomRight));
    h.top_right = true;
    assert_eq!(pick_drag_action(&h), Some(DragAction::ResizeTopRight));
    h.top_left = true;
    assert_eq!(pick_drag_action(&h), Some(DragAction::ResizeTopLeft));
}

#[test]
fn resize_anchors() {
    assert_eq!(
        resize_anchor(DragAction::ResizeBottomRight),
        ResizeAnchor { fixed_x: -1, fixed_y: -1, dragged_x: 1, dragged_y: 1, keep_x: true, keep_y: true }
    );
    assert_eq!(
        resize_anchor(DragAction::ResizeTop),
        ResizeAnchor { fixed_x: 0, fixed_y: 1, dragged_x: 0, dragged_y: -1, keep_x: false, keep_y: true }
    );
    assert_eq!(
        resize_anchor(DragAction::ResizeLeft),
        ResizeAnchor { fixed_x: 1, fixed_y: 0, dragged_x: -1, dragged_y: 0, keep_x: true, keep_y: false }
    );
    assert_eq!(
        resize_anchor(DragAction::Move),
        ResizeAnchor { fixed_x: 0, fixed_y: 0, dragged_x: 0, dragged_y: 0, keep_x: true, keep_y: true }
    );
}

#[test]
fn resize_anchor_points_are_opposite() {
    for a in [
        DragAction::ResizeTopLeft,
        DragAction::ResizeTopRight,
        DragAction::ResizeBottomLeft,
        DragAction::ResizeBottomRight,
        DragAction::ResizeTop,
        DragAction::ResizeBottom,
        DragAction::ResizeLeft,
        DragAction::ResizeRight,
    ] {
        let r = resize_anchor(a);
        assert_eq!(r.dragged_x, -r.fixed_x);
        assert_eq!(r.dragged_y, -r.fixed_y);
        assert_eq!(r.keep_x, r.fixed_x != 0);
        assert_eq!(r.keep_y, r.fixed_y != 0);
    }
}
