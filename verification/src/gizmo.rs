//! The selection gizmo: which drag a press on the selected node starts, and
//! which of its corners or edges stays put while it is resized.
use vstd::prelude::*;

verus! {

/// What a drag on the selected node does.
#[derive(Clone, Copy, PartialEq, Eq, Structural, Debug)]
pub enum DragAction {
    Move,
    ResizeTopLeft,
    ResizeTopRight,
    ResizeBottomLeft,
    ResizeBottomRight,
    ResizeTop,
    ResizeBottom,
    ResizeLeft,
    ResizeRight,
    Rotate,
}

/// Which handles of the selected node lie under the pointer when the mouse
/// button goes down: the four corners, the rotation knob, the nearest edge
/// within reach, and the body of the node.
pub struct HandleHits {
    pub top_left: bool,
    pub top_right: bool,
    pub bottom_left: bool,
    pub bottom_right: bool,
    pub rotate: bool,
    pub nearest_edge: Option<DragAction>,
    pub inside: bool,
}

/// The drags that a press could start, in order of precedence: each corner
/// (top left, top right, bottom left, bottom right), the rotation knob, the
/// nearest edge, then the body, which moves the node; each present where its
/// handle is hit.
pub open spec fn drag_candidates(hits: HandleHits) -> Seq<Option<DragAction>> {
    seq![
        if hits.top_left { Some(DragAction::ResizeTopLeft) } else { None },
        if hits.top_right { Some(DragAction::ResizeTopRight) } else { None },
        if hits.bottom_left { Some(DragAction::ResizeBottomLeft) } else { None },
        if hits.bottom_right { Some(DragAction::ResizeBottomRight) } else { None },
        if hits.rotate { Some(DragAction::Rotate) } else { None },
        hits.nearest_edge,
        if hits.inside { Some(DragAction::Move) } else { None },
    ]
}

/// The first present entry of `s`, if any.
pub open spec fn first_present(s: Seq<Option<DragAction>>) -> Option<DragAction>
    decreases s.len(),
{
    if s.len() == 0 {
        None
    } else if s[0] is Some {
        s[0]
    } else {
        first_present(s.drop_first())
    }
}

/// The drag that a press starts: the first candidate in order of
/// precedence whose handle is hit.
pub open spec fn chosen_drag(hits: HandleHits) -> Option<DragAction> {
    first_present(drag_candidates(hits))
}

/// The drag that a press on the selected node starts, if any.
pub fn pick_drag_action(hits: &HandleHits) -> (action: Option<DragAction>)
    ensures
        action == chosen_drag(*hits),
{
    proof {
        let c = drag_candidates(*hits);
        reveal_with_fuel(first_present, 8);
        assert(c.drop_first() =~= c.subrange(1, 7));
        assert(c.drop_first().drop_first() =~= c.subrange(2, 7));
        assert(c.subrange(2, 7).drop_first() =~= c.subrange(3, 7));
        assert(c.subrange(3, 7).drop_first() =~= c.subrange(4, 7));
        assert(c.subrange(4, 7).drop_first() =~= c.subrange(5, 7));
        assert(c.subrange(5, 7).drop_first() =~= c.subrange(6, 7));
        assert(c.subrange(6, 7).drop_first() =~= Seq::<Option<DragAction>>::empty());
    }
    if hits.top_left {
        Some(DragAction::ResizeTopLeft)
    } else if hits.top_right {
        Some(DragAction::ResizeTopRight)
    } else if hits.bottom_left {
        Some(DragAction::ResizeBottomLeft)
    } else if hits.bottom_right {
        Some(DragAction::ResizeBottomRight)
    } else if hits.rotate {
        Some(DragAction::Rotate)
    } else if hits.nearest_edge.is_some() {
        hits.nearest_edge
    } else if hits.inside {
        Some(DragAction::Move)
    } else {
        None
    }
}

/// The geometry of a resize in the node's own frame, in units of its half
/// width and half height: the point that stays fixed, the point under the
/// pointer at the start, and which axes the drag changes.
#[derive(Clone, Copy, PartialEq, Eq, Structural, Debug)]
pub struct ResizeAnchor {
    pub fixed_x: i8,
    pub fixed_y: i8,
    pub dragged_x: i8,
    pub dragged_y: i8,
    pub keep_x: bool,
    pub keep_y: bool,
}

/// The side of the node that a drag pulls on the horizontal axis: -1 for
/// the left side, 1 for the right side, 0 for neither.
pub open spec fn dragged_side_x(action: DragAction) -> i8 {
    match action {
        DragAction::ResizeTopLeft | DragAction::ResizeBottomLeft | DragAction::ResizeLeft => -1i8,
        DragAction::ResizeTopRight | DragAction::ResizeBottomRight | DragAction::ResizeRight => 1i8,
        _ => 0i8,
    }
}

/// The side of the node that a drag pulls on the vertical axis: -1 for the
/// top, 1 for the bottom, 0 for neither.
pub open spec fn dragged_side_y(action: DragAction) -> i8 {
    match action {
        DragAction::ResizeTopLeft | DragAction::ResizeTopRight | DragAction::ResizeTop => -1i8,
        DragAction::ResizeBottomLeft | DragAction::ResizeBottomRight | DragAction::ResizeBottom => 1i8,
        _ => 0i8,
    }
}

/// The anchor of each resize: the dragged point is on the pulled sides, the
/// point opposite it through the center stays fixed, and only the axes
/// with a pulled side change. Moves and rotations have no anchor and
/// change both axes from the center.
pub open spec fn anchor_of(action: DragAction) -> ResizeAnchor {
    if is_resize(action) {
        let dx = dragged_side_x(action);
        let dy = dragged_side_y(action);
        ResizeAnchor {
            fixed_x: (-dx) as i8,
            fixed_y: (-dy) as i8,
            dragged_x: dx,
            dragged_y: dy,
            keep_x: dx != 0,
            keep_y: dy != 0,
        }
    } else {
        ResizeAnchor {
            fixed_x: 0,
            fixed_y: 0,
            dragged_x: 0,
            dragged_y: 0,
            keep_x: true,
            keep_y: true,
        }
    }
}

/// Whether `action` resizes the node.
pub open spec fn is_resize(action: DragAction) -> bool {
    !(action is Move || action is Rotate)
}

/// The anchor of a drag.
pub fn resize_anchor(action: DragAction) -> (a: ResizeAnchor)
    ensures
        a == anchor_of(action),
{
    match action {
        DragAction::ResizeBottomRight => ResizeAnchor {
            fixed_x: -1i8,
            fixed_y: -1i8,
            dragged_x: 1,
            dragged_y: 1,
            keep_x: true,
            keep_y: true,
        },
        DragAction::ResizeTopLeft => ResizeAnchor {
            fixed_x: 1,
            fixed_y: 1,
            dragged_x: -1i8,
            dragged_y: -1i8,
            keep_x: true,
            keep_y: true,
        },
        DragAction::ResizeTopRight => ResizeAnchor {
            fixed_x: -1i8,
            fixed_y: 1,
            dragged_x: 1,
            dragged_y: -1i8,
            keep_x: true,
            keep_y: true,
        },
        DragAction::ResizeBottomLeft => ResizeAnchor {
            fixed_x: 1,
            fixed_y: -1i8,
            dragged_x: -1i8,
            dragged_y: 1,
            keep_x: true,
            keep_y: true,
        },
        DragAction::ResizeRight => ResizeAnchor {
            fixed_x: -1i8,
            fixed_y: 0,
            dragged_x: 1,
            dragged_y: 0,
            keep_x: true,
            keep_y: false,
        },
        DragAction::ResizeLeft => ResizeAnchor {
            fixed_x: 1,
            fixed_y: 0,
            dragged_x: -1i8,
            dragged_y: 0,
            keep_x: true,
            keep_y: false,
        },
        DragAction::ResizeBottom => ResizeAnchor {
            fixed_x: 0,
            fixed_y: -1i8,
            dragged_x: 0,
            dragged_y: 1,
            keep_x: false,
            keep_y: true,
        },
        DragAction::ResizeTop => ResizeAnchor {
            fixed_x: 0,
            fixed_y: 1,
            dragged_x: 0,
            dragged_y: -1i8,
            keep_x: false,
            keep_y: true,
        },
        _ => ResizeAnchor {
            fixed_x: 0,
            fixed_y: 0,
            dragged_x: 0,
            dragged_y: 0,
            keep_x: true,
            keep_y: true,
        },
    }
}

/// In every resize the dragged point is the fixed point mirrored through
/// the center, and an axis changes exactly where the fixed point lies off
/// the center on it.
pub proof fn lemma_resize_anchor_opposite(action: DragAction)
    requires
        is_resize(action),
    ensures
        anchor_of(action).dragged_x == -anchor_of(action).fixed_x,
        anchor_of(action).dragged_y == -anchor_of(action).fixed_y,
        anchor_of(action).keep_x <==> anchor_of(action).fixed_x != 0,
        anchor_of(action).keep_y <==> anchor_of(action).fixed_y != 0,
{
}

/// Which handle a press picks: a corner hit wins over everything after it
/// (corners in the order top left, top right, bottom left, bottom right);
/// then the rotation knob; then the nearest edge; then the body, which
/// moves; nothing hit starts no drag. Each corner, the knob and the body
/// start their own drag and no other.
pub proof fn lemma_drag_precedence(hits: HandleHits)
    ensures
        hits.top_left ==> chosen_drag(hits) == Some(DragAction::ResizeTopLeft),
        !hits.top_left && hits.top_right ==> chosen_drag(hits) == Some(DragAction::ResizeTopRight),
        !hits.top_left && !hits.top_right && hits.bottom_left ==> chosen_drag(hits) == Some(
            DragAction::ResizeBottomLeft,
        ),
        !hits.top_left && !hits.top_right && !hits.bottom_left && hits.bottom_right ==> chosen_drag(
            hits,
        ) == Some(DragAction::ResizeBottomRight),
        !hits.top_left && !hits.top_right && !hits.bottom_left && !hits.bottom_right && hits.rotate
            ==> chosen_drag(hits) == Some(DragAction::Rotate),
        !hits.top_left && !hits.top_right && !hits.bottom_left && !hits.bottom_right && !hits.rotate
            && hits.nearest_edge is Some ==> chosen_drag(hits) == hits.nearest_edge,
        !hits.top_left && !hits.top_right && !hits.bottom_left && !hits.bottom_right && !hits.rotate
            && hits.nearest_edge is None && hits.inside ==> chosen_drag(hits) == Some(DragAction::Move),
        !hits.top_left && !hits.top_right && !hits.bottom_left && !hits.bottom_right && !hits.rotate
            && hits.nearest_edge is None && !hits.inside ==> chosen_drag(hits) is None,
        chosen_drag(hits) == Some(DragAction::ResizeTopLeft) ==> hits.top_left
            || hits.nearest_edge == Some(DragAction::ResizeTopLeft),
        chosen_drag(hits) == Some(DragAction::ResizeTopRight) ==> hits.top_right
            || hits.nearest_edge == Some(DragAction::ResizeTopRight),
        chosen_drag(hits) == Some(DragAction::ResizeBottomLeft) ==> hits.bottom_left
            || hits.nearest_edge == Some(DragAction::ResizeBottomLeft),
        chosen_drag(hits) == Some(DragAction::ResizeBottomRight) ==> hits.bottom_right
            || hits.nearest_edge == Some(DragAction::ResizeBottomRight),
        chosen_drag(hits) == Some(DragAction::Rotate) ==> hits.rotate || hits.nearest_edge == Some(
            DragAction::Rotate,
        ),
        chosen_drag(hits) == Some(DragAction::Move) ==> hits.inside || hits.nearest_edge == Some(
            DragAction::Move,
        ),
{
    let c = drag_candidates(hits);
    reveal_with_fuel(first_present, 8);
    assert(c.drop_first() =~= c.subrange(1, 7));
    assert(c.drop_first().drop_first() =~= c.subrange(2, 7));
    assert(c.subrange(2, 7).drop_first() =~= c.subrange(3, 7));
    assert(c.subrange(3, 7).drop_first() =~= c.subrange(4, 7));
    assert(c.subrange(4, 7).drop_first() =~= c.subrange(5, 7));
    assert(c.subrange(5, 7).drop_first() =~= c.subrange(6, 7));
    assert(c.subrange(6, 7).drop_first() =~= Seq::<Option<DragAction>>::empty());
}

/// The dragged point lies on the sides of the node that the handle sits
/// on: left handles drag x = -1, right handles x = 1, top handles y = -1,
/// bottom handles y = 1, and an edge handle leaves the other axis at the
/// center and unchanged; the fixed point is the opposite one.
pub proof fn lemma_resize_anchor_sides(action: DragAction)
    ensures
        action is ResizeLeft || action is ResizeTopLeft || action is ResizeBottomLeft
            ==> anchor_of(action).dragged_x == -1 && anchor_of(action).fixed_x == 1
            && anchor_of(action).keep_x,
        action is ResizeRight || action is ResizeTopRight || action is ResizeBottomRight
            ==> anchor_of(action).dragged_x == 1 && anchor_of(action).fixed_x == -1
            && anchor_of(action).keep_x,
        action is ResizeTop || action is ResizeTopLeft || action is ResizeTopRight
            ==> anchor_of(action).dragged_y == -1 && anchor_of(action).fixed_y == 1
            && anchor_of(action).keep_y,
        action is ResizeBottom || action is ResizeBottomLeft || action is ResizeBottomRight
            ==> anchor_of(action).dragged_y == 1 && anchor_of(action).fixed_y == -1
            && anchor_of(action).keep_y,
        action is ResizeTop || action is ResizeBottom ==> anchor_of(action).dragged_x == 0
            && anchor_of(action).fixed_x == 0 && !anchor_of(action).keep_x,
        action is ResizeLeft || action is ResizeRight ==> anchor_of(action).dragged_y == 0
            && anchor_of(action).fixed_y == 0 && !anchor_of(action).keep_y,
{
}

} // verus!
