//! Keyboard shortcuts of the editor: undo and redo, copy and paste,
//! deleting and nudging the selected node.
use vstd::prelude::*;

verus! {

/// The state of the keys that the editor's shortcuts read in one frame:
/// held keys, and keys pressed in this frame.
pub struct KeyState {
    /// A text field of the panels has the keyboard.
    pub captured: bool,
    pub ctrl_left: bool,
    pub ctrl_right: bool,
    pub shift_left: bool,
    pub shift_right: bool,
    pub z_pressed: bool,
    pub y_pressed: bool,
    pub c_pressed: bool,
    pub v_pressed: bool,
    pub delete_pressed: bool,
    pub left_pressed: bool,
    pub right_pressed: bool,
    pub up_pressed: bool,
    pub down_pressed: bool,
}

impl KeyState {
    pub open spec fn ctrl(&self) -> bool {
        self.ctrl_left || self.ctrl_right
    }
}

/// A history request made from the keyboard.
#[derive(Clone, Copy, PartialEq, Eq, Structural, Debug)]
pub enum HistoryShortcut {
    Undo,
    Redo,
}

/// Ctrl+Z asks to undo, else Ctrl+Y asks to redo; nothing while a text
/// field has the keyboard.
pub fn history_shortcut(keys: &KeyState) -> (s: Option<HistoryShortcut>)
    ensures
        s == (if !keys.captured && keys.ctrl() && keys.z_pressed {
            Some(HistoryShortcut::Undo)
        } else if !keys.captured && keys.ctrl() && keys.y_pressed {
            Some(HistoryShortcut::Redo)
        } else {
            None
        }),
{
    if keys.captured {
        return None;
    }
    let ctrl = keys.ctrl_left || keys.ctrl_right;
    if ctrl {
        if keys.z_pressed {
            Some(HistoryShortcut::Undo)
        } else if keys.y_pressed {
            Some(HistoryShortcut::Redo)
        } else {
            None
        }
    } else {
        None
    }
}

/// The clipboard requests of one frame: Ctrl+C copies the selected node,
/// Ctrl+V pastes; both may come in the same frame, copy first.
#[derive(Clone, Copy, PartialEq, Eq, Structural, Debug)]
pub struct ClipboardShortcut {
    pub copy: bool,
    pub paste: bool,
}

/// The clipboard requests of one frame; none while a text field has the
/// keyboard or Ctrl is up.
pub fn clipboard_shortcut(keys: &KeyState) -> (s: ClipboardShortcut)
    ensures
        s.copy == (!keys.captured && keys.ctrl() && keys.c_pressed),
        s.paste == (!keys.captured && keys.ctrl() && keys.v_pressed),
{
    let active = !keys.captured && (keys.ctrl_left || keys.ctrl_right);
    ClipboardShortcut { copy: active && keys.c_pressed, paste: active && keys.v_pressed }
}

/// Whether the Delete key removes the selected node in this frame.
pub fn delete_requested(keys: &KeyState) -> (b: bool)
    ensures
        b == (!keys.captured && keys.delete_pressed),
{
    !keys.captured && keys.delete_pressed
}

/// The axis along which an arrow key moves a node.
#[derive(Clone, Copy, PartialEq, Eq, Structural, Debug)]
pub enum Axis {
    X,
    Y,
}

/// One step of an arrow-key move, in logical pixels.
#[derive(Clone, Copy, PartialEq, Eq, Structural, Debug)]
pub struct Nudge {
    pub axis: Axis,
    pub delta: i32,
}

/// The step of an arrow-key move: ten pixels with Shift held, else one.
pub open spec fn nudge_step(keys: KeyState) -> i32 {
    if keys.shift_left || keys.shift_right {
        10
    } else {
        1
    }
}

/// The step `delta` along `axis`, where its key was pressed.
pub open spec fn nudge_if(pressed: bool, axis: Axis, delta: int) -> Seq<Nudge> {
    if pressed {
        seq![Nudge { axis, delta: delta as i32 }]
    } else {
        Seq::empty()
    }
}

/// The steps of an arrow-key move, in the order applied: left, right, up,
/// down; each present where its key was pressed, none while a text field
/// has the keyboard.
pub open spec fn nudges_of(keys: KeyState) -> Seq<Nudge> {
    let step = nudge_step(keys) as int;
    if keys.captured {
        Seq::empty()
    } else {
        nudge_if(keys.left_pressed, Axis::X, -step) + nudge_if(keys.right_pressed, Axis::X, step)
            + nudge_if(keys.up_pressed, Axis::Y, -step) + nudge_if(keys.down_pressed, Axis::Y, step)
    }
}

/// The arrow-key moves of the selected node in this frame. The node has
/// moved (and a snapshot is due) exactly where the result is not empty.
pub fn arrow_nudges(keys: &KeyState) -> (moves: Vec<Nudge>)
    ensures
        moves@ == nudges_of(*keys),
{
    let mut moves: Vec<Nudge> = Vec::new();
    if keys.captured {
        assert(moves@ =~= nudges_of(*keys));
        return moves;
    }
    let step: i32 = if keys.shift_left || keys.shift_right {
        10
    } else {
        1
    };
    let ghost s = step as int;
    if keys.left_pressed {
        moves.push(Nudge { axis: Axis::X, delta: -step });
    }
    assert(moves@ =~= nudge_if(keys.left_pressed, Axis::X, -s));
    if keys.right_pressed {
        moves.push(Nudge { axis: Axis::X, delta: step });
    }
    assert(moves@ =~= nudge_if(keys.left_pressed, Axis::X, -s) + nudge_if(keys.right_pressed, Axis::X, s));
    if keys.up_pressed {
        moves.push(Nudge { axis: Axis::Y, delta: -step });
    }
    assert(moves@ =~= nudge_if(keys.left_pressed, Axis::X, -s) + nudge_if(keys.right_pressed, Axis::X, s)
        + nudge_if(keys.up_pressed, Axis::Y, -s));
    if keys.down_pressed {
        moves.push(Nudge { axis: Axis::Y, delta: step });
    }
    assert(moves@ =~= nudges_of(*keys));
    moves
}

/// Every arrow-key step has the same size, ten pixels with a Shift key held
/// and one otherwise; left and up move by minus that size, right and down by
/// plus it. Each pressed arrow gives exactly one step along its own axis and
/// in its own direction, no other steps are given, and none at all while a
/// text field has the keyboard.
pub proof fn lemma_nudge_sizes(keys: KeyState)
    ensures
        forall|k: int|
            0 <= k < nudges_of(keys).len() ==> (#[trigger] nudges_of(keys)[k]).delta == (if keys.shift_left
                || keys.shift_right {
                10i32
            } else {
                1i32
            }) || nudges_of(keys)[k].delta == (if keys.shift_left || keys.shift_right {
                -10i32
            } else {
                -1i32
            }),
        forall|k: int|
            0 <= k < nudges_of(keys).len() ==> {
                let n = #[trigger] nudges_of(keys)[k];
                &&& n.axis == Axis::X && n.delta < 0 ==> keys.left_pressed
                &&& n.axis == Axis::X && n.delta > 0 ==> keys.right_pressed
                &&& n.axis == Axis::Y && n.delta < 0 ==> keys.up_pressed
                &&& n.axis == Axis::Y && n.delta > 0 ==> keys.down_pressed
            },
        keys.captured ==> nudges_of(keys).len() == 0,
        !keys.captured ==> nudges_of(keys).len() == (if keys.left_pressed {
            1int
        } else {
            0
        }) + (if keys.right_pressed {
            1int
        } else {
            0
        }) + (if keys.up_pressed {
            1int
        } else {
            0
        }) + (if keys.down_pressed {
            1int
        } else {
            0
        }),
        !keys.captured && keys.left_pressed ==> nudges_of(keys).contains(
            Nudge { axis: Axis::X, delta: (if keys.shift_left || keys.shift_right { -10i32 } else { -1i32 }) },
        ),
        !keys.captured && keys.right_pressed ==> nudges_of(keys).contains(
            Nudge { axis: Axis::X, delta: (if keys.shift_left || keys.shift_right { 10i32 } else { 1i32 }) },
        ),
        !keys.captured && keys.up_pressed ==> nudges_of(keys).contains(
            Nudge { axis: Axis::Y, delta: (if keys.shift_left || keys.shift_right { -10i32 } else { -1i32 }) },
        ),
        !keys.captured && keys.down_pressed ==> nudges_of(keys).contains(
            Nudge { axis: Axis::Y, delta: (if keys.shift_left || keys.shift_right { 10i32 } else { 1i32 }) },
        ),
{
    let step = nudge_step(keys) as int;
    let l = nudge_if(keys.left_pressed, Axis::X, -step);
    let r = nudge_if(keys.right_pressed, Axis::X, step);
    let u = nudge_if(keys.up_pressed, Axis::Y, -step);
    let d = nudge_if(keys.down_pressed, Axis::Y, step);
    if !keys.captured {
        let all = l + r + u + d;
        assert(nudges_of(keys) == all);
        assert forall|k: int| 0 <= k < all.len() implies {
            let n = #[trigger] all[k];
            &&& (n.delta == step || n.delta == -step)
            &&& (n.axis == Axis::X && n.delta < 0 ==> keys.left_pressed)
            &&& (n.axis == Axis::X && n.delta > 0 ==> keys.right_pressed)
            &&& (n.axis == Axis::Y && n.delta < 0 ==> keys.up_pressed)
            &&& (n.axis == Axis::Y && n.delta > 0 ==> keys.down_pressed)
        } by {
            if k < l.len() {
                assert(all[k] == l[k]);
            } else if k < l.len() + r.len() {
                assert(all[k] == r[k - l.len()]);
            } else if k < l.len() + r.len() + u.len() {
                assert(all[k] == u[k - l.len() - r.len()]);
            } else {
                assert(all[k] == d[k - l.len() - r.len() - u.len()]);
            }
        }
        if keys.left_pressed {
            assert(all[0] == l[0]);
        }
        if keys.right_pressed {
            assert(all[l.len() as int] == r[0]);
        }
        if keys.up_pressed {
            assert(all[(l.len() + r.len()) as int] == u[0]);
        }
        if keys.down_pressed {
            assert(all[(l.len() + r.len() + u.len()) as int] == d[0]);
        }
    }
}

} // verus!
