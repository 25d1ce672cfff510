//! How a node lays out its children: free placement, a grid, or a flow in
//! one direction, as chosen by its `LayoutFlow` name and its grid flag.
use vstd::prelude::*;

verus! {

/// The layout that a node applies to its children.
#[derive(PartialEq, Eq, Structural, Clone, Copy, Debug)]
pub enum FlowMode {
    Grid,
    Vertical,
    Horizontal,
    Free,
}

/// The layout of a node whose `LayoutFlow` is `flow`: "None" with the grid
/// flag set means a grid, and the names "Grid", "Vertical" and
/// "Horizontal" select their layouts; any other name places children
/// freely.
pub open spec fn flow_mode(flow: Seq<char>, is_grid: bool) -> FlowMode {
    if flow == "None"@ && is_grid {
        FlowMode::Grid
    } else if flow == "Grid"@ {
        FlowMode::Grid
    } else if flow == "Vertical"@ {
        FlowMode::Vertical
    } else if flow == "Horizontal"@ {
        FlowMode::Horizontal
    } else {
        FlowMode::Free
    }
}

/// Whether the editor draws grid lines over a node: its flow is "Grid", or
/// it is "None" and the grid flag is set.
pub open spec fn grid_overlay_shown(flow: Seq<char>, is_grid: bool) -> bool {
    flow == "Grid"@ || (is_grid && flow == "None"@)
}

/// Whether two texts are equal.
fn same_text(a: &str, b: &str) -> (eq: bool)
    ensures
        eq == (a@ == b@),
{
    let n = a.unicode_len();
    if n != b.unicode_len() {
        return false;
    }
    let mut i: usize = 0;
    while i < n
        invariant
            n == a@.len(),
            n == b@.len(),
            i <= n,
            forall|k: int| 0 <= k < i ==> a@[k] == b@[k],
        decreases n - i,
    {
        if a.get_char(i) != b.get_char(i) {
            return false;
        }
        i = i + 1;
    }
    assert(a@ =~= b@);
    true
}

/// The layout that a node with this `LayoutFlow` and grid flag applies.
pub fn resolve_flow(layout_flow: &str, is_grid: bool) -> (mode: FlowMode)
    ensures
        mode == flow_mode(layout_flow@, is_grid),
{
    if same_text(layout_flow, "None") && is_grid {
        FlowMode::Grid
    } else if same_text(layout_flow, "Grid") {
        FlowMode::Grid
    } else if same_text(layout_flow, "Vertical") {
        FlowMode::Vertical
    } else if same_text(layout_flow, "Horizontal") {
        FlowMode::Horizontal
    } else {
        FlowMode::Free
    }
}

/// Whether the editor draws grid lines over a node.
pub fn shows_grid_overlay(layout_flow: &str, is_grid: bool) -> (shown: bool)
    ensures
        shown == grid_overlay_shown(layout_flow@, is_grid),
{
    same_text(layout_flow, "Grid") || (is_grid && same_text(layout_flow, "None"))
}

/// Grid lines are drawn over exactly the nodes that lay out their children
/// as a grid.
pub proof fn lemma_overlay_iff_grid(flow: Seq<char>, is_grid: bool)
    ensures
        grid_overlay_shown(flow, is_grid) <==> flow_mode(flow, is_grid) == FlowMode::Grid,
{
}

/// Whether a node's children follow its flow, rather than being placed at
/// their own positions: its `LayoutFlow` is not "None".
pub fn places_children_in_flow(layout_flow: &str) -> (in_flow: bool)
    ensures
        in_flow == (layout_flow@ != "None"@),
{
    !same_text(layout_flow, "None")
}

/// How a child is positioned in its parent.
#[derive(PartialEq, Eq, Structural, Clone, Copy, Debug)]
pub enum PositionKind {
    Relative,
    Absolute,
}

/// The change a child's positioning needs.
#[derive(PartialEq, Eq, Structural, Clone, Copy, Debug)]
pub enum PositionUpdate {
    /// Nothing to change.
    Keep,
    /// Follow the parent's flow: position relative, offsets automatic.
    MakeRelative,
    /// Stand at the node's own position: position absolute.
    MakeAbsolute,
}

/// The change to a child's positioning, given whether its parent lays it
/// out in a flow and how it is positioned now.
pub fn child_position_update(parent_in_flow: bool, current: PositionKind) -> (u: PositionUpdate)
    ensures
        parent_in_flow && current != PositionKind::Relative ==> u == PositionUpdate::MakeRelative,
        !parent_in_flow && current != PositionKind::Absolute ==> u == PositionUpdate::MakeAbsolute,
        (parent_in_flow && current == PositionKind::Relative) || (!parent_in_flow && current
            == PositionKind::Absolute) ==> u == PositionUpdate::Keep,
{
    if parent_in_flow {
        if current != PositionKind::Relative {
            PositionUpdate::MakeRelative
        } else {
            PositionUpdate::Keep
        }
    } else {
        if current != PositionKind::Absolute {
            PositionUpdate::MakeAbsolute
        } else {
            PositionUpdate::Keep
        }
    }
}

/// The change a node's scrollbar needs.
#[derive(PartialEq, Eq, Structural, Clone, Copy, Debug)]
pub enum ScrollbarUpdate {
    Spawn,
    Despawn,
    Keep,
}

/// A scrollable node gets a scrollbar where it has none; a node that is no
/// longer scrollable loses the one it has.
pub fn scrollbar_update(is_scrollable: bool, has_scrollbar: bool) -> (u: ScrollbarUpdate)
    ensures
        u == (if is_scrollable && !has_scrollbar {
            ScrollbarUpdate::Spawn
        } else if !is_scrollable && has_scrollbar {
            ScrollbarUpdate::Despawn
        } else {
            ScrollbarUpdate::Keep
        }),
{
    if is_scrollable && !has_scrollbar {
        ScrollbarUpdate::Spawn
    } else if !is_scrollable && has_scrollbar {
        ScrollbarUpdate::Despawn
    } else {
        ScrollbarUpdate::Keep
    }
}

/// The number of grid tracks drawn for a configured count: at least one.
pub fn grid_track_count(configured: u32) -> (n: u32)
    ensures
        n == (if configured >= 1 {
            configured
        } else {
            1
        }),
{
    if configured >= 1 {
        configured
    } else {
        1
    }
}

/// An input node gets a placeholder text where it has none yet.
pub fn needs_placeholder(is_input: bool, has_placeholder: bool) -> (b: bool)
    ensures
        b == (is_input && !has_placeholder),
{
    is_input && !has_placeholder
}

/// An input's placeholder shows only while none of its texts holds
/// anything.
pub fn placeholder_visible(texts: &Vec<String>) -> (visible: bool)
    ensures
        visible == (forall|k: int| 0 <= k < texts@.len() ==> #[trigger] texts@[k]@.len() == 0),
{
    let mut i: usize = 0;
    while i < texts.len()
        invariant
            i <= texts.len(),
            forall|k: int| 0 <= k < i ==> #[trigger] texts@[k]@.len() == 0,
        decreases texts.len() - i,
    {
        if texts[i].as_str().unicode_len() != 0 {
            return false;
        }
        i = i + 1;
    }
    true
}

/// The names "Grid", "Vertical" and "Horizontal" select their layouts
/// whatever the grid flag; the grid flag matters only for the name "None",
/// which gives a grid with the flag and free placement without it; any
/// other name places children freely. Grid lines are drawn exactly where
/// the layout is a grid.
pub proof fn lemma_flow_names(flow: Seq<char>, is_grid: bool)
    ensures
        flow_mode("Grid"@, is_grid) == FlowMode::Grid,
        flow_mode("Vertical"@, is_grid) == FlowMode::Vertical,
        flow_mode("Horizontal"@, is_grid) == FlowMode::Horizontal,
        flow_mode("None"@, true) == FlowMode::Grid,
        flow_mode("None"@, false) == FlowMode::Free,
        flow != "Grid"@ && flow != "Vertical"@ && flow != "Horizontal"@ && flow != "None"@
            ==> flow_mode(flow, is_grid) == FlowMode::Free,
        grid_overlay_shown("Grid"@, is_grid),
        !grid_overlay_shown("Vertical"@, is_grid),
        !grid_overlay_shown("Horizontal"@, is_grid),
        grid_overlay_shown("None"@, is_grid) == is_grid,
        flow != "Grid"@ && flow != "None"@ ==> !grid_overlay_shown(flow, is_grid),
{
    reveal_strlit("Grid");
    reveal_strlit("Vertical");
    reveal_strlit("Horizontal");
    reveal_strlit("None");
    assert("Horizontal"@[0] != "None"@[0]);
    assert("Horizontal"@[0] != "Grid"@[0]);
    assert("Horizontal"@[0] != "Vertical"@[0]);
    assert("Vertical"@[0] != "None"@[0]);
    assert("Vertical"@[0] != "Grid"@[0]);
    assert("Grid"@[0] != "None"@[0]);
}

} // verus!
