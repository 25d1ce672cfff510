//! The editor's selection: which node is selected, which node is being
//! dragged in the hierarchy panel, and what a drop there does.
use vstd::prelude::*;
use crate::hierarchy::{acyclic, lemma_drop_keeps_hierarchy_acyclic, moved_under, Hierarchy};

verus! {

/// The selected node, whether the pointer is over the editor's panels, and
/// the node being dragged in the hierarchy panel (entities by their ids).
pub struct EditorSelection {
    pub SelectedNode: Option<u64>,
    pub IsPointerOverUi: bool,
    pub DraggedHierarchyEntity: Option<u64>,
}

impl Default for EditorSelection {
    fn default() -> (s: EditorSelection)
        ensures
            s.SelectedNode is None,
            !s.IsPointerOverUi,
            s.DraggedHierarchyEntity is None,
    {
        EditorSelection { SelectedNode: None, IsPointerOverUi: false, DraggedHierarchyEntity: None }
    }
}

/// What happened to one row of the hierarchy panel in this frame.
pub struct HierarchyRowInput {
    /// The row was clicked.
    pub clicked: bool,
    /// A drag started on the row.
    pub drag_started: bool,
    /// The pointer is over the row and a button was released.
    pub released_over: bool,
}

impl EditorSelection {
    /// Whether `entity` is drawn as selected.
    pub fn is_selected(&self, entity: u64) -> (b: bool)
        ensures
            b == (self.SelectedNode == Some(entity)),
    {
        match self.SelectedNode {
            Some(e) => e == entity,
            None => false,
        }
    }

    /// The parent of a node added now: the selected node, else the canvas.
    pub fn insertion_parent(&self, canvas: u64) -> (parent: u64)
        ensures
            parent == (match self.SelectedNode {
                Some(e) => e,
                None => canvas,
            }),
    {
        match self.SelectedNode {
            Some(e) => e,
            None => canvas,
        }
    }

    /// Handles the row of `entity` in the hierarchy panel: a click selects
    /// it, a drag starting on it makes it the dragged node, and a release
    /// over it while another node is dragged asks to move that node under
    /// it.
    pub fn hierarchy_row(
        &mut self,
        entity: u64,
        input: &HierarchyRowInput,
        reparent: &mut Option<(u64, u64)>,
    )
        ensures
            final(self).SelectedNode == (if input.clicked {
                Some(entity)
            } else {
                old(self).SelectedNode
            }),
            final(self).DraggedHierarchyEntity == (if input.drag_started {
                Some(entity)
            } else {
                old(self).DraggedHierarchyEntity
            }),
            final(self).IsPointerOverUi == old(self).IsPointerOverUi,
            *final(reparent) == (if input.released_over && final(self).DraggedHierarchyEntity is Some
                && final(self).DraggedHierarchyEntity != Some(entity) {
                Some((final(self).DraggedHierarchyEntity->0, entity))
            } else {
                *old(reparent)
            }),
    {
        if input.clicked {
            self.SelectedNode = Some(entity);
        }
        if input.drag_started {
            self.DraggedHierarchyEntity = Some(entity);
        }
        if input.released_over {
            match self.DraggedHierarchyEntity {
                Some(dragged) => {
                    if dragged != entity {
                        *reparent = Some((dragged, entity));
                    }
                },
                None => {},
            }
        }
    }

    /// Ends a frame of the hierarchy panel. `requested` is the move that a
    /// row asked for; a release over the panel outside the rows moves the
    /// dragged node to the top level, under `canvas`. Any release ends the
    /// drag. Returns the move to perform, as (child, new parent): none that
    /// would put a node under itself or under one of its descendants.
    pub fn settle_hierarchy_drop(
        &mut self,
        hierarchy: &Hierarchy,
        requested: Option<(u64, u64)>,
        panel_hovered: bool,
        pointer_released: bool,
        canvas: Option<u64>,
    ) -> (reparent: Option<(u64, u64)>)
        ensures
            final(self).SelectedNode == old(self).SelectedNode,
            final(self).IsPointerOverUi == old(self).IsPointerOverUi,
            final(self).DraggedHierarchyEntity == (if pointer_released {
                None
            } else {
                old(self).DraggedHierarchyEntity
            }),
            reparent == (match drop_request(
                requested,
                panel_hovered && pointer_released,
                old(self).DraggedHierarchyEntity,
                canvas,
            ) {
                Some((child, parent)) => if hierarchy.reaches(child, parent) {
                    None
                } else {
                    Some((child, parent))
                },
                None => None,
            }),
            reparent matches Some((child, parent)) ==> !hierarchy.reaches(child, parent),
            requested matches Some((child, parent)) ==> reparent == (if hierarchy.reaches(child, parent) {
                None
            } else {
                Some((child, parent))
            }),
            requested is None && !(panel_hovered && pointer_released) ==> reparent is None,
            reparent matches Some((child, parent)) ==> (acyclic(hierarchy.edges()) ==> acyclic(
                moved_under(hierarchy.edges(), child, parent),
            )),
    {
        let mut action = requested;
        if panel_hovered && pointer_released {
            match self.DraggedHierarchyEntity {
                Some(dragged) => {
                    if action.is_none() {
                        match canvas {
                            Some(c) => {
                                action = Some((dragged, c));
                            },
                            None => {},
                        }
                    }
                },
                None => {},
            }
        }
        if pointer_released {
            self.DraggedHierarchyEntity = None;
        }
        match action {
            Some((child, parent)) => {
                if hierarchy.is_descendant(parent, child) {
                    None
                } else {
                    proof {
                        if acyclic(hierarchy.edges()) {
                            lemma_drop_keeps_hierarchy_acyclic(hierarchy, child, parent);
                        }
                    }
                    Some((child, parent))
                }
            },
            None => None,
        }
    }

    /// A press on the canvas: a node under the pointer becomes selected; a
    /// press on empty canvas clears the selection; a press elsewhere changes
    /// nothing.
    pub fn press_on_canvas(&mut self, clicked_node: Option<u64>, on_canvas: bool)
        ensures
            final(self).SelectedNode == (match clicked_node {
                Some(e) => Some(e),
                None => if on_canvas {
                    None
                } else {
                    old(self).SelectedNode
                },
            }),
            final(self).IsPointerOverUi == old(self).IsPointerOverUi,
            final(self).DraggedHierarchyEntity == old(self).DraggedHierarchyEntity,
    {
        match clicked_node {
            Some(e) => {
                self.SelectedNode = Some(e);
            },
            None => {
                if on_canvas {
                    self.SelectedNode = None;
                }
            },
        }
    }

    /// Deletes the selected node unless it is the canvas. Returns the node
    /// to remove; the selection is then empty.
    pub fn delete_selected(&mut self, selected_is_canvas: bool) -> (removed: Option<u64>)
        ensures
            removed == (if old(self).SelectedNode is Some && !selected_is_canvas {
                old(self).SelectedNode
            } else {
                None
            }),
            final(self).SelectedNode == (if removed is Some {
                None
            } else {
                old(self).SelectedNode
            }),
            final(self).IsPointerOverUi == old(self).IsPointerOverUi,
            final(self).DraggedHierarchyEntity == old(self).DraggedHierarchyEntity,
    {
        match self.SelectedNode {
            Some(e) => {
                if !selected_is_canvas {
                    self.SelectedNode = None;
                    Some(e)
                } else {
                    None
                }
            },
            None => None,
        }
    }
}

/// The move that a frame's drop asks for before the cycle test: the one a
/// row requested, else, on a release over the panel while a node is
/// dragged, that node to the top level.
pub open spec fn drop_request(
    requested: Option<(u64, u64)>,
    released_over_panel: bool,
    dragged: Option<u64>,
    canvas: Option<u64>,
) -> Option<(u64, u64)> {
    if requested is None && released_over_panel && dragged is Some && canvas is Some {
        Some((dragged->0, canvas->0))
    } else {
        requested
    }
}

/// A drop asks for the move that a row requested, whatever happens over the
/// panel; only when no row asked for a move does a release over the panel
/// (with a node dragged and a canvas present) move the dragged node to the
/// top level, under the canvas; otherwise nothing is asked.
pub proof fn lemma_drop_request_prefers_row(
    requested: Option<(u64, u64)>,
    released_over_panel: bool,
    dragged: Option<u64>,
    canvas: Option<u64>,
)
    ensures
        requested is Some ==> drop_request(requested, released_over_panel, dragged, canvas)
            == requested,
        requested is None && released_over_panel && dragged is Some && canvas is Some
            ==> drop_request(requested, released_over_panel, dragged, canvas) == Some(
            (dragged->0, canvas->0),
        ),
        requested is None && !(released_over_panel && dragged is Some && canvas is Some)
            ==> drop_request(requested, released_over_panel, dragged, canvas) is None,
{
}

} // verus!
