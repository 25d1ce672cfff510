//! The verified core of the VUIS editor: the undo/redo history of canvas
//! snapshots, the compressed `.vuis` document format and embedded assets,
//! the node hierarchy, and the editor's input and layout decisions.
#![allow(non_snake_case)]

pub mod history;
pub mod document;
pub mod assets;
pub mod hierarchy;
pub mod layout;
pub mod gizmo;
pub mod selection;
pub mod controls;
pub mod nodes;
