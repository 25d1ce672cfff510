# vuis

The verified core of a visual UI editor whose documents are saved as
`.vuis` files (gzip-compressed JSON).

- `src/` is the library, verified with Verus:
  - `history`: the undo/redo stacks of canvas snapshots, with the laws that
    undo and redo invert each other and that a frame's requests restore the
    snapshot that is current afterwards;
  - `document`: the `.vuis` byte format (gzip through `flate2`);
  - `assets`: images and fonts embedded as Base64 (`base64`, `image`,
    `ttf-parser`);
  - `hierarchy` and `selection`: the node tree, the descendant search that
    keeps a node from being moved into its own subtree, and the selection;
  - `controls`, `gizmo`, `layout`, `nodes`: keyboard shortcuts, drag handles,
    layout modes and the nodes the editor creates.
- `app/` is the Bevy/egui program around it: windows, input, rendering,
  file dialogs, JSON (de)serialization with serde, and all floating-point
  geometry.
- `tests/` runs the library on concrete values.
