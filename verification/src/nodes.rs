//! The nodes that the editor creates: what each creation button and each
//! "Add" button of the toolbar makes, and the name of a pasted copy.
use vstd::prelude::*;
use crate::assets::DecodedImage;
use crate::document::opt_chars;

verus! {

/// A solid fill of the editor's palette.
#[derive(Clone, Copy, PartialEq, Eq, Structural, Debug)]
pub enum Fill {
    /// 50% grey, opaque.
    Gray,
    Transparent,
    White,
    Black,
}

/// What a new node looks like, in whole logical pixels; a size of zero
/// means that the node sizes itself to its content.
pub struct NodeTemplate {
    pub id: String,
    /// Where the node is placed in its parent, from the top left.
    pub position_x: u32,
    pub position_y: u32,
    pub width: u32,
    pub height: u32,
    pub background: Fill,
    pub text_color: Fill,
    pub has_text: bool,
    pub is_input: bool,
    pub is_image: bool,
    /// The text of the text child that the node is created with, if any.
    pub initial_text: Option<String>,
    /// The picture the node is created with, if any.
    pub image: Option<DecodedImage>,
}

/// The buttons of the creation bar.
#[derive(Clone, Copy, PartialEq, Eq, Structural, Debug)]
pub enum CreationButton {
    SpawnNode,
    SpawnText,
    SpawnImage,
}

/// A one-pixel opaque white image, the picture of a new image node.
pub fn blank_image() -> (img: DecodedImage)
    ensures
        img.width == 1,
        img.height == 1,
        img.pixels@ == seq![255u8, 255u8, 255u8, 255u8],
        img.wf(),
{
    let mut pixels: Vec<u8> = Vec::new();
    pixels.push(255);
    pixels.push(255);
    pixels.push(255);
    pixels.push(255);
    assert(pixels@ =~= seq![255u8, 255u8, 255u8, 255u8]);
    DecodedImage { width: 1, height: 1, pixels }
}

/// The node that a creation button makes, placed at (100, 100): "Node" and
/// "Image" are 100 by 100, "Text" sizes itself and carries the text "New Text"; the image node
/// is transparent and holds a blank picture, the others are grey.
pub fn creation_template(button: CreationButton) -> (t: NodeTemplate)
    ensures
        t.id@ == (match button {
            CreationButton::SpawnNode => "Node"@,
            CreationButton::SpawnText => "Text"@,
            CreationButton::SpawnImage => "Image"@,
        }),
        (t.width, t.height) == (if button == CreationButton::SpawnText {
            (0u32, 0u32)
        } else {
            (100u32, 100u32)
        }),
        t.background == (if button == CreationButton::SpawnImage {
            Fill::Transparent
        } else {
            Fill::Gray
        }),
        t.position_x == 100 && t.position_y == 100,
        t.text_color == Fill::White,
        !t.has_text,
        !t.is_input,
        t.is_image == (button == CreationButton::SpawnImage),
        button == CreationButton::SpawnText ==> (t.initial_text matches Some(s) && s@ == "New Text"@),
        button != CreationButton::SpawnText ==> t.initial_text is None,
        button == CreationButton::SpawnImage ==> (t.image matches Some(img) && img.width == 1
            && img.height == 1 && img.pixels@ == seq![255u8, 255u8, 255u8, 255u8]),
        button != CreationButton::SpawnImage ==> t.image is None,
{
    match button {
        CreationButton::SpawnNode => NodeTemplate {
            id: String::from_str("Node"),
            position_x: 100,
            position_y: 100,
            width: 100,
            height: 100,
            background: Fill::Gray,
            text_color: Fill::White,
            has_text: false,
            is_input: false,
            is_image: false,
            initial_text: None,
            image: None,
        },
        CreationButton::SpawnText => NodeTemplate {
            id: String::from_str("Text"),
            position_x: 100,
            position_y: 100,
            width: 0,
            height: 0,
            background: Fill::Gray,
            text_color: Fill::White,
            has_text: false,
            is_input: false,
            is_image: false,
            initial_text: Some(String::from_str("New Text")),
            image: None,
        },
        CreationButton::SpawnImage => NodeTemplate {
            id: String::from_str("Image"),
            position_x: 100,
            position_y: 100,
            width: 100,
            height: 100,
            background: Fill::Transparent,
            text_color: Fill::White,
            has_text: false,
            is_input: false,
            is_image: true,
            initial_text: None,
            image: Some(blank_image()),
        },
    }
}

/// The "Add" buttons of the toolbar.
#[derive(Clone, Copy, PartialEq, Eq, Structural, Debug)]
pub enum NodeKind {
    Node,
    Text,
    Input,
    Image,
}

/// The node that an "Add" button makes, placed at (50, 50): a grey 100 by
/// 100 box; a
/// transparent, self-sizing text reading "New Text" in white; a white 150
/// by 30 input with an empty black text; a transparent 100 by 100 image.
pub fn toolbar_template(kind: NodeKind) -> (t: NodeTemplate)
    ensures
        t.id@ == (match kind {
            NodeKind::Node => "Node"@,
            NodeKind::Text => "Text"@,
            NodeKind::Input => "Input"@,
            NodeKind::Image => "Image"@,
        }),
        (t.width, t.height) == (match kind {
            NodeKind::Node => (100u32, 100u32),
            NodeKind::Text => (0u32, 0u32),
            NodeKind::Input => (150u32, 30u32),
            NodeKind::Image => (100u32, 100u32),
        }),
        t.background == (match kind {
            NodeKind::Node => Fill::Gray,
            NodeKind::Text => Fill::Transparent,
            NodeKind::Input => Fill::White,
            NodeKind::Image => Fill::Transparent,
        }),
        t.text_color == (if kind == NodeKind::Input {
            Fill::Black
        } else {
            Fill::White
        }),
        t.position_x == 50 && t.position_y == 50,
        t.has_text == (kind == NodeKind::Text || kind == NodeKind::Input),
        t.is_input == (kind == NodeKind::Input),
        t.is_image == (kind == NodeKind::Image),
        kind == NodeKind::Text ==> (t.initial_text matches Some(s) && s@ == "New Text"@),
        kind == NodeKind::Input ==> (t.initial_text matches Some(s) && s@ == ""@),
        kind == NodeKind::Node || kind == NodeKind::Image ==> t.initial_text is None,
        t.image is None,
{
    match kind {
        NodeKind::Node => NodeTemplate {
            id: String::from_str("Node"),
            position_x: 50,
            position_y: 50,
            width: 100,
            height: 100,
            background: Fill::Gray,
            text_color: Fill::White,
            has_text: false,
            is_input: false,
            is_image: false,
            initial_text: None,
            image: None,
        },
        NodeKind::Text => NodeTemplate {
            id: String::from_str("Text"),
            position_x: 50,
            position_y: 50,
            width: 0,
            height: 0,
            background: Fill::Transparent,
            text_color: Fill::White,
            has_text: true,
            is_input: false,
            is_image: false,
            initial_text: Some(String::from_str("New Text")),
            image: None,
        },
        NodeKind::Input => NodeTemplate {
            id: String::from_str("Input"),
            position_x: 50,
            position_y: 50,
            width: 150,
            height: 30,
            background: Fill::White,
            text_color: Fill::Black,
            has_text: true,
            is_input: true,
            is_image: false,
            initial_text: Some(String::from_str("")),
            image: None,
        },
        NodeKind::Image => NodeTemplate {
            id: String::from_str("Image"),
            position_x: 50,
            position_y: 50,
            width: 100,
            height: 100,
            background: Fill::Transparent,
            text_color: Fill::White,
            has_text: false,
            is_input: false,
            is_image: true,
            initial_text: None,
            image: None,
        },
    }
}

/// The id of a pasted copy of the node named `id`: the name followed by
/// " Copy".
pub fn pasted_id(id: &str) -> (copy: String)
    ensures
        copy@ == id@ + " Copy"@,
{
    let mut copy = String::from_str(id);
    copy.append(" Copy");
    copy
}

/// The node last copied, as document text.
pub struct CopyPasteBuffer {
    pub CopiedJson: Option<String>,
}

impl Default for CopyPasteBuffer {
    fn default() -> (b: CopyPasteBuffer)
        ensures
            b.CopiedJson is None,
    {
        CopyPasteBuffer { CopiedJson: None }
    }
}


/// A child of a node as the document builder finds it: a node of its own,
/// the text the node shows, or something else.
pub enum ChildContent {
    Node,
    Text(String),
    Other,
}

/// The last text among `children`, if any.
pub open spec fn last_text(children: Seq<ChildContent>) -> Option<Seq<char>>
    decreases children.len(),
{
    if children.len() == 0 {
        None
    } else {
        match children.last() {
            ChildContent::Text(t) => Some(t@),
            _ => last_text(children.drop_last()),
        }
    }
}

/// The text content stored for a node in a document: that of its last text
/// child; child nodes and other children are passed over.
pub fn extracted_text(children: &Vec<ChildContent>) -> (text: Option<String>)
    ensures
        opt_chars(text) == last_text(children@),
{
    let mut text: Option<String> = None;
    let mut i: usize = 0;
    while i < children.len()
        invariant
            i <= children.len(),
            opt_chars(text) == last_text(children@.take(i as int)),
        decreases children.len() - i,
    {
        assert(children@.take(i + 1).drop_last() =~= children@.take(i as int));
        match &children[i] {
            ChildContent::Text(t) => {
                text = Some(t.clone());
            },
            _ => {},
        }
        i = i + 1;
    }
    assert(children@.take(children.len() as int) =~= children@);
    text
}


/// The optional settings of a node as a document stores them; older
/// documents may lack any of them.
pub struct StoredNodeSettings {
    pub font_family: Option<String>,
    pub text_content: Option<String>,
    pub has_shadow: Option<bool>,
    pub is_grid: Option<bool>,
    pub grid_columns: Option<u32>,
    pub grid_rows: Option<u32>,
}

/// The settings of a node restored from a document.
pub struct NodeSettings {
    pub font_family: String,
    pub text_content: String,
    pub has_shadow: bool,
    pub is_grid: bool,
    pub grid_columns: u32,
    pub grid_rows: u32,
}

/// The value stored, else the default.
pub open spec fn or_default<T>(stored: Option<T>, default: T) -> T {
    match stored {
        Some(v) => v,
        None => default,
    }
}

/// Restores a node's settings: a missing font family or text is empty, a
/// missing shadow or grid flag is off, and a missing grid has two columns
/// and two rows.
pub fn restore_settings(stored: StoredNodeSettings) -> (s: NodeSettings)
    ensures
        s.font_family@ == or_default(opt_chars(stored.font_family), Seq::empty()),
        s.text_content@ == or_default(opt_chars(stored.text_content), Seq::empty()),
        s.has_shadow == or_default(stored.has_shadow, false),
        s.is_grid == or_default(stored.is_grid, false),
        s.grid_columns == or_default(stored.grid_columns, 2u32),
        s.grid_rows == or_default(stored.grid_rows, 2u32),
{
    NodeSettings {
        font_family: match stored.font_family {
            Some(f) => f,
            None => String::new(),
        },
        text_content: match stored.text_content {
            Some(t) => t,
            None => String::new(),
        },
        has_shadow: match stored.has_shadow {
            Some(b) => b,
            None => false,
        },
        is_grid: match stored.is_grid {
            Some(b) => b,
            None => false,
        },
        grid_columns: match stored.grid_columns {
            Some(n) => n,
            None => 2,
        },
        grid_rows: match stored.grid_rows {
            Some(n) => n,
            None => 2,
        },
    }
}

} // verus!
