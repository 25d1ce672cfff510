use vuis::nodes::{
    extracted_text, restore_settings, ChildContent, StoredNodeSettings, blank_image, creation_template, pasted_id, toolbar_template, CopyPasteBuffer, CreationButton,
    Fill, NodeKind,
};

#[test]
fn pasted_copy_is_named_after_source() {
    assert_eq!(pasted_id("Node"), "Node Copy");
    assert_eq!(pasted_id(""), " Copy");
    assert_eq!(pasted_id("Node Copy"), "Node Copy Copy");
}

#[test]
fn creation_buttons() {
    let t = creation_template(CreationButton::SpawnText);
    assert_eq!(t.id, "Text");
    assert_eq!((t.width, t.height), (0, 0));
    assert_eq!(t.initial_text.as_deref(), Some("New Text"));
    assert!(!t.is_image);
    let i = creation_template(CreationButton::SpawnImage);
    assert_eq!(i.id, "Image");
    assert!(i.is_image);
    assert_eq!(i.background, Fill::Transparent);
    assert_eq!(i.image.unwrap().pixels, vec![255, 255, 255, 255]);
    let n = creation_template(CreationButton::SpawnNode);
    assert_eq!((n.id.as_str(), n.width, n.height, n.background), ("Node", 100, 100, Fill::Gray));
    assert!(n.image.is_none() && n.initial_text.is_none());
    assert_eq!((n.position_x, n.position_y), (100, 100));
}

#[test]
fn toolbar_buttons() {
    let input = toolbar_template(NodeKind::Input);
    assert_eq!(input.id, "Input");
    assert_eq!((input.width, input.height), (150, 30));
    assert!(input.has_text && input.is_input && !input.is_image);
    assert_eq!((input.background, input.text_color), (Fill::White, Fill::Black));
    assert_eq!(input.initial_text.as_deref(), Some(""));
    assert_eq!((input.position_x, input.position_y), (50, 50));
    let text = toolbar_template(NodeKind::Text);
    assert_eq!((text.width, text.height, text.background), (0, 0, Fill::Transparent));
    assert!(text.has_text && !text.is_input);
    let img = toolbar_template(NodeKind::Image);
    assert!(img.is_image && !img.has_text && img.image.is_none());
}

#[test]
fn blank_image_is_one_white_pixel() {
    let b = blank_image();
    assert_eq!((b.width, b.height, b.pixels), (1, 1, vec![255, 255, 255, 255]));
}

#[test]
fn clipboard_starts_empty() {
    assert!(CopyPasteBuffer::default().CopiedJson.is_none());
}

#[test]
fn extracted_text_is_last_text_child() {
    assert_eq!(extracted_text(&vec![]), None);
    assert_eq!(extracted_text(&vec![ChildContent::Node, ChildContent::Other]), None);
    let children = vec![
        ChildContent::Text("first".to_string()),
        ChildContent::Node,
        ChildContent::Text("second".to_string()),
        ChildContent::Other,
    ];
    assert_eq!(extracted_text(&children), Some("second".to_string()));
}

#[test]
fn missing_settings_take_defaults() {
    let s = restore_settings(StoredNodeSettings {
        font_family: None,
        text_content: None,
        has_shadow: None,
        is_grid: None,
        grid_columns: None,
        grid_rows: None,
    });
    assert_eq!((s.font_family.as_str(), s.text_content.as_str()), ("", ""));
    assert_eq!((s.has_shadow, s.is_grid, s.grid_columns, s.grid_rows), (false, false, 2, 2));
    let t = restore_settings(StoredNodeSettings {
        font_family: Some("Mono".to_string()),
        text_content: Some("hi".to_string()),
        has_shadow: Some(true),
        is_grid: Some(true),
        grid_columns: Some(0),
        grid_rows: Some(5),
    });
    assert_eq!((t.font_family.as_str(), t.text_content.as_str()), ("Mono", "hi"));
    assert_eq!((t.has_shadow, t.is_grid, t.grid_columns, t.grid_rows), (true, true, 0, 5));
}
