use vuis::document::{decode_document, encode_document};

#[test]
fn document_round_trip() {
    let json = "{\"Version\":\"1.0\",\"Root\":{\"Id\":\"RootCanvas\"}}";
    let file = encode_document(json);
    assert_ne!(file.as_slice(), json.as_bytes());
    assert_eq!(&file[..2], &[0x1f, 0x8b]);
    assert_eq!(decode_document(&file), Some(json.to_string()));
}

#[test]
fn document_round_trip_unicode_and_empty() {
    for text in ["", "héllo → wörld", "[1,2,3]"] {
        let file = encode_document(text);
        assert_eq!(decode_document(&file).as_deref(), Some(text));
    }
}

#[test]
fn decode_rejects_non_gzip() {
    assert_eq!(decode_document(b"{\"Version\":\"1.0\"}"), None);
    assert_eq!(decode_document(&[]), None);
}
