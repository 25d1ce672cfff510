use vuis::assets::{
    accept_font_file, decode_embedded_font, decode_embedded_image, encode_embedded,
    load_image_from_bytes,
};

fn png_bytes(w: u32, h: u32) -> Vec<u8> {
    let img = image::RgbaImage::from_fn(w, h, |x, y| image::Rgba([x as u8, y as u8, 7, 255]));
    let mut out = std::io::Cursor::new(Vec::new());
    img.write_to(&mut out, image::ImageFormat::Png).unwrap();
    out.into_inner()
}

fn minimal_font() -> Vec<u8> {
    let mut f = vec![0u8; 156];
    f[0..4].copy_from_slice(&[0, 1, 0, 0]);
    f[4..6].copy_from_slice(&3u16.to_be_bytes());
    let tables: [(&[u8; 4], u32, u32); 3] = [(b"head", 60, 54), (b"hhea", 114, 36), (b"maxp", 150, 6)];
    for (i, (tag, off, len)) in tables.iter().enumerate() {
        let r = 12 + 16 * i;
        f[r..r + 4].copy_from_slice(*tag);
        f[r + 8..r + 12].copy_from_slice(&off.to_be_bytes());
        f[r + 12..r + 16].copy_from_slice(&len.to_be_bytes());
    }
    f[60 + 18..60 + 20].copy_from_slice(&1000u16.to_be_bytes());
    f[150..154].copy_from_slice(&0x5000u32.to_be_bytes());
    f[154..156].copy_from_slice(&1u16.to_be_bytes());
    f
}

#[test]
fn embedded_data_is_standard_base64() {
    assert_eq!(encode_embedded(&Some(b"hello".to_vec())), Some("aGVsbG8=".to_string()));
    assert_eq!(encode_embedded(&Some(Vec::new())), Some(String::new()));
    assert_eq!(encode_embedded(&None), None);
}

#[test]
fn embedded_font_round_trip() {
    let data = vec![0u8, 1, 2, 250, 255, 128];
    let text = encode_embedded(&Some(data.clone())).unwrap();
    assert_eq!(decode_embedded_font(&text), Some(data));
    assert_eq!(decode_embedded_font("aGVsbG8="), Some(b"hello".to_vec()));
    assert_eq!(decode_embedded_font("not base64!"), None);
}

#[test]
fn load_png_image() {
    let img = load_image_from_bytes(&png_bytes(3, 2)).expect("decodes");
    assert_eq!((img.width, img.height), (3, 2));
    assert_eq!(img.pixels.len(), 24);
    assert_eq!(&img.pixels[0..4], &[0, 0, 7, 255]);
    assert_eq!(&img.pixels[4 * 5..4 * 6], &[2, 1, 7, 255]);
}

#[test]
fn load_garbage_image_fails() {
    assert!(load_image_from_bytes(b"definitely not an image").is_none());
    assert!(load_image_from_bytes(&[]).is_none());
}

#[test]
fn embedded_image_round_trip() {
    let file = png_bytes(2, 2);
    let text = encode_embedded(&Some(file.clone())).unwrap();
    let (raw, img) = decode_embedded_image(&text).expect("image");
    assert_eq!(raw, file);
    assert_eq!((img.width, img.height, img.pixels.len()), (2, 2, 16));
}

#[test]
fn embedded_image_rejects_bad_data() {
    assert!(decode_embedded_image("%%%").is_none());
    let text = encode_embedded(&Some(b"plain text".to_vec())).unwrap();
    assert!(decode_embedded_image(&text).is_none());
}

#[test]
fn font_files_are_validated() {
    let font = minimal_font();
    assert_eq!(accept_font_file(font.clone()), Some(font));
    assert_eq!(accept_font_file(b"not a font at all".to_vec()), None);
    assert_eq!(accept_font_file(Vec::new()), None);
}
