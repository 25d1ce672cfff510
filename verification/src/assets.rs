//! Images and fonts embedded in a document as Base64 text.
use base64::Engine;
use base64::prelude::BASE64_STANDARD;
use vstd::prelude::*;
use crate::document::opt_bytes;

verus! {

/// The standard (padded) Base64 encoding of `data` as `base64` writes it.
pub uninterp spec fn base64_encoding(data: Seq<u8>) -> Seq<char>;

/// The bytes that `base64`'s standard engine decodes from `text`, or `None`
/// where `text` is no valid standard Base64.
pub uninterp spec fn base64_decoding(text: Seq<char>) -> Option<Seq<u8>>;

/// What `image` decodes from `bytes` (format guessed from the bytes),
/// converted to 8-bit RGBA: width, height and the raw pixel bytes.
pub uninterp spec fn rgba8_decoding(bytes: Seq<u8>) -> Option<(u32, u32, Seq<u8>)>;

/// Whether `ttf_parser` parses face `index` of the font file `data`.
pub uninterp spec fn ttf_face_parses(data: Seq<u8>, index: u32) -> bool;

/// Calls `BASE64_STANDARD.encode` of the `base64` crate. Trusted: the
/// result is the one named by `base64_encoding`, and the same engine decodes
/// it back to `data`. The crate panics only where the encoded length
/// overflows `usize`, which no slice of at most `isize::MAX` bytes reaches.
#[verifier::external_body]
fn base64_encode(data: &[u8]) -> (text: String)
    requires
        data@.len() <= isize::MAX,
    ensures
        text@ == base64_encoding(data@),
        base64_decoding(text@) == Some(data@),
{
    BASE64_STANDARD.encode(data)
}

/// Calls `BASE64_STANDARD.decode` of the `base64` crate. Trusted: the
/// result is the one named by `base64_decoding`.
#[verifier::external_body]
fn base64_decode(text: &str) -> (data: Option<Vec<u8>>)
    ensures
        opt_bytes(data) == base64_decoding(text@),
{
    BASE64_STANDARD.decode(text).ok()
}

/// Calls `image::load_from_memory`, then `to_rgba8`, `width`, `height` and
/// `into_raw`. Trusted: the result is the one named by `rgba8_decoding`,
/// and the pixel buffer holds exactly four bytes for each pixel: decoders
/// fill a buffer of `total_bytes()` and `to_rgba8` converts pixel by pixel.
#[verifier::external_body]
fn decode_rgba8(bytes: &[u8]) -> (res: Option<(u32, u32, Vec<u8>)>)
    ensures
        match res {
            Some((w, h, pixels)) => rgba8_decoding(bytes@) == Some((w, h, pixels@)) && pixels@.len()
                == 4 * w * h,
            None => rgba8_decoding(bytes@) is None,
        },
{
    match image::load_from_memory(bytes) {
        Ok(dyn_img) => {
            let rgba = dyn_img.to_rgba8();
            let (w, h) = (rgba.width(), rgba.height());
            Some((w, h, rgba.into_raw()))
        },
        Err(_) => None,
    }
}

/// Calls `ttf_parser::Face::parse(data, index)` and tells whether it
/// succeeded. Trusted: the result is the one named by `ttf_face_parses`.
#[verifier::external_body]
fn parses_as_font_face(data: &[u8], index: u32) -> (ok: bool)
    ensures
        ok == ttf_face_parses(data@, index),
{
    ttf_parser::Face::parse(data, index).is_ok()
}

/// A decoded image: its size and its 8-bit RGBA pixels, row by row.
pub struct DecodedImage {
    pub width: u32,
    pub height: u32,
    pub pixels: Vec<u8>,
}

impl DecodedImage {
    /// The pixel buffer holds four bytes for every pixel.
    pub open spec fn wf(&self) -> bool {
        self.pixels@.len() == 4 * self.width * self.height
    }
}

/// Decodes an image file (PNG or JPEG) into RGBA pixels, or `None` where
/// the bytes hold no image that can be decoded.
pub fn load_image_from_bytes(bytes: &[u8]) -> (img: Option<DecodedImage>)
    ensures
        match img {
            Some(i) => rgba8_decoding(bytes@) == Some((i.width, i.height, i.pixels@)) && i.wf(),
            None => rgba8_decoding(bytes@) is None,
        },
{
    match decode_rgba8(bytes) {
        Some((width, height, pixels)) => Some(DecodedImage { width, height, pixels }),
        None => None,
    }
}

/// The Base64 text under which a node's image or font data is stored in a
/// document, `None` where the node has none. Decoding the text gives the
/// data back.
pub fn encode_embedded(data: &Option<Vec<u8>>) -> (text: Option<String>)
    requires
        data matches Some(d) ==> d@.len() <= isize::MAX,
    ensures
        data is None ==> text is None,
        data matches Some(d) ==> (text matches Some(t) && t@ == base64_encoding(d@)),
        data matches Some(d) ==> (text matches Some(t) && base64_decoding(t@) == Some(d@)),
{
    match data {
        Some(d) => Some(base64_encode(d.as_slice())),
        None => None,
    }
}

/// The image stored under Base64 text in a document: the raw image file and
/// its decoded pixels. `None` where the text is no Base64 or the file no
/// image; the node is then shown without an image.
pub fn decode_embedded_image(text: &str) -> (res: Option<(Vec<u8>, DecodedImage)>)
    ensures
        res is Some <==> (base64_decoding(text@) matches Some(file) && rgba8_decoding(file) is Some),
        res matches Some((file, img)) ==> (base64_decoding(text@) == Some(file@) && rgba8_decoding(
            file@,
        ) == Some((img.width, img.height, img.pixels@)) && img.wf()),
{
    match base64_decode(text) {
        Some(file) => match load_image_from_bytes(file.as_slice()) {
            Some(img) => Some((file, img)),
            None => None,
        },
        None => None,
    }
}

/// The font file stored under Base64 text in a document, `None` where the
/// text is no Base64.
pub fn decode_embedded_font(text: &str) -> (font: Option<Vec<u8>>)
    ensures
        opt_bytes(font) == base64_decoding(text@),
{
    base64_decode(text)
}

/// A font file picked by the user is kept only where its first face parses.
pub fn accept_font_file(data: Vec<u8>) -> (font: Option<Vec<u8>>)
    ensures
        font is Some <==> ttf_face_parses(data@, 0),
        font matches Some(f) ==> f@ == data@,
{
    if parses_as_font_face(data.as_slice(), 0) {
        Some(data)
    } else {
        None
    }
}

} // verus!
