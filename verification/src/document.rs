//! The `.vuis` file format: the JSON text of a canvas, gzip-compressed.
use std::io::Read;
use std::io::Write;
use flate2::Compression;
use flate2::read::GzDecoder;
use flate2::write::GzEncoder;
use vstd::prelude::*;

verus! {

/// The gzip stream that `flate2` produces for the UTF-8 bytes of a text at
/// the default compression level.
pub uninterp spec fn gzip_of_text(text: Seq<char>) -> Seq<u8>;

/// The text that `flate2` reads back from a gzip stream, where the stream is
/// well formed and holds UTF-8.
pub uninterp spec fn text_of_gzip(bytes: Seq<u8>) -> Option<Seq<char>>;

/// The contents of an optional byte vector.
pub open spec fn opt_bytes(o: Option<Vec<u8>>) -> Option<Seq<u8>> {
    match o {
        Some(v) => Some(v@),
        None => None,
    }
}

/// The contents of an optional string.
pub open spec fn opt_chars(o: Option<String>) -> Option<Seq<char>> {
    match o {
        Some(s) => Some(s@),
        None => None,
    }
}

/// Compresses the UTF-8 bytes of `text` with `flate2::write::GzEncoder` at
/// `Compression::default()` into a `Vec`. Trusted: the result is the one
/// named by `gzip_of_text`, and `flate2`'s gzip decoder reads `text` back
/// from it (gzip is lossless). Writing into a `Vec` never fails, and the
/// `miniz_oxide` deflater reports no error for a stream driven this way,
/// so `write_all` and `finish` always succeed here.
#[verifier::external_body]
fn gzip_text(text: &str) -> (res: Vec<u8>)
    ensures
        res@ == gzip_of_text(text@),
        text_of_gzip(res@) == Some(text@),
{
    let mut encoder = GzEncoder::new(Vec::new(), Compression::default());
    encoder.write_all(text.as_bytes()).expect("compressing into a Vec cannot fail");
    encoder.finish().expect("compressing into a Vec cannot fail")
}

/// Decompresses `bytes` with `flate2::read::GzDecoder` and reads the result
/// as UTF-8 with `read_to_string`. Trusted: the result is the one named by
/// `text_of_gzip`.
#[verifier::external_body]
fn gunzip_text(bytes: &[u8]) -> (res: Option<String>)
    ensures
        opt_chars(res) == text_of_gzip(bytes@),
{
    let mut decoder = GzDecoder::new(bytes);
    let mut text = String::new();
    match decoder.read_to_string(&mut text) {
        Ok(_) => Some(text),
        Err(_) => None,
    }
}

/// The bytes of a `.vuis` file that holds the canvas document `json`.
/// Reading such a file back gives `json` again.
pub fn encode_document(json: &str) -> (file: Vec<u8>)
    ensures
        file@ == gzip_of_text(json@),
        text_of_gzip(file@) == Some(json@),
{
    gzip_text(json)
}

/// The canvas document held by the bytes of a `.vuis` file, or `None`
/// where they are no gzip stream of UTF-8 text.
pub fn decode_document(file: &[u8]) -> (json: Option<String>)
    ensures
        opt_chars(json) == text_of_gzip(file@),
{
    gunzip_text(file)
}

} // verus!
