use std::io::Read;
use std::io::Write;
use vstd::prelude::*;
use vstd::string::StringSliceAdditionalSpecFns;
use vstd::utf8::*;

use crate::error::TranscodeError;

verus! {

broadcast use {encode_utf8_valid_utf8, encode_utf8_decode_utf8, decode_utf8_encode_utf8};

/// The bytes that a zlib decoder yields from `stream`, when it reads a whole
/// zlib stream without error.
pub uninterp spec fn zlib_inflated(stream: Seq<u8>) -> Option<Seq<u8>>;

/// The zlib stream that the encoder writes for `data` at the default level.
pub uninterp spec fn zlib_deflated(data: Seq<u8>) -> Seq<u8>;

/// The text that `stream` holds: present exactly when it decodes as a whole
/// zlib stream whose content is well-formed UTF-8.
pub open spec fn decompressed_text(stream: Seq<u8>) -> Option<Seq<char>> {
    match zlib_inflated(stream) {
        Some(bytes) => if valid_utf8(bytes) {
            Some(decode_utf8(bytes))
        } else {
            None
        },
        None => None,
    }
}

/// Relies on `flate2::read::ZlibDecoder` read to the end: the decoded bytes
/// of the zlib stream, or an error for a malformed, truncated or corrupt one.
#[verifier::external_body]
fn inflate(stream: &[u8]) -> (r: Option<Vec<u8>>)
    ensures
        match r {
            Some(bytes) => zlib_inflated(stream@) == Some(bytes@),
            None => zlib_inflated(stream@) is None,
        },
{
    let mut decoder = flate2::read::ZlibDecoder::new(stream);
    let mut out = Vec::new();
    match decoder.read_to_end(&mut out) {
        Ok(_) => Some(out),
        Err(_) => None,
    }
}

/// Relies on `flate2::write::ZlibEncoder` at `Compression::default()`: the
/// stream it writes, which a zlib decoder turns back into `data` (the codec
/// is lossless). Writing into a `Vec` does not fail.
#[verifier::external_body]
fn deflate(data: &[u8]) -> (r: Option<Vec<u8>>)
    ensures
        r is Some,
        r matches Some(stream) ==> stream@ == zlib_deflated(data@) && zlib_inflated(stream@)
            == Some(data@),
{
    let mut encoder = flate2::write::ZlibEncoder::new(Vec::new(), flate2::Compression::default());
    match encoder.write_all(data) {
        Ok(()) => encoder.finish().ok(),
        Err(_) => None,
    }
}

/// Relies on `String::from_utf8`: the text when the bytes are well-formed
/// UTF-8, an error otherwise.
#[verifier::external_body]
pub(crate) fn text_from_utf8(bytes: Vec<u8>) -> (r: Option<String>)
    ensures
        r is Some == valid_utf8(bytes@),
        r matches Some(text) ==> text@ == decode_utf8(bytes@),
{
    String::from_utf8(bytes).ok()
}

/// Decides whether `data` is compressed, by trying to decompress it: bytes
/// that fail to decode, or decode to something other than UTF-8, are not.
pub fn is_compressed(data: &[u8]) -> (r: bool)
    ensures
        r == decompressed_text(data@) is Some,
        zlib_inflated(data@) is None ==> !r,
        zlib_inflated(data@) matches Some(bytes) ==> r == valid_utf8(bytes),
{
    decompress(data).is_ok()
}

/// Decompresses a zlib stream holding UTF-8 text.
pub fn decompress(data: &[u8]) -> (r: Result<String, TranscodeError>)
    ensures
        match decompressed_text(data@) {
            Some(text) => r matches Ok(s) && s@ == text,
            None => r == Err::<String, TranscodeError>(TranscodeError::Decompression),
        },
{
    match inflate(data) {
        Some(bytes) => match text_from_utf8(bytes) {
            Some(text) => Ok(text),
            None => Err(TranscodeError::Decompression),
        },
        None => Err(TranscodeError::Decompression),
    }
}

/// Compresses the UTF-8 bytes of `text` at the default level. What comes out
/// decompresses to `text` exactly.
pub fn compress(text: &str) -> (r: Result<Vec<u8>, TranscodeError>)
    ensures
        r matches Ok(stream) && stream@ == zlib_deflated(text.spec_bytes()) && decompressed_text(
            stream@,
        ) == Some(text@),
{
    match deflate(text.as_bytes()) {
        Some(stream) => Ok(stream),
        None => Err(TranscodeError::Compression),
    }
}

} // verus!
