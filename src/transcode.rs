use vstd::prelude::*;
use vstd::slice::slice_to_vec;
use vstd::string::StringSliceAdditionalSpecFns;
use vstd::utf8::*;

use crate::codec::{compress, decompress, decompressed_text, text_from_utf8, zlib_deflated};
use crate::error::TranscodeError;
use crate::json::{format_json, formatted_json};

verus! {

broadcast use {encode_utf8_valid_utf8, encode_utf8_decode_utf8, decode_utf8_encode_utf8};

/// The result of one conversion and what is reported of it.
pub struct Transcoded {
    /// Whether the input was found to be compressed, so was decompressed.
    pub was_compressed: bool,
    /// The size of the input in bytes.
    pub input_size: usize,
    /// The full content of the output file.
    pub output: Vec<u8>,
}

impl Transcoded {
    /// The size of the output in bytes.
    pub fn output_size(&self) -> (r: usize)
        ensures
            r == self.output@.len(),
    {
        self.output.len()
    }
}

/// Converts `data` into the opposite form: a compressed input is decompressed
/// (and pretty-printed when it holds JSON), any other input is read as UTF-8
/// text and compressed. Exactly one of the two is done.
pub fn transcode(data: &[u8]) -> (r: Result<Transcoded, TranscodeError>)
    ensures
        match decompressed_text(data@) {
            Some(text) => r matches Ok(t) && t.was_compressed && t.input_size == data@.len()
                && t.output@ == encode_utf8(formatted_json(text)),
            None => if valid_utf8(data@) {
                r matches Ok(t) && !t.was_compressed && t.input_size == data@.len() && t.output@
                    == zlib_deflated(data@) && decompressed_text(t.output@) == Some(
                    decode_utf8(data@),
                )
            } else {
                r == Err::<Transcoded, TranscodeError>(TranscodeError::InvalidUtf8)
            },
        },
{
    match decompress(data) {
        Ok(text) => {
            let out = format_json(text.as_str());
            Ok(Transcoded { was_compressed: true, input_size: data.len(), output: slice_to_vec(out.as_str().as_bytes()) })
        },
        Err(_) => match text_from_utf8(slice_to_vec(data)) {
            Some(text) => match compress(text.as_str()) {
                Ok(stream) => Ok(Transcoded { was_compressed: false, input_size: data.len(), output: stream }),
                Err(e) => Err(e),
            },
            None => Err(TranscodeError::InvalidUtf8),
        },
    }
}

} // verus!
