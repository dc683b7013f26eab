//! Conversion between zlib-compressed containers and their readable text.
//!
//! The compression state of an input is not marked in its bytes: it is found
//! by trying to decompress it. Whatever decodes as a whole zlib stream holding
//! UTF-8 text is taken as compressed and is decompressed (and pretty-printed
//! when it is JSON); anything else is taken as text and is compressed.
pub mod codec;
pub mod error;
pub mod json;
pub mod paths;
pub mod transcode;

pub use codec::{compress, decompress, is_compressed};
pub use error::TranscodeError;
pub use json::{format_json, format_json_with};
pub use paths::{
    check_input_path, is_supported_extension, output_file_name, suggested_extension,
    suggested_file_name,
};
pub use transcode::{transcode, Transcoded};
