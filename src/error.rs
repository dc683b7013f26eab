use vstd::prelude::*;

verus! {

/// Why a conversion was refused.
#[derive(Debug, Clone, Copy, PartialEq, Eq, Structural)]
pub enum TranscodeError {
    /// The input path does not end in `.wbox`, `.wbax` or `.json`.
    UnsupportedExtension,
    /// The input is not compressed and is not UTF-8 text either.
    InvalidUtf8,
    /// The bytes are not one zlib stream holding UTF-8 text.
    Decompression,
    /// The encoder reported an error; writing into memory, it does not.
    Compression,
}

} // verus!
