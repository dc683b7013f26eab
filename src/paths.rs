use vstd::prelude::*;
use vstd::string::StrSliceExecFns;

use crate::error::TranscodeError;

verus! {

/// The extension that `std::path::Path` finds in `path`: what follows the
/// last dot of the file name.
pub uninterp spec fn path_extension(path: Seq<char>) -> Option<Seq<char>>;

/// The file name of `path` without its extension, as `std::path::Path` finds it.
pub uninterp spec fn path_stem(path: Seq<char>) -> Option<Seq<char>>;

/// The characters of an optional string.
pub open spec fn chars_of(s: Option<String>) -> Option<Seq<char>> {
    match s {
        Some(t) => Some(t@),
        None => None,
    }
}

/// Relies on `std::path::Path::extension`.
#[verifier::external_body]
fn extension_of(path: &str) -> (r: Option<String>)
    ensures
        chars_of(r) == path_extension(path@),
{
    match std::path::Path::new(path).extension() {
        Some(e) => match e.to_str() {
            Some(s) => Some(s.to_string()),
            None => None,
        },
        None => None,
    }
}

/// Relies on `std::path::Path::file_stem`.
#[verifier::external_body]
fn stem_of(path: &str) -> (r: Option<String>)
    ensures
        chars_of(r) == path_stem(path@),
{
    match std::path::Path::new(path).file_stem() {
        Some(e) => match e.to_str() {
            Some(s) => Some(s.to_string()),
            None => None,
        },
        None => None,
    }
}

/// `s` spells the lower-case ASCII `word`, ignoring the case of ASCII letters.
pub open spec fn spells_ignoring_case(s: Seq<char>, word: Seq<char>) -> bool {
    s.len() == word.len() && forall|i: int|
        0 <= i < s.len() ==> s[i] == word[i] || ('A' <= s[i] <= 'Z' && s[i] as u32 + 32
            == word[i] as u32)
}

/// The extensions accepted for input: `wbox`, `wbax` and `json`, in any case.
pub open spec fn supported_extension(ext: Seq<char>) -> bool {
    spells_ignoring_case(ext, "wbox"@) || spells_ignoring_case(ext, "wbax"@)
        || spells_ignoring_case(ext, "json"@)
}

/// An input path is accepted when it has a supported extension.
pub open spec fn input_path_accepted(path: Seq<char>) -> bool {
    match path_extension(path) {
        Some(ext) => supported_extension(ext),
        None => false,
    }
}

/// The extension suggested for the output.
pub open spec fn output_extension(was_compressed: bool) -> Seq<char> {
    if was_compressed {
        "json"@
    } else {
        "wbox"@
    }
}

fn spells(s: &str, word: &str) -> (r: bool)
    ensures
        r == spells_ignoring_case(s@, word@),
{
    let n = s.unicode_len();
    if n != word.unicode_len() {
        return false;
    }
    let mut i: usize = 0;
    while i < n
        invariant
            n == s@.len(),
            n == word@.len(),
            i <= n,
            forall|j: int|
                0 <= j < i ==> s@[j] == word@[j] || ('A' <= s@[j] <= 'Z' && s@[j] as u32 + 32
                    == word@[j] as u32),
        decreases n - i,
    {
        let c = s.get_char(i);
        let w = word.get_char(i);
        if !(c == w || ('A' <= c && c <= 'Z' && (c as u32) + 32 == w as u32)) {
            return false;
        }
        i = i + 1;
    }
    true
}

/// Whether `ext` is one of the accepted input extensions.
pub fn is_supported_extension(ext: &str) -> (r: bool)
    ensures
        r == supported_extension(ext@),
{
    spells(ext, "wbox") || spells(ext, "wbax") || spells(ext, "json")
}

/// Refuses an input path whose extension is not supported; nothing is read.
pub fn check_input_path(path: &str) -> (r: Result<(), TranscodeError>)
    ensures
        r is Ok == input_path_accepted(path@),
        r matches Err(e) ==> e == TranscodeError::UnsupportedExtension,
{
    match extension_of(path) {
        Some(ext) => if is_supported_extension(ext.as_str()) {
            Ok(())
        } else {
            Err(TranscodeError::UnsupportedExtension)
        },
        None => Err(TranscodeError::UnsupportedExtension),
    }
}

/// A path whose extension is `txt` is refused.
pub proof fn lemma_txt_path_refused(path: Seq<char>)
    requires
        path_extension(path) == Some("txt"@),
    ensures
        !input_path_accepted(path),
{
    reveal_strlit("txt");
    reveal_strlit("wbox");
    reveal_strlit("wbax");
    reveal_strlit("json");
}

/// The extension suggested for the output: `json` after decompressing,
/// `wbox` after compressing.
pub fn suggested_extension(was_compressed: bool) -> (r: &'static str)
    ensures
        r@ == output_extension(was_compressed),
{
    if was_compressed {
        "json"
    } else {
        "wbox"
    }
}

/// `stem`, a dot, and the suggested extension.
pub fn output_file_name(stem: &str, was_compressed: bool) -> (r: String)
    ensures
        r@ == stem@ + "."@ + output_extension(was_compressed),
{
    let mut name = stem.to_owned();
    name.append(".");
    name.append(suggested_extension(was_compressed));
    name
}

/// The name suggested for the output of `path`: its stem with the suggested
/// extension, or nothing where the path has no file name.
pub fn suggested_file_name(path: &str, was_compressed: bool) -> (r: Option<String>)
    ensures
        match path_stem(path@) {
            Some(stem) => r matches Some(name) && name@ == stem + "."@ + output_extension(
                was_compressed,
            ),
            None => r is None,
        },
{
    match stem_of(path) {
        Some(stem) => Some(output_file_name(stem.as_str(), was_compressed)),
        None => None,
    }
}

} // verus!
