//! Which paths the interface accepts as images.

use vstd::prelude::*;
use crate::pathname::{after_last_dot, is_plain_file_name, path_extension, path_extension_of};
use crate::text::{
    ascii_lower, has_char, is_ascii_text, is_capitalisation_of, lemma_capitalisation_lowers, lowercase,
    same_text, to_lowercase,
};

verus! {

/// Image file extensions the interface accepts (compared in lower case).
pub open spec fn supported_extension(ext: Seq<char>) -> bool {
    ext == "jpg"@ || ext == "jpeg"@ || ext == "png"@ || ext == "tif"@ || ext == "tiff"@
}

/// A path names a supported image when its extension, in lower case, is one of the accepted ones.
pub open spec fn supported_image_path(path: Seq<char>) -> bool {
    match path_extension_of(path) {
        Some(e) => supported_extension(lowercase(e)),
        None => false,
    }
}

/// Law: an extension written as any capitalisation of an accepted one
/// ("JPG", "Tiff") is ASCII and counts as accepted once its letters are
/// lowered, so a bare file name ending in it ("x.JPG") is accepted.
pub proof fn lemma_capitalised_extensions_accepted(e: Seq<char>)
    requires
        is_capitalisation_of(e, "jpg"@) || is_capitalisation_of(e, "jpeg"@) || is_capitalisation_of(e, "png"@)
            || is_capitalisation_of(e, "tif"@) || is_capitalisation_of(e, "tiff"@),
    ensures
        is_ascii_text(e),
        supported_extension(ascii_lower(e)),
{
    if is_capitalisation_of(e, "jpg"@) {
        lemma_capitalisation_lowers(e, "jpg"@);
    } else if is_capitalisation_of(e, "jpeg"@) {
        lemma_capitalisation_lowers(e, "jpeg"@);
    } else if is_capitalisation_of(e, "png"@) {
        lemma_capitalisation_lowers(e, "png"@);
    } else if is_capitalisation_of(e, "tif"@) {
        lemma_capitalisation_lowers(e, "tif"@);
    } else {
        lemma_capitalisation_lowers(e, "tiff"@);
    }
}

/// Whether a lower-case extension is one the interface accepts.
pub fn is_supported_extension(ext: &str) -> (r: bool)
    ensures
        r == supported_extension(ext@),
{
    same_text(ext, "jpg") || same_text(ext, "jpeg") || same_text(ext, "png") || same_text(ext, "tif")
        || same_text(ext, "tiff")
}

/// Whether a path names an image file the interface accepts, judged by its
/// extension in any case. For a bare file name with an ASCII extension this
/// is whether the extension, its letters lowered, is one of the accepted ones.
pub fn is_supported_image_path(path: &str) -> (r: bool)
    ensures
        r == supported_image_path(path@),
        is_plain_file_name(path@) ==> match after_last_dot(path@) {
            Some(e) => is_ascii_text(e) ==> r == supported_extension(ascii_lower(e)),
            None => !r,
        },
{
    match path_extension(path) {
        Some(ext) => {
            let lower = to_lowercase(ext.as_str());
            is_supported_extension(lower.as_str())
        },
        None => false,
    }
}

/// Whether typed input is a wildcard pattern: it holds a `*` or a `?`.
pub fn is_wildcard_pattern(input: &str) -> (r: bool)
    ensures
        r == (input@.contains('*') || input@.contains('?')),
{
    has_char(input, '*') || has_char(input, '?')
}

/// A path offered to the interface, with whether it names an existing regular file.
pub struct PathCandidate {
    pub path: String,
    pub is_file: bool,
}

} // verus!
