//! What `std::path::Path` reads in a path: its extension, and whether two
//! paths name the same place.

use vstd::prelude::*;

verus! {

/// What `std::path::Path::extension` returns for a path: the part of the
/// file name after its final dot, if there is one.
pub uninterp spec fn path_extension_of(path: Seq<char>) -> Option<Seq<char>>;

/// A bare file name: not empty, not beginning with a dot, and holding no
/// `/`, `\\` or `:`, so that no platform reads a directory or a prefix in it.
pub open spec fn is_plain_file_name(p: Seq<char>) -> bool {
    &&& p.len() > 0
    &&& p[0] != '.'
    &&& !p.contains('/')
    &&& !p.contains('\\')
    &&& !p.contains(':')
}

/// The text after the last dot of `p`, or `None` when it has no dot.
pub open spec fn after_last_dot(p: Seq<char>) -> Option<Seq<char>>
    decreases p.len(),
{
    if p.len() == 0 {
        None
    } else if p.last() == '.' {
        Some(Seq::empty())
    } else {
        match after_last_dot(p.drop_last()) {
            Some(e) => Some(e.push(p.last())),
            None => None,
        }
    }
}

/// The characters of an optional string.
pub open spec fn optional_text(o: Option<String>) -> Option<Seq<char>> {
    match o {
        Some(s) => Some(s@),
        None => None,
    }
}

/// Calls `Path::extension` on the path and turns the result back into a
/// `String`. The contract claims that the result is the extension of exactly
/// the given characters and, as `Path::extension` documents, that the
/// extension of a bare file name that does not begin with a dot is the text
/// after its final dot, or none without a dot. What it is for other paths
/// stays with std.
#[verifier::external_body]
pub(crate) fn path_extension(path: &str) -> (r: Option<String>)
    ensures
        optional_text(r) == path_extension_of(path@),
        is_plain_file_name(path@) ==> optional_text(r) == after_last_dot(path@),
{
    let ext = std::path::Path::new(path).extension()?;
    ext.to_str().map(String::from)
}

/// Whether `std::path::Path` compares the two paths as equal (it compares
/// them component by component).
pub uninterp spec fn same_path(a: Seq<char>, b: Seq<char>) -> bool;

/// Compares `Path::new(a) == Path::new(b)`. The contract claims that the
/// answer depends on the characters alone (`same_path`) and that a path is
/// equal to itself, as `Path` is `Eq`; which other paths compare equal
/// stays with std.
#[verifier::external_body]
pub(crate) fn paths_equal(a: &str, b: &str) -> (r: bool)
    ensures
        r == same_path(a@, b@),
        a@ == b@ ==> r,
{
    std::path::Path::new(a) == std::path::Path::new(b)
}

} // verus!
