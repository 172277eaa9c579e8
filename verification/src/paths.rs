//! What the browser asks of a path's text. Paths are held as text; their
//! parsing is left to `std::path`, which knows the platform's rules.

use vstd::prelude::*;
use crate::text::text_of;

verus! {

/// `part` occurs in `whole` as one contiguous piece.
pub open spec fn is_part_of(part: Seq<char>, whole: Seq<char>) -> bool {
    exists|start: int|
        0 <= start && start + part.len() <= whole.len() && #[trigger] whole.subrange(
            start,
            start + part.len(),
        ) == part
}

/// `prefix` is a beginning of `whole` and shorter than it.
pub open spec fn is_proper_prefix_of(prefix: Seq<char>, whole: Seq<char>) -> bool {
    prefix.len() < whole.len() && whole.subrange(0, prefix.len() as int) == prefix
}

/// The directory that holds a path: the path without its final component,
/// or nothing where the path ends in a root or is empty.
pub uninterp spec fn parent_named(path: Seq<char>) -> Option<Seq<char>>;

/// The final component of a path, or nothing where the path ends in `..` or
/// in a root.
pub uninterp spec fn file_name_named(path: Seq<char>) -> Option<Seq<char>>;

/// The name under which the file at `path` goes: its final component, and
/// the empty name where it has none.
pub open spec fn final_name(path: Seq<char>) -> Seq<char> {
    match file_name_named(path) {
        Some(name) => name,
        None => Seq::empty(),
    }
}

/// The directory that holds `path`, as `std::path::Path::parent` gives it.
/// Believed of it: the outcome depends on the path alone, and what comes
/// back is a beginning of `path` and shorter than it.
#[verifier::external_body]
pub(crate) fn parent_of(path: &str) -> (parent: Option<String>)
    ensures
        text_of(parent) == parent_named(path@),
        parent matches Some(p) ==> is_proper_prefix_of(p@, path@),
{
    std::path::Path::new(path).parent().map(|p| p.to_string_lossy().into_owned())
}

/// The final component of `path`, as `std::path::Path::file_name` gives it.
/// Believed of it: the outcome depends on the path alone, and what comes
/// back is a piece of `path`.
#[verifier::external_body]
pub(crate) fn file_name_of(path: &str) -> (name: Option<String>)
    ensures
        text_of(name) == file_name_named(path@),
        name matches Some(n) ==> is_part_of(n@, path@),
{
    std::path::Path::new(path).file_name().map(|n| n.to_string_lossy().into_owned())
}

} // verus!
