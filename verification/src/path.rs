//! The one question that the facade asks of the platform's path syntax: which
//! directory holds a path.

use vstd::prelude::*;
use crate::outcome::option_view;

verus! {

/// The directory that holds the path spelled by `path`, if the path has one.
///
/// This is what `std::path::Path::parent` returns, read as text. It is named
/// and not defined: which characters separate the parts of a path, and what
/// counts as a root, is the syntax of the platform that the program is built
/// for. That syntax is fixed with the program, and the function reads nothing
/// but the text, so one text has one parent wherever the program runs.
pub uninterp spec fn parent_text(path: Seq<char>) -> Option<Seq<char>>;

/// The directory that holds `path`, by `std::path::Path::parent` on the path
/// that `path` spells, written back as text.
///
/// Trusted, not proved. The contract claims that the result is
/// [`parent_text`] of the path, and of that name the two things that hold
/// under every path syntax: the empty path has no parent, and a parent is the
/// path without its last part, so it is shorter than the path and the path
/// begins with it.
#[verifier::external_body]
pub(crate) fn parent_of(path: &str) -> (parent: Option<String>)
    ensures
        option_view(parent) == parent_text(path@),
        path@.len() == 0 ==> parent is None,
        parent matches Some(dir) ==> dir@.len() < path@.len() && dir@ == path@.subrange(
            0,
            dir@.len() as int,
        ),
{
    match std::path::Path::new(path).parent() {
        Some(dir) => Some(dir.to_string_lossy().into_owned()),
        None => None,
    }
}

} // verus!
