//! File-system paths as the library carries them: `std::path::PathBuf`,
//! held as an opaque value and joined through std.

use vstd::prelude::*;

verus! {

/// `std::path::PathBuf`, carried through the library as an opaque value.
#[verifier::external_type_specification]
#[verifier::external_body]
pub struct ExPathBuf(std::path::PathBuf);

/// std's `Clone` for `PathBuf`; nothing is stated of the copy.
pub assume_specification[ <std::path::PathBuf as Clone>::clone ](p: &std::path::PathBuf) -> std::path::PathBuf;

/// The path that `base.join(name)` yields.
pub uninterp spec fn joined_path(base: std::path::PathBuf, name: Seq<char>) -> std::path::PathBuf;

/// std's `Path::join`: `base` with `name` appended as a further component.
/// The contract names the result and ties it to both arguments; what the
/// joined path looks like is left to std.
#[verifier::external_body]
pub(crate) fn join_path(base: &std::path::PathBuf, name: &str) -> (r: std::path::PathBuf)
    ensures
        r == joined_path(*base, name@),
{
    base.join(name)
}

} // verus!
