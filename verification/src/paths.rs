//! Filesystem paths, carried through the library as `std::path::PathBuf`.

use vstd::prelude::*;
use std::path::PathBuf;

verus! {

#[verifier::external_type_specification]
#[verifier::external_body]
pub struct ExPathBuf(std::path::PathBuf);

/// The path that `PathBuf::from` makes of a string with these characters.
pub uninterp spec fn path_from_text(text: Seq<char>) -> PathBuf;

/// The path that `PathBuf::join` makes of `base` with the component `part`.
pub uninterp spec fn joined_path(base: PathBuf, part: Seq<char>) -> PathBuf;

/// Calls `PathBuf::from` on a string. The path is a function of the
/// string's characters alone: the same text always gives the same path.
#[verifier::external_body]
pub(crate) fn path_from(text: &String) -> (p: PathBuf)
    ensures
        p == path_from_text(text@),
{
    PathBuf::from(text)
}

/// Calls `Path::join`, which appends `part` to `base` as a path component.
/// The result is a function of `base` and the characters of `part` alone.
#[verifier::external_body]
pub(crate) fn join(base: &PathBuf, part: &str) -> (p: PathBuf)
    ensures
        p == joined_path(*base, part@),
{
    base.join(part)
}

/// Calls `PathBuf::clone`, which copies the path; the copy is the same path.
#[verifier::external_body]
pub(crate) fn clone_path(p: &PathBuf) -> (r: PathBuf)
    ensures
        r == *p,
{
    p.clone()
}

} // verus!
