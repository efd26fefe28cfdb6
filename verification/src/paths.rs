//! File-system paths as the standard library builds them.

use std::path::{Path, PathBuf};
use vstd::prelude::*;

verus! {

/// `std::path::Path`, a borrowed file-system path; nothing is known of
/// what it holds.
#[verifier::external_type_specification]
#[verifier::external_body]
pub struct ExPath(Path);

/// `std::path::PathBuf`, an owned file-system path; nothing is known of
/// what it holds.
#[verifier::external_type_specification]
#[verifier::external_body]
pub struct ExPathBuf(PathBuf);

/// The path that `Path::join` makes of `base` and `name`.
pub uninterp spec fn path_joined(base: &Path, name: Seq<char>) -> PathBuf;

/// The path that a path buffer holds.
pub uninterp spec fn path_of(buffer: &PathBuf) -> &Path;

/// Calls `Path::join` of the standard library, which adjoins `name` to
/// `base`; the contract gives the result its name and claims nothing else
/// of it.
#[verifier::external_body]
pub(crate) fn join(base: &Path, name: &str) -> (path: PathBuf)
    ensures
        path == path_joined(base, name@),
{
    base.join(name)
}

/// `PathBuf::as_path` of the standard library borrows the path that the
/// buffer holds; the contract gives that path its name.
pub assume_specification[ PathBuf::as_path ](buffer: &PathBuf) -> (path: &Path)
    ensures
        path == path_of(buffer),
;

} // verus!
