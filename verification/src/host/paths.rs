//! The std path and I/O types the host carries through its logic.
//!
//! Paths are opaque here: the host decides on names and relations it can
//! state as characters, and only joins them onto directories it was given.
use std::path::{Path, PathBuf};

use vstd::prelude::*;

verus! {

#[verifier::external_type_specification]
#[verifier::external_body]
pub struct ExPathBuf(PathBuf);

#[verifier::external_type_specification]
#[verifier::external_body]
pub struct ExPath(Path);

#[verifier::external_type_specification]
#[verifier::external_body]
pub struct ExIoError(std::io::Error);

/// The path `Path::join` makes of `root` and `name`: `name` adjoined to
/// `root`, or `name` alone where it is absolute. It depends on its two
/// arguments only.
pub uninterp spec fn joined_path(root: &Path, name: Seq<char>) -> PathBuf;

/// `Path::join`: the path `name` under `root`, named [`joined_path`]. What the
/// joined path looks like is left to that name; callers prove things about
/// the name they hand in.
#[verifier::external_body]
pub(crate) fn path_join(root: &Path, name: &str) -> (p: PathBuf)
    ensures
        p == joined_path(root, name@),
{
    root.join(name)
}

} // verus!
