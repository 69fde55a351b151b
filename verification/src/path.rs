//! File system paths.
use std::path::PathBuf;
use vstd::prelude::*;

verus! {

#[verifier::external_type_specification]
#[verifier::external_body]
pub struct ExPathBuf(std::path::PathBuf);

/// `std::path::PathBuf::clone`. Claimed without proof: the copy is the same
/// path.
pub assume_specification[ <PathBuf as Clone>::clone ](path: &PathBuf) -> (copy: PathBuf)
    ensures
        copy == *path,
;

/// The text of a path, where what is not Unicode is replaced.
pub uninterp spec fn lossy_path_text(path: PathBuf) -> Seq<char>;

/// The text of a path, from `std::path::Path::to_string_lossy`. Claimed without
/// proof: it depends on the path alone.
#[verifier::external_body]
fn path_text(path: &PathBuf) -> (text: String)
    ensures
        text@ == lossy_path_text(*path),
{
    path.to_string_lossy().to_string()
}

/// The text of a working directory, as native parameters hold it.
pub fn cwd_to_string(cwd: &PathBuf) -> (text: String)
    ensures
        text@ == lossy_path_text(*cwd),
{
    path_text(cwd)
}

} // verus!
