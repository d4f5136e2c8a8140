use vstd::prelude::*;

use std::path::PathBuf;

verus! {

/// `std::path::PathBuf` is carried through the library as it is: no rule
/// here looks inside a path.
#[verifier::external_type_specification]
#[verifier::external_body]
pub struct ExPathBuf(PathBuf);

/// What the user asked for: the rule set to read, the directory to write
/// into, the three output file names, and whether existing files may be
/// overwritten.
pub struct Args {
    pub input_file: PathBuf,
    pub outdir: PathBuf,
    pub device: String,
    pub os: String,
    pub user_agent: String,
    pub force: bool,
}

} // verus!
