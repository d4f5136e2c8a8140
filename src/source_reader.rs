use vstd::prelude::*;

verus! {

/// Why the rule set could not be read.
#[derive(Debug, PartialEq, Eq, Structural, Clone, Copy)]
pub enum ReaderError {
    /// The file could not be read.
    Io,
    /// The text is not a rule set.
    Malformed,
}

} // verus!
