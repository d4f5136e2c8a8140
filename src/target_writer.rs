use vstd::prelude::*;

verus! {

/// Why an output file could not be written.
#[derive(Debug, PartialEq, Eq, Structural, Clone, Copy)]
pub enum WriterError {
    /// The directory or the file could not be created or written.
    Io,
    /// The rules could not be encoded.
    Serialize,
}

} // verus!
