//! An error wrapper that remembers where an error was observed.

use vstd::prelude::*;

verus! {

/// An error together with the file, line and function that observed it, so
/// that a propagated failure still names its origin.
pub struct LocationError {
    /// Source file of the observation.
    pub file: String,
    /// Line of the observation.
    pub line: u32,
    /// Function the error passed through.
    pub function: String,
    /// What the underlying error said.
    pub source: String,
}

} // verus!
