//! What a failed decode step reports.

use vstd::prelude::*;

verus! {

/// The ways in which a decode step can fail.
#[derive(Debug, Clone, Copy, PartialEq, Eq, Structural)]
pub enum Error {
    /// The buffer is shorter than the current step needs.
    InsufficientBytes,
    /// A literal tag did not match the bytes at the cursor.
    TagMismatch,
}

} // verus!
