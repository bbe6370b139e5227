//! Error surface of the interception core.
//!
//! Every failure of the synchronous setup path (the swap of the child's
//! stdout handle) is reported through [`ExecutorError`]. Underlying
//! operating-system errors are carried through unchanged as
//! `std::io::Error` values.

use vstd::prelude::*;

verus! {

/// Declares `std::io::Error` so that values of it can be carried through
/// verified code. The type stays opaque: nothing inside it is inspected.
#[verifier::external_type_specification]
#[verifier::external_body]
pub struct ExIoError(std::io::Error);

/// An error of the interception core, raised before any background task is
/// spawned. The child's stdout slot is left untouched by a failing call.
pub enum ExecutorError {
    /// The child process has no stdout stream attached; maps to a
    /// not-found I/O error at the boundary.
    NoStdout,
    /// Creating the replacement OS pipe failed; carries the OS error.
    PipeCreation(std::io::Error),
    /// Wrapping a pipe endpoint into a runtime stream type failed;
    /// carries the OS error.
    StreamConstruction(std::io::Error),
}

impl ExecutorError {
    /// True exactly on the error that reports a missing stdout stream.
    pub open spec fn is_not_found(&self) -> bool {
        self is NoStdout
    }
}

} // verus!
