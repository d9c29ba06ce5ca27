//! The error taxonomy of the provisioning workflow.  Every error is fatal to
//! the current run; none corrupts already-persisted ledger state.

use vstd::prelude::*;

verus! {

/// A fatal workflow error.
///
/// - `ConfigError`: a required plan field is malformed or missing.
/// - `IdentityMismatch`: the observed caller identity differs from the one
///   recorded in the ledger; blocks every creation call.
/// - `PollTimeout`: an asynchronous resource never reached its target status
///   within its wall-clock bound.
/// - `PartialProgress`: an expected output is absent after an apparently
///   successful step.
#[derive(Clone, Copy, Debug, PartialEq, Eq, Structural)]
pub enum WorkflowError {
    ConfigError,
    IdentityMismatch,
    PollTimeout,
    PartialProgress,
}

} // verus!
