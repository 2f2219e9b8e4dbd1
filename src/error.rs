use vstd::prelude::*;

verus! {

/// The failures that process control reports to its callers.
#[derive(Clone, Debug, PartialEq, Eq)]
pub enum ProcessError {
    /// The operating system refused to create the process.
    SpawnFailed { detail: String },
    /// The operating system refused a termination request, or the process
    /// had already exited.
    KillFailed { detail: String },
    /// A stream was selected as piped, but no pipe came back from the spawn.
    InternalError,
    /// The requested stream was not piped.
    StreamUnavailable,
    /// Captured bytes are not valid UTF-8 text.
    InvalidEncoding,
}

} // verus!
