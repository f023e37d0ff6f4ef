use vstd::prelude::*;

verus! {

/// Failures reported to the caller of the mock's lifecycle operations.
#[derive(Debug, Clone, PartialEq, Eq)]
pub enum EasyHttpMockError {
    /// `start` was asked of a mock that has already been started.
    AlreadyStarted,
    /// `stop` was asked of a mock that is not running.
    NotRunning,
    /// The server backend could not bind or begin serving.
    StartFailed(String),
    /// The server backend could not shut down.
    StopFailed(String),
}

} // verus!
