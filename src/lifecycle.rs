use vstd::prelude::*;

use crate::errors::EasyHttpMockError;

verus! {

/// Where a mock server stands: it only ever moves forward,
/// from `Idle` to `Running` to `Stopped`.
#[derive(Debug, Clone, Copy, PartialEq, Eq, Structural)]
pub enum ServerState {
    Idle,
    Running,
    Stopped,
}

/// Whether a start may be attempted from `s`, and the error otherwise.
pub open spec fn start_check(s: ServerState) -> Result<(), EasyHttpMockError> {
    if s == ServerState::Idle {
        Ok(())
    } else {
        Err(EasyHttpMockError::AlreadyStarted)
    }
}

/// Whether a stop may be attempted from `s`, and the error otherwise.
pub open spec fn stop_check(s: ServerState) -> Result<(), EasyHttpMockError> {
    if s == ServerState::Running {
        Ok(())
    } else {
        Err(EasyHttpMockError::NotRunning)
    }
}

/// The state after a start attempt from `Idle` ended with `outcome`.
pub open spec fn after_start(outcome: Result<(), EasyHttpMockError>) -> ServerState {
    if outcome is Ok {
        ServerState::Running
    } else {
        ServerState::Idle
    }
}

/// The state after a stop attempt from `Running` ended with `outcome`.
pub open spec fn after_stop(outcome: Result<(), EasyHttpMockError>) -> ServerState {
    if outcome is Ok {
        ServerState::Stopped
    } else {
        ServerState::Running
    }
}

/// From a mock that was never started, a start that the backend completes
/// is followed by a stop that may go ahead, and a completed stop leaves the
/// mock stopped.
pub proof fn start_then_stop_succeeds(s: ServerState)
    requires
        s == ServerState::Idle,
    ensures
        start_check(s) is Ok,
        after_start(Ok(())) == ServerState::Running,
        stop_check(after_start(Ok(()))) is Ok,
        after_stop(Ok(())) == ServerState::Stopped,
{
}

/// A stop asked of a mock that was never started is refused with
/// `NotRunning`, and the backend is not asked to stop.
pub proof fn stop_before_start_is_refused(s: ServerState)
    requires
        s == ServerState::Idle,
    ensures
        stop_check(s) == Err::<(), EasyHttpMockError>(EasyHttpMockError::NotRunning),
{
}

impl ServerState {
    /// Decides whether the backend may be asked to start.
    pub fn check_start(&self) -> (r: Result<(), EasyHttpMockError>)
        ensures
            r == start_check(*self),
    {
        match self {
            ServerState::Idle => Ok(()),
            _ => Err(EasyHttpMockError::AlreadyStarted),
        }
    }

    /// Decides whether the backend may be asked to stop.
    pub fn check_stop(&self) -> (r: Result<(), EasyHttpMockError>)
        ensures
            r == stop_check(*self),
    {
        match self {
            ServerState::Running => Ok(()),
            _ => Err(EasyHttpMockError::NotRunning),
        }
    }
}

} // verus!
