//! The per-sandbox lifecycle: which request is legal in which state, and
//! where a successful request leaves the sandbox.

use vstd::prelude::*;

verus! {

/// Where a tracked sandbox stands.
#[derive(Clone, Copy, Debug, PartialEq, Eq, Structural)]
pub enum SandboxState {
    /// No record of the sandbox yet.
    Unknown,
    Running,
    Stopped,
    /// Terminal: the sandbox was removed.
    Removed,
}

/// A lifecycle request against one sandbox.
#[derive(Clone, Copy, Debug, PartialEq, Eq, Structural)]
pub enum LifecycleOp {
    Run,
    Stop,
    Remove,
}

/// A request that the lifecycle refuses before any backend call.
#[derive(Clone, Copy, Debug, PartialEq, Eq, Structural)]
pub enum LifecycleError {
    /// `run` or `stop` on a sandbox that was already removed.
    AlreadyRemoved,
}

/// What the manager does with a request in a given state.
#[derive(Clone, Copy, Debug, PartialEq, Eq, Structural)]
pub enum Decision {
    /// Issue the backend effect; when it succeeds the sandbox moves to `target`.
    Call { target: SandboxState },
    /// The sandbox already is where the request would take it: succeed at once.
    Skip,
    /// Refuse the request without touching the backend.
    Refuse { error: LifecycleError },
}

/// The lifecycle table.
pub open spec fn decision_of(state: SandboxState, op: LifecycleOp) -> Decision {
    match op {
        LifecycleOp::Run => match state {
            SandboxState::Removed => Decision::Refuse { error: LifecycleError::AlreadyRemoved },
            SandboxState::Running => Decision::Skip,
            _ => Decision::Call { target: SandboxState::Running },
        },
        LifecycleOp::Stop => match state {
            SandboxState::Removed => Decision::Refuse { error: LifecycleError::AlreadyRemoved },
            SandboxState::Running => Decision::Call { target: SandboxState::Stopped },
            _ => Decision::Skip,
        },
        LifecycleOp::Remove => match state {
            SandboxState::Removed => Decision::Skip,
            _ => Decision::Call { target: SandboxState::Removed },
        },
    }
}

/// Decides what to do with `op` on a sandbox in `state`.
pub fn decide(state: SandboxState, op: LifecycleOp) -> (d: Decision)
    ensures
        d == decision_of(state, op),
{
    match op {
        LifecycleOp::Run => match state {
            SandboxState::Removed => Decision::Refuse { error: LifecycleError::AlreadyRemoved },
            SandboxState::Running => Decision::Skip,
            _ => Decision::Call { target: SandboxState::Running },
        },
        LifecycleOp::Stop => match state {
            SandboxState::Removed => Decision::Refuse { error: LifecycleError::AlreadyRemoved },
            SandboxState::Running => Decision::Call { target: SandboxState::Stopped },
            _ => Decision::Skip,
        },
        LifecycleOp::Remove => match state {
            SandboxState::Removed => Decision::Skip,
            _ => Decision::Call { target: SandboxState::Removed },
        },
    }
}

} // verus!
