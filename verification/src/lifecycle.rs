use vstd::prelude::*;

verus! {

/// Where a stage stands in its life: `start` is valid from `Unstarted` or
/// `Stopped`, frames are processed only while `Running`, and `stop` from any
/// phase other than `Running` is a no-op.
#[derive(Clone, Copy, Debug, PartialEq, Eq, Structural)]
pub enum Phase {
    Unstarted,
    Running,
    Stopped,
}

/// Misuse of the lifecycle (a programming error, kept apart from runtime
/// failures): starting a stage that already runs, or handing a frame to one
/// that does not.
#[derive(Clone, Copy, Debug, PartialEq, Eq, Structural)]
pub enum LifecycleError {
    AlreadyRunning,
    NotRunning,
}

} // verus!
