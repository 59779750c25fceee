//! What the dispatcher refuses, and why.

use vstd::prelude::*;

verus! {

/// A task or resource table that must not be armed.
#[derive(Clone, Copy, Debug, PartialEq, Eq, Structural)]
pub enum ConfigError {
    /// A task's priority is idle or above the highest level.
    PriorityOutOfRange,
    /// A task lists a resource that the resource table does not hold.
    UnknownResource,
    /// Two tasks are bound to one interrupt source.
    DuplicateSource,
    /// A listed ceiling is not the highest priority among the resource's
    /// tasks.
    CeilingMismatch,
}

/// A refused interrupt entry or task return.
#[derive(Clone, Copy, Debug, PartialEq, Eq, Structural)]
pub enum DispatchError {
    /// Initialisation has not ended.
    NotArmed,
    /// No task is bound to the interrupt source.
    UnknownSource,
    /// The task's priority is not above the priority mask.
    Masked,
    /// No task is running.
    NoActiveTask,
    /// The running task still holds a claim.
    ClaimOutstanding,
}

/// A refused claim or release.
#[derive(Clone, Copy, Debug, PartialEq, Eq, Structural)]
pub enum ClaimError {
    /// No task is running; the idle context claims nothing.
    NoActiveTask,
    /// The resource table does not hold the resource.
    UnknownResource,
    /// The resource is not in the running task's access set.
    OutsideAccessSet,
    /// The resource is already claimed.
    AlreadyHeld,
    /// The resource's ceiling lies below the priority mask.
    CeilingBelowThreshold,
    /// The innermost scope is not a claim.
    NothingClaimed,
}

} // verus!
