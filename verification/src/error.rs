//! What can stop the bootstrap. Every failure is fatal: nothing is retried,
//! and the caller decides how to halt.

use vstd::prelude::*;
use crate::kernel::{KernelStatus, Request};

verus! {

/// A resource that ran out.
#[derive(Clone, Copy, Debug, PartialEq, Eq, Structural)]
pub enum Resource {
    /// No untyped region is large enough.
    Untyped,
    /// The range of empty capability slots is used up.
    CapSlot,
    /// The stack arena has no room for another thread.
    Stack,
    /// A size does not fit in a machine word.
    AddressSpace,
}

/// A configuration rule that the request would break.
#[derive(Clone, Copy, Debug, PartialEq, Eq, Structural)]
pub enum ConfigFault {
    /// A thread stack is smaller than the minimum.
    StackTooSmall,
    /// The stack size is not a multiple of the stack alignment.
    StackSizeMisaligned,
    /// The top of the stack is not aligned.
    StackTopMisaligned,
    /// A badge is already in use, so a badge alone would no longer tell
    /// which channel a message came from.
    BadgeInUse,
    /// A thread names a peer that has not been created before it.
    UnknownPeer,
    /// The call does not fit the state the system is in.
    OutOfTurn,
}

/// Why the bootstrap stopped.
#[derive(Clone, Copy, Debug, PartialEq, Eq, Structural)]
pub enum BootError {
    ResourceExhaustion(Resource),
    /// The kernel refused `request` with a status other than success.
    KernelRejection { request: Request, status: KernelStatus },
    ConfigurationInvariantViolation(ConfigFault),
    UnsupportedObjectKind,
}

} // verus!
