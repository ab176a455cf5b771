//! Plain-value vocabulary shared with whoever talks to the kernel: capability
//! pointers, object kinds, and the requests this library asks to have performed.
//!
//! Nothing here performs a kernel operation. A [`Request`] names one primitive
//! operation together with every argument it takes; the caller performs it and
//! reports the status the kernel returned.

use vstd::prelude::*;

verus! {

/// A machine word as the kernel sees it.
pub type Word = usize;

/// Index of a slot in the root task's capability space.
pub type CPtr = usize;

/// Status returned by a kernel operation; [`NO_ERROR`] means success.
pub type KernelStatus = u32;

/// The status of an operation that succeeded.
pub const NO_ERROR: KernelStatus = 0;

/// Priority given to every thread that is brought up (the highest).
pub const MAX_PRIORITY: usize = 255;

/// Number of leading registers written when a thread's context is initialised:
/// program counter, stack pointer, status register and first argument.
pub const CONTEXT_REGISTERS: usize = 4;

/// Capability data that carries no guard.
pub const NIL_DATA: Word = 0;

/// Mapping attributes for device and IPC frames: nothing is cached.
pub const NO_CACHE_ATTRIBUTES: usize = 0;

/// Kind of kernel object that untyped memory can be turned into.
#[derive(Clone, Copy, Debug, PartialEq, Eq, Structural)]
pub enum ObjectType {
    Untyped,
    Tcb,
    Endpoint,
    Notification,
    CapTable,
    SmallPage,
    LargePage,
    Section,
    SuperSection,
    PageTable,
    PageDirectory,
}

/// A capability produced by retyping: the slot that holds it, tagged with the
/// kind of object it refers to.
#[derive(Clone, Copy, Debug, PartialEq, Eq, Structural)]
pub struct KernelObjectHandle {
    pub kind: ObjectType,
    pub slot: CPtr,
}

/// Access rights carried by a capability.
#[derive(Clone, Copy, Debug, PartialEq, Eq, Structural)]
pub struct CapRights {
    pub grant: bool,
    pub read: bool,
    pub write: bool,
}

/// The registers that are set when a thread's context is first written.
#[derive(Clone, Copy, Debug, PartialEq, Eq, Structural)]
pub struct UserContext {
    pub pc: Word,
    pub sp: Word,
    pub cpsr: Word,
    pub r0: Word,
}

/// One primitive operation, with all of its arguments, that the caller is asked
/// to perform on the library's behalf.
#[derive(Clone, Copy, Debug, PartialEq, Eq, Structural)]
pub enum Request {
    /// Turn part of an untyped region into `num_objects` objects of one kind,
    /// placing their capabilities from `node_offset` on.
    UntypedRetype {
        untyped: CPtr,
        object_type: ObjectType,
        size_bits: usize,
        root: CPtr,
        node_index: CPtr,
        node_depth: usize,
        node_offset: CPtr,
        num_objects: usize,
    },
    /// Map a frame into an address space.
    PageMap { frame: CPtr, vspace: CPtr, vaddr: Word, rights: CapRights, attributes: usize },
    /// Map a page table into an address space.
    PageTableMap { table: CPtr, vspace: CPtr, vaddr: Word, attributes: usize },
    /// Copy a capability into another slot, reducing its rights and setting its badge.
    CNodeMint {
        dest_root: CPtr,
        dest_index: CPtr,
        dest_depth: usize,
        src_root: CPtr,
        src_index: CPtr,
        src_depth: usize,
        rights: CapRights,
        badge: Word,
    },
    /// Give a thread control block its fault endpoint, capability space,
    /// address space and IPC buffer.
    TcbConfigure {
        tcb: CPtr,
        fault_ep: CPtr,
        cspace_root: CPtr,
        cspace_root_data: Word,
        vspace_root: CPtr,
        vspace_root_data: Word,
        buffer: Word,
        buffer_frame: CPtr,
    },
    /// Write the first `count` registers of a thread.
    TcbWriteRegisters { tcb: CPtr, resume: bool, arch_flags: u8, count: usize, regs: UserContext },
    /// Set a thread's priority, on the authority of another thread control block.
    TcbSetPriority { tcb: CPtr, authority: CPtr, priority: usize },
    /// Let a thread run.
    TcbResume { tcb: CPtr },
    /// Store `value` in the user-data field of the IPC buffer mapped at `buffer`.
    SetIpcBufferUserData { buffer: Word, value: Word },
    /// Ask the kernel to print its scheduler state.
    DebugDumpScheduler,
}

/// Rights of every capability copy that is minted: grant, read and write.
pub open spec fn all_rights() -> CapRights {
    CapRights { grant: true, read: true, write: true }
}

/// Rights with which frames are mapped: read and write, no grant.
pub open spec fn read_write() -> CapRights {
    CapRights { grant: false, read: true, write: true }
}

} // verus!
