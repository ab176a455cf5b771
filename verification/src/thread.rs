//! What a thread is made of: the record kept of each thread, the stack it
//! gets, the badges that tell its channels apart, and the requests that build it.

use vstd::prelude::*;
use crate::bootinfo_manager::ManagerView;
use crate::error::{BootError, ConfigFault, Resource};
use crate::kernel::{
    CPtr, KernelObjectHandle, ObjectType, Request, UserContext, Word, CONTEXT_REGISTERS,
    MAX_PRIORITY, NIL_DATA, all_rights,
};
use crate::platform::{Platform, MIN_STACK_SIZE};

verus! {

/// Stack size, in bytes, that threads are usually given.
pub const THREAD_STACK_SIZE: usize = 4096;

/// Number of capability slots that one thread takes.
pub const SLOTS_PER_THREAD: usize = 5;

/// Number of steps in which a thread is built.
pub const THREAD_STEPS: usize = 10;

/// The step at which the IPC frame is mapped; it alone may take more than one request.
pub const MAP_STEP: usize = 3;

/// The step at which the control block is configured.
pub const CONFIGURE_STEP: usize = 7;

/// What the caller asks for when a thread is to be brought up.
#[derive(Clone, Copy, Debug, PartialEq, Eq, Structural)]
pub struct ThreadSpec {
    /// Badge of the thread's copy of the shared fault endpoint.
    pub fault_badge: Word,
    /// Badge of the copy of the thread's own IPC endpoint.
    pub ipc_badge: Word,
    /// Where the thread's IPC buffer is mapped.
    pub ipc_buffer_vaddr: Word,
    /// IPC badge of an earlier thread of the batch. Where given, the thread
    /// is started with that thread's endpoint as its argument; where not,
    /// with its own.
    pub peer: Option<Word>,
    /// Address of the function the thread runs.
    pub entry: Word,
}

/// What is kept of a thread once it is built.
#[derive(Clone, Copy, Debug, PartialEq, Eq, Structural)]
pub struct ThreadDescriptor {
    /// The thread's control block.
    pub tcb: KernelObjectHandle,
    /// The thread's badged copy of the shared fault endpoint.
    pub fault_endpoint: KernelObjectHandle,
    pub fault_badge: Word,
    /// The badged copy of the thread's own IPC endpoint.
    pub ipc_endpoint: KernelObjectHandle,
    pub ipc_badge: Word,
    pub ipc_buffer_vaddr: Word,
    /// Address just past the thread's stack.
    pub stack_top: Word,
}

/// Memory set aside once for the stacks of all threads. The thread with
/// ordinal `k` gets the `k`-th slice of `stack_size` bytes.
#[derive(Clone, Copy, Debug, PartialEq, Eq, Structural)]
pub struct StackArena {
    /// Address of the first byte.
    pub base: Word,
    /// Bytes in the arena.
    pub len: usize,
    /// Bytes of each thread's stack.
    pub stack_size: usize,
}

/// A thread under construction: its record, and what else its requests need.
#[derive(Clone, Copy, Debug, PartialEq, Eq, Structural)]
pub struct ThreadPlan {
    pub descriptor: ThreadDescriptor,
    /// The untyped region that the thread's objects come from.
    pub untyped: CPtr,
    /// The frame of the IPC buffer.
    pub ipc_frame: CPtr,
    /// The thread's own IPC endpoint, before it is badged.
    pub ipc_object: CPtr,
    /// The shared fault endpoint, before it is badged.
    pub fault_source: CPtr,
    /// Address of the function the thread runs.
    pub entry: Word,
    /// The endpoint handed to that function.
    pub argument: CPtr,
}

/// What a badge says of the message it came with.
#[derive(Clone, Copy, Debug, PartialEq, Eq, Structural)]
pub enum BadgeKind {
    /// The fault channel of the thread with this ordinal.
    Fault(usize),
    /// An application channel.
    Application,
}

/// What is to be said and done about a fault.
#[derive(Clone, Copy, Debug, PartialEq, Eq, Structural)]
pub struct FaultReport {
    /// The badge that the fault came with.
    pub badge: Word,
    /// The thread that the badge belongs to, if it is a fault badge.
    pub source: BadgeKind,
    /// The diagnostic that the kernel is asked for.
    pub request: Request,
}

impl StackArena {
    /// The arena holds the stack of the thread with this ordinal: the stacks
    /// are not empty, the arena lies within the address space, and the
    /// thread's slice lies within the arena.
    pub open spec fn has_room(&self, ordinal: nat) -> bool {
        &&& self.stack_size > 0
        &&& (ordinal + 1) * self.stack_size <= self.len
        &&& self.base + self.len <= usize::MAX
    }

    /// Address just past the stack of the thread with this ordinal.
    pub open spec fn stack_top(&self, ordinal: nat) -> int {
        self.base + (ordinal + 1) * self.stack_size
    }

    /// What is wrong with the stack of the thread with this ordinal, if
    /// anything: the size is checked first, then the room, then the top.
    pub open spec fn fault(&self, alignment: int, ordinal: nat) -> Option<BootError> {
        if self.stack_size < MIN_STACK_SIZE {
            Some(BootError::ConfigurationInvariantViolation(ConfigFault::StackTooSmall))
        } else if self.stack_size as int % alignment != 0 {
            Some(BootError::ConfigurationInvariantViolation(ConfigFault::StackSizeMisaligned))
        } else if !self.has_room(ordinal) {
            Some(BootError::ResourceExhaustion(Resource::Stack))
        } else if self.stack_top(ordinal) % alignment != 0 {
            Some(BootError::ConfigurationInvariantViolation(ConfigFault::StackTopMisaligned))
        } else {
            None
        }
    }

    /// Address just past the stack of the thread with this ordinal, where the
    /// arena has room for it.
    pub fn top_of(&self, ordinal: usize) -> (top: Option<Word>)
        ensures
            top is Some <==> self.has_room(ordinal as nat),
            top is Some ==> top.unwrap() == self.stack_top(ordinal as nat),
    {
        if self.stack_size == 0 {
            return None;
        }
        let count: usize = match ordinal.checked_add(1) {
            Some(count) => count,
            None => {
                proof {
                    lemma_product_bounds(ordinal as int + 1, self.stack_size as int);
                }
                return None;
            },
        };
        match count.checked_mul(self.stack_size) {
            Some(bytes) => {
                if bytes <= self.len {
                    match self.base.checked_add(self.len) {
                        Some(_end) => Some(self.base + bytes),
                        None => None,
                    }
                } else {
                    None
                }
            },
            None => None,
        }
    }
}

/// A product of a positive count and a size is at least the size, and at
/// least the count where the size is not zero.
proof fn lemma_product_bounds(count: int, size: int)
    requires
        count > 0,
        size >= 0,
    ensures
        count * size >= size,
        size == 0 ==> count * size == 0,
        size > 0 ==> count * size >= count,
{
    assert(count * size >= size && (size > 0 ==> count * size >= count)) by (nonlinear_arith)
        requires
            count > 0,
            size >= 0,
    ;
}

/// Neither badge is carried by a thread built so far, and the two differ.
pub open spec fn badges_free(threads: Seq<ThreadDescriptor>, fault_badge: Word, ipc_badge: Word)
    -> bool {
    &&& fault_badge != ipc_badge
    &&& forall|t: int|
        0 <= t < threads.len() ==> {
            &&& (#[trigger] threads[t]).fault_badge != fault_badge
            &&& threads[t].fault_badge != ipc_badge
            &&& threads[t].ipc_badge != fault_badge
            &&& threads[t].ipc_badge != ipc_badge
        }
}

/// No fault badge is also an IPC badge, of the same thread or of another, and
/// no two threads share a fault badge or an IPC badge.
pub open spec fn badges_disjoint(threads: Seq<ThreadDescriptor>) -> bool {
    forall|i: int, j: int|
        0 <= i < threads.len() && 0 <= j < threads.len() ==> {
            &&& (#[trigger] threads[i]).fault_badge != (#[trigger] threads[j]).ipc_badge
            &&& i != j ==> threads[i].fault_badge != threads[j].fault_badge
            &&& i != j ==> threads[i].ipc_badge != threads[j].ipc_badge
        }
}

/// Ordinal of the first thread from `from` on whose fault badge is `badge`.
pub open spec fn fault_index_from(threads: Seq<ThreadDescriptor>, badge: Word, from: int)
    -> Option<int>
    decreases threads.len() - from,
{
    if from < 0 || from >= threads.len() {
        None
    } else if threads[from].fault_badge == badge {
        Some(from)
    } else {
        fault_index_from(threads, badge, from + 1)
    }
}

/// What `badge` stands for: the fault channel of the first thread that has it
/// as its fault badge, or else an application channel.
pub open spec fn classify_badge(threads: Seq<ThreadDescriptor>, badge: Word) -> BadgeKind {
    match fault_index_from(threads, badge, 0) {
        Some(t) => BadgeKind::Fault(t as usize),
        None => BadgeKind::Application,
    }
}

/// Ordinal of the first thread from `from` on whose IPC badge is `badge`.
pub open spec fn peer_index_from(threads: Seq<ThreadDescriptor>, badge: Word, from: int)
    -> Option<int>
    decreases threads.len() - from,
{
    if from < 0 || from >= threads.len() {
        None
    } else if threads[from].ipc_badge == badge {
        Some(from)
    } else {
        peer_index_from(threads, badge, from + 1)
    }
}

/// The badged IPC endpoint of the first thread whose IPC badge is `badge`.
pub open spec fn peer_endpoint(threads: Seq<ThreadDescriptor>, badge: Word) -> Option<CPtr> {
    match peer_index_from(threads, badge, 0) {
        Some(t) => Some(threads[t].ipc_endpoint.slot),
        None => None,
    }
}

/// The search for a fault badge gives the first thread that has it.
pub proof fn lemma_fault_index_from(threads: Seq<ThreadDescriptor>, badge: Word, from: int)
    requires
        0 <= from,
    ensures
        match fault_index_from(threads, badge, from) {
            Some(t) => {
                &&& from <= t < threads.len()
                &&& threads[t].fault_badge == badge
                &&& forall|j: int| from <= j < t ==> (#[trigger] threads[j]).fault_badge != badge
            },
            None => forall|j: int|
                from <= j < threads.len() ==> (#[trigger] threads[j]).fault_badge != badge,
        },
    decreases threads.len() - from,
{
    if from < threads.len() && threads[from].fault_badge != badge {
        lemma_fault_index_from(threads, badge, from + 1);
    }
}

/// The search for a peer gives the first thread that has the IPC badge.
pub proof fn lemma_peer_index_from(threads: Seq<ThreadDescriptor>, badge: Word, from: int)
    requires
        0 <= from,
    ensures
        match peer_index_from(threads, badge, from) {
            Some(t) => {
                &&& from <= t < threads.len()
                &&& threads[t].ipc_badge == badge
                &&& forall|j: int| from <= j < t ==> (#[trigger] threads[j]).ipc_badge != badge
            },
            None => forall|j: int|
                from <= j < threads.len() ==> (#[trigger] threads[j]).ipc_badge != badge,
        },
    decreases threads.len() - from,
{
    if from < threads.len() && threads[from].ipc_badge != badge {
        lemma_peer_index_from(threads, badge, from + 1);
    }
}

/// The thread that is built from five slots starting at `first_slot`, in the
/// order control block, IPC frame, badged fault endpoint, IPC endpoint,
/// badged IPC endpoint. It is handed `run_fn_ipc_ep_cap` where that is given,
/// and the badged copy of its own endpoint where not.
pub open spec fn plan_thread(
    untyped: CPtr,
    first_slot: CPtr,
    stack_top: Word,
    fault_ep_cap: CPtr,
    fault_badge: Word,
    ipc_badge: Word,
    ipc_buffer_vaddr: Word,
    run_fn_ipc_ep_cap: Option<CPtr>,
    run_fn: Word,
) -> ThreadPlan {
    ThreadPlan {
        descriptor: ThreadDescriptor {
            tcb: KernelObjectHandle { kind: ObjectType::Tcb, slot: first_slot },
            fault_endpoint: KernelObjectHandle {
                kind: ObjectType::Endpoint,
                slot: (first_slot + 2) as usize,
            },
            fault_badge,
            ipc_endpoint: KernelObjectHandle {
                kind: ObjectType::Endpoint,
                slot: (first_slot + 4) as usize,
            },
            ipc_badge,
            ipc_buffer_vaddr,
            stack_top,
        },
        untyped,
        ipc_frame: (first_slot + 1) as usize,
        ipc_object: (first_slot + 3) as usize,
        fault_source: fault_ep_cap,
        entry: run_fn,
        argument: match run_fn_ipc_ep_cap {
            Some(cap) => cap,
            None => (first_slot + 4) as usize,
        },
    }
}

/// What creating a thread comes to, before any request is made. Checked in
/// this order: an untyped region that holds the thread's objects, five empty
/// slots, badges that are not in use, a stack that is large enough, aligned
/// and within the arena.
pub open spec fn create_thread_model(
    manager: ManagerView,
    stacks: StackArena,
    threads: Seq<ThreadDescriptor>,
    fault_ep_cap: CPtr,
    fault_badge: Word,
    ipc_badge: Word,
    ipc_buffer_vaddr: Word,
    run_fn_ipc_ep_cap: Option<CPtr>,
    run_fn: Word,
) -> Result<ThreadPlan, BootError> {
    let untyped = manager.find_untyped(None, manager.platform.spec_thread_bytes());
    let stack_fault = stacks.fault(manager.platform.spec_stack_alignment(), threads.len());
    if untyped is None {
        Err(BootError::ResourceExhaustion(Resource::Untyped))
    } else if manager.empty_used + SLOTS_PER_THREAD > manager.bootinfo.empty.spec_len() {
        Err(BootError::ResourceExhaustion(Resource::CapSlot))
    } else if !badges_free(threads, fault_badge, ipc_badge) {
        Err(BootError::ConfigurationInvariantViolation(ConfigFault::BadgeInUse))
    } else if stack_fault is Some {
        Err(stack_fault.unwrap())
    } else {
        Ok(
            plan_thread(
                untyped.unwrap(),
                (manager.bootinfo.empty.start + manager.empty_used) as usize,
                stacks.stack_top(threads.len()) as usize,
                fault_ep_cap,
                fault_badge,
                ipc_badge,
                ipc_buffer_vaddr,
                run_fn_ipc_ep_cap,
                run_fn,
            ),
        )
    }
}

/// The request that badges a copy of `source` into `dest`, with every right.
pub open spec fn mint_request(manager: ManagerView, dest: CPtr, source: CPtr, badge: Word)
    -> Request {
    Request::CNodeMint {
        dest_root: manager.cspace_cap(),
        dest_index: dest,
        dest_depth: manager.platform.word_bits,
        src_root: manager.cspace_cap(),
        src_index: source,
        src_depth: manager.platform.word_bits,
        rights: all_rights(),
        badge,
    }
}

/// The request that configures the control block of the thread.
pub open spec fn configure_request(manager: ManagerView, plan: ThreadPlan) -> Request {
    Request::TcbConfigure {
        tcb: plan.descriptor.tcb.slot,
        fault_ep: plan.descriptor.fault_endpoint.slot,
        cspace_root: manager.cspace_cap(),
        cspace_root_data: NIL_DATA,
        vspace_root: manager.pd_cap(),
        vspace_root_data: NIL_DATA,
        buffer: plan.descriptor.ipc_buffer_vaddr,
        buffer_frame: plan.ipc_frame,
    }
}

/// The request that writes the thread's first registers: where it starts,
/// where its stack is, and its argument.
pub open spec fn registers_request(plan: ThreadPlan) -> Request {
    Request::TcbWriteRegisters {
        tcb: plan.descriptor.tcb.slot,
        resume: false,
        arch_flags: 0,
        count: CONTEXT_REGISTERS,
        regs: UserContext {
            pc: plan.entry,
            sp: plan.descriptor.stack_top,
            cpsr: 0,
            r0: plan.argument,
        },
    }
}

/// The requests that build a thread, in order, where the IPC frame can be
/// mapped without a new page table. Each is made only after the one before
/// it succeeded. Where the mapping at [`MAP_STEP`] fails, the requests of the
/// fallback come between it and the next.
pub open spec fn thread_requests(manager: ManagerView, plan: ThreadPlan) -> Seq<Request> {
    seq![
        manager.retype_request(
            plan.untyped,
            ObjectType::Tcb,
            manager.platform.tcb_bits,
            plan.descriptor.tcb.slot,
        ),
        manager.retype_request(
            plan.untyped,
            ObjectType::SmallPage,
            manager.platform.page_bits,
            plan.ipc_frame,
        ),
        manager.retype_request(
            plan.untyped,
            ObjectType::Endpoint,
            manager.platform.endpoint_bits,
            plan.ipc_object,
        ),
        manager.page_map_request(plan.ipc_frame, plan.descriptor.ipc_buffer_vaddr),
        Request::SetIpcBufferUserData {
            buffer: plan.descriptor.ipc_buffer_vaddr,
            value: plan.descriptor.ipc_buffer_vaddr,
        },
        mint_request(
            manager,
            plan.descriptor.fault_endpoint.slot,
            plan.fault_source,
            plan.descriptor.fault_badge,
        ),
        mint_request(
            manager,
            plan.descriptor.ipc_endpoint.slot,
            plan.ipc_object,
            plan.descriptor.ipc_badge,
        ),
        configure_request(manager, plan),
        registers_request(plan),
        Request::TcbSetPriority {
            tcb: plan.descriptor.tcb.slot,
            authority: manager.platform.init_thread_tcb,
            priority: MAX_PRIORITY,
        },
    ]
}

/// The stack is at least the minimum, and its size and top are aligned.
pub open spec fn stack_ok(stacks: StackArena, platform: Platform, top: int) -> bool {
    &&& stacks.stack_size >= MIN_STACK_SIZE
    &&& stacks.stack_size as int % platform.spec_stack_alignment() == 0
    &&& top % platform.spec_stack_alignment() == 0
}

/// What kind of request stands at each step of building a thread: the control
/// block is configured at [`CONFIGURE_STEP`] and nowhere else, the registers
/// are written right after it, and no step resumes a thread.
pub proof fn lemma_thread_requests(manager: ManagerView, plan: ThreadPlan)
    ensures
        thread_requests(manager, plan).len() == THREAD_STEPS,
        thread_requests(manager, plan)[MAP_STEP as int] == manager.page_map_request(
            plan.ipc_frame,
            plan.descriptor.ipc_buffer_vaddr,
        ),
        thread_requests(manager, plan)[CONFIGURE_STEP as int] == configure_request(manager, plan),
        thread_requests(manager, plan)[CONFIGURE_STEP + 1] == registers_request(plan),
        forall|k: int|
            0 <= k < THREAD_STEPS ==> {
                &&& !((#[trigger] thread_requests(manager, plan)[k]) is TcbResume)
                &&& thread_requests(manager, plan)[k] is TcbConfigure <==> k == CONFIGURE_STEP
                &&& thread_requests(manager, plan)[k] is TcbWriteRegisters <==> k == CONFIGURE_STEP
                    + 1
            },
{
    let requests = thread_requests(manager, plan);
    assert(requests[0] is UntypedRetype);
    assert(requests[1] is UntypedRetype);
    assert(requests[2] is UntypedRetype);
    assert(requests[3] is PageMap);
    assert(requests[4] is SetIpcBufferUserData);
    assert(requests[5] is CNodeMint);
    assert(requests[6] is CNodeMint);
    assert(requests[7] is TcbConfigure);
    assert(requests[8] is TcbWriteRegisters);
    assert(requests[9] is TcbSetPriority);
}

} // verus!
