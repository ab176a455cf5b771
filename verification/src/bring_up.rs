//! The bring-up as a state machine: where it stands, what it asks for next,
//! and how it goes on when the kernel has answered.
//!
//! Everything here is a statement; [`crate::init_system::InitSystem`] is the
//! machine that runs, and its contracts say that it runs like this.

use vstd::prelude::*;
use crate::bootinfo_manager::{BootInfo, ManagerView, MapStage, MapStep, requests_left};
use crate::error::{BootError, ConfigFault, Resource};
use crate::kernel::{CPtr, KernelStatus, ObjectType, Request, Word, NO_ERROR};
use crate::platform::Platform;
use crate::thread::{
    StackArena, ThreadDescriptor, ThreadPlan, ThreadSpec, MAP_STEP, SLOTS_PER_THREAD,
    THREAD_STEPS, create_thread_model, lemma_peer_index_from, peer_endpoint, stack_ok,
    thread_requests,
};

verus! {

/// How far the bring-up has come.
#[derive(Clone, Copy, Debug, PartialEq, Eq, Structural)]
pub enum Phase {
    /// Nothing was started.
    Idle,
    /// The shared fault endpoint is being retyped.
    Endpoint,
    /// The next thread is being built; the request of `step` is under way.
    Thread { plan: ThreadPlan, step: usize, map_stage: MapStage },
    /// All threads are built; the thread with ordinal `resumed` is being resumed.
    Starting { resumed: usize },
    /// Every thread runs.
    Done,
    /// The bring-up was stopped.
    Failed(BootError),
}

/// What the caller is to do next.
#[derive(Clone, Copy, Debug, PartialEq, Eq, Structural)]
pub enum Action {
    /// Perform the request, then call [`crate::init_system::InitSystem::advance`]
    /// with its status.
    Perform(Request),
    /// The bring-up is complete. The capability is the shared fault endpoint,
    /// on which the faults of all threads arrive.
    Done(CPtr),
    /// The bring-up cannot go on.
    Halt(BootError),
}

/// What the system is, as far as its contracts speak of it.
pub struct SystemView {
    pub manager: ManagerView,
    pub stacks: StackArena,
    /// The threads that are built, in the order in which they were built.
    pub threads: Seq<ThreadDescriptor>,
    /// The batch that was asked for.
    pub entries: Seq<ThreadSpec>,
    /// The shared fault endpoint.
    pub fault_ep: CPtr,
    pub phase: Phase,
    /// The request that was handed out last.
    pub outstanding: Option<Request>,
    /// Every request that was handed out, in order.
    pub trace: Seq<Request>,
}

/// The system hands out `request` and moves to `phase`.
pub open spec fn issue_model(v: SystemView, request: Request, phase: Phase) -> (SystemView, Action) {
    (
        SystemView { phase, outstanding: Some(request), trace: v.trace.push(request), ..v },
        Action::Perform(request),
    )
}

/// The system stops with `error`.
pub open spec fn fail_model(v: SystemView, error: BootError) -> (SystemView, Action) {
    (SystemView { phase: Phase::Failed(error), ..v }, Action::Halt(error))
}

/// The system stops because the kernel refused the request under way.
pub open spec fn reject_model(v: SystemView, status: KernelStatus) -> (SystemView, Action) {
    fail_model(v, BootError::KernelRejection { request: v.outstanding.unwrap(), status })
}

/// What creating the shared fault endpoint comes to: the first untyped region
/// that holds an endpoint, the next empty slot, and the request that retypes
/// the one into the other.
pub open spec fn create_ep_model(manager: ManagerView) -> Result<(CPtr, Request), BootError> {
    let untyped = manager.find_untyped(None, manager.platform.spec_endpoint_bytes());
    let slot = manager.next_slot();
    if untyped is None {
        Err(BootError::ResourceExhaustion(Resource::Untyped))
    } else if slot is None {
        Err(BootError::ResourceExhaustion(Resource::CapSlot))
    } else {
        Ok(
            (
                slot.unwrap(),
                manager.retype_request(
                    untyped.unwrap(),
                    ObjectType::Endpoint,
                    manager.platform.endpoint_bits,
                    slot.unwrap(),
                ),
            ),
        )
    }
}

/// The threads from ordinal `resumed` on are resumed, one after the other, in
/// the order in which they were built; then the bring-up is complete.
pub open spec fn start_model(v: SystemView, resumed: nat) -> (SystemView, Action) {
    if resumed < v.threads.len() {
        issue_model(
            v,
            Request::TcbResume { tcb: v.threads[resumed as int].tcb.slot },
            Phase::Starting { resumed: resumed as usize },
        )
    } else {
        (SystemView { phase: Phase::Done, ..v }, Action::Done(v.fault_ep))
    }
}

/// The endpoint that the next thread of the batch is to be handed: that of
/// the peer it names, which must have been built before it.
pub open spec fn peer_of_next(v: SystemView) -> Result<Option<CPtr>, BootError> {
    match v.entries[v.threads.len() as int].peer {
        None => Ok(None),
        Some(badge) => match peer_endpoint(v.threads, badge) {
            Some(cap) => Ok(Some(cap)),
            None => Err(BootError::ConfigurationInvariantViolation(ConfigFault::UnknownPeer)),
        },
    }
}

/// The next thread of the batch is begun; where the batch is built, the
/// threads are started.
pub open spec fn next_thread_model(v: SystemView) -> (SystemView, Action) {
    if v.threads.len() >= v.entries.len() {
        start_model(v, 0)
    } else {
        let entry = v.entries[v.threads.len() as int];
        match peer_of_next(v) {
            Err(error) => fail_model(v, error),
            Ok(peer) => match create_thread_model(
                v.manager,
                v.stacks,
                v.threads,
                v.fault_ep,
                entry.fault_badge,
                entry.ipc_badge,
                entry.ipc_buffer_vaddr,
                peer,
                entry.entry,
            ) {
                Err(error) => fail_model(v, error),
                Ok(plan) => {
                    let taken = SystemView {
                        manager: v.manager.bump(SLOTS_PER_THREAD as nat),
                        ..v
                    };
                    issue_model(
                        taken,
                        thread_requests(taken.manager, plan)[0],
                        Phase::Thread { plan, step: 0, map_stage: MapStage::Start },
                    )
                },
            },
        }
    }
}

/// The request of `step` came back with `status` while `plan` is being built.
///
/// A refusal stops the bring-up, but for the mapping of the IPC frame, which
/// falls back once on a new page table. After the last step the thread is
/// recorded, and the next one is begun.
pub open spec fn thread_step_model(
    v: SystemView,
    plan: ThreadPlan,
    step: usize,
    map_stage: MapStage,
    status: KernelStatus,
) -> (SystemView, Action) {
    if step == MAP_STEP {
        match v.manager.map_step(
            plan.untyped,
            plan.ipc_frame,
            plan.descriptor.ipc_buffer_vaddr,
            map_stage,
            status,
        ) {
            MapStep::Perform { request, next } => issue_model(
                v,
                request,
                Phase::Thread { plan, step, map_stage: next },
            ),
            MapStep::Done { status: mapped } => if mapped != NO_ERROR {
                reject_model(v, mapped)
            } else {
                issue_model(
                    v,
                    thread_requests(v.manager, plan)[MAP_STEP + 1],
                    Phase::Thread { plan, step: (MAP_STEP + 1) as usize, map_stage },
                )
            },
        }
    } else if status != NO_ERROR {
        reject_model(v, status)
    } else if step + 1 == MAP_STEP {
        issue_model(
            v,
            thread_requests(v.manager, plan)[MAP_STEP as int],
            Phase::Thread { plan, step: MAP_STEP, map_stage: MapStage::FirstTry },
        )
    } else if step + 1 < THREAD_STEPS {
        issue_model(
            v,
            thread_requests(v.manager, plan)[step + 1],
            Phase::Thread { plan, step: (step + 1) as usize, map_stage },
        )
    } else {
        next_thread_model(SystemView { threads: v.threads.push(plan.descriptor), ..v })
    }
}

/// The bring-up of `entries` is begun: the shared fault endpoint comes first.
/// A system that was started before refuses, and stays as it is.
pub open spec fn init_model(v: SystemView, entries: Seq<ThreadSpec>) -> (SystemView, Action) {
    if !(v.phase is Idle) {
        (v, Action::Halt(BootError::ConfigurationInvariantViolation(ConfigFault::OutOfTurn)))
    } else {
        let batch = SystemView { entries, ..v };
        match create_ep_model(v.manager) {
            Err(error) => fail_model(batch, error),
            Ok((ep, request)) => issue_model(
                SystemView { manager: v.manager.bump(1), fault_ep: ep, ..batch },
                request,
                Phase::Endpoint,
            ),
        }
    }
}

/// The request under way came back with `status`.
pub open spec fn advance_model(v: SystemView, status: KernelStatus) -> (SystemView, Action) {
    match v.phase {
        Phase::Idle => (
            v,
            Action::Halt(BootError::ConfigurationInvariantViolation(ConfigFault::OutOfTurn)),
        ),
        Phase::Done => (v, Action::Done(v.fault_ep)),
        Phase::Failed(error) => (v, Action::Halt(error)),
        Phase::Endpoint => if status != NO_ERROR {
            reject_model(v, status)
        } else {
            next_thread_model(v)
        },
        Phase::Thread { plan, step, map_stage } => thread_step_model(
            v,
            plan,
            step,
            map_stage,
            status,
        ),
        Phase::Starting { resumed } => if status != NO_ERROR {
            reject_model(v, status)
        } else {
            start_model(v, (resumed + 1) as nat)
        },
    }
}

/// The system before anything was started.
pub open spec fn initial_view(bootinfo: BootInfo, platform: Platform, stacks: StackArena)
    -> SystemView {
    SystemView {
        manager: ManagerView { bootinfo, platform, empty_used: 1 },
        stacks,
        threads: Seq::empty(),
        entries: Seq::empty(),
        fault_ep: 0,
        phase: Phase::Idle,
        outstanding: None,
        trace: Seq::empty(),
    }
}

/// The request configures the control block in slot `tcb`.
pub open spec fn is_configure_of(request: Request, tcb: CPtr) -> bool {
    request matches Request::TcbConfigure { tcb: configured, .. } && configured == tcb
}

/// A thread whose stack is too small or not aligned, or for which the arena has
/// no room, is refused before any request is made for it: the answer is a
/// halt, and the trace stays as it is.
pub proof fn lemma_bad_stack_stops_thread(v: SystemView)
    requires
        v.threads.len() < v.entries.len(),
        v.stacks.has_room(v.threads.len()) ==> !stack_ok(
            v.stacks,
            v.manager.platform,
            v.stacks.stack_top(v.threads.len()),
        ),
    ensures
        next_thread_model(v).1 is Halt,
        next_thread_model(v).0.trace == v.trace,
        next_thread_model(v).0.threads == v.threads,
{
}

/// A thread that names a peer which was not built before it is refused
/// before any request is made for it, and so before any thread is resumed.
pub proof fn lemma_unknown_peer_stops_thread(v: SystemView, badge: Word)
    requires
        v.threads.len() < v.entries.len(),
        v.entries[v.threads.len() as int].peer == Some(badge),
        forall|t: int| 0 <= t < v.threads.len() ==> (#[trigger] v.threads[t]).ipc_badge != badge,
    ensures
        next_thread_model(v).1 == Action::Halt(
            BootError::ConfigurationInvariantViolation(ConfigFault::UnknownPeer),
        ),
        next_thread_model(v).0.trace == v.trace,
        next_thread_model(v).0.threads == v.threads,
{
    lemma_peer_index_from(v.threads, badge, 0);
}

/// Most requests that building one thread can still take when the request
/// of `step` is under way: one for each step that follows, and three more
/// where the mapping of the IPC frame has yet to fall back on a page table.
pub open spec fn thread_requests_left(step: usize, map_stage: MapStage) -> nat {
    if step < MAP_STEP {
        (THREAD_STEPS - 1 - step + 3) as nat
    } else if step == MAP_STEP {
        (requests_left(map_stage) + THREAD_STEPS - 1 - MAP_STEP) as nat
    } else if step < THREAD_STEPS {
        (THREAD_STEPS - 1 - step) as nat
    } else {
        0
    }
}

/// Most requests that the bring-up can still make after the one under way:
/// thirteen for each thread that is not begun, and one to resume each thread.
pub open spec fn requests_left_in(v: SystemView) -> nat {
    match v.phase {
        Phase::Idle => 0,
        Phase::Endpoint => 14 * v.entries.len(),
        Phase::Thread { plan, step, map_stage } => (thread_requests_left(step, map_stage) + 13 * (
        v.entries.len() - v.threads.len() - 1) + v.entries.len()) as nat,
        Phase::Starting { resumed } => (v.threads.len() - resumed - 1) as nat,
        Phase::Done => 0,
        Phase::Failed(_) => 0,
    }
}

} // verus!
