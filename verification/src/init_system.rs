//! Bringing up a batch of threads: one shared fault endpoint, then each thread
//! in the order given, then every thread is resumed.
//!
//! [`InitSystem`] decides; the caller acts. [`InitSystem::init`] and
//! [`InitSystem::advance`] each answer with an [`Action`]: a request to
//! perform, the end of the bring-up, or the error that stopped it.

use vstd::prelude::*;
use crate::bootinfo_manager::{
    BootInfo, BootInfoManager, MapStage, MapStep, lemma_map_retries_once,
};
use crate::bring_up::{
    Action, Phase, SystemView, advance_model, create_ep_model, fail_model, init_model,
    initial_view, is_configure_of, issue_model, next_thread_model, reject_model,
    requests_left_in, start_model, thread_step_model,
};
use crate::error::{BootError, ConfigFault, Resource};
use crate::kernel::{
    CPtr, CapRights, KernelObjectHandle, KernelStatus, ObjectType, Request, UserContext, Word,
    CONTEXT_REGISTERS, MAX_PRIORITY, NIL_DATA, NO_ERROR,
};
use crate::platform::{Platform, MIN_STACK_SIZE};
use crate::thread::{
    BadgeKind, FaultReport, StackArena, ThreadDescriptor, ThreadPlan, ThreadSpec, CONFIGURE_STEP,
    MAP_STEP,
    SLOTS_PER_THREAD, THREAD_STEPS, badges_disjoint, badges_free, classify_badge,
    create_thread_model, fault_index_from, lemma_fault_index_from, lemma_thread_requests,
    peer_endpoint, peer_index_from, stack_ok, thread_requests,
};

verus! {

/// Where in the trace the proofs look: from which index on the threads are
/// resumed, and at which index each thread was configured.
struct Marks {
    resume_from: int,
    configured_at: Seq<int>,
}

/// The record is that of the thread with ordinal `ordinal`, built for `entry`.
spec fn descriptor_ok(
    v: SystemView,
    descriptor: ThreadDescriptor,
    ordinal: int,
    entry: ThreadSpec,
) -> bool {
    &&& v.stacks.has_room(ordinal as nat)
    &&& descriptor.stack_top == v.stacks.stack_top(ordinal as nat)
    &&& stack_ok(v.stacks, v.manager.platform, descriptor.stack_top as int)
    &&& descriptor.fault_badge == entry.fault_badge
    &&& descriptor.ipc_badge == entry.ipc_badge
    &&& descriptor.ipc_buffer_vaddr == entry.ipc_buffer_vaddr
    &&& descriptor.tcb.kind == ObjectType::Tcb
    &&& descriptor.fault_endpoint.kind == ObjectType::Endpoint
    &&& descriptor.ipc_endpoint.kind == ObjectType::Endpoint
    &&& v.fault_ep < descriptor.tcb.slot
    &&& descriptor.fault_endpoint.slot == descriptor.tcb.slot + 2
    &&& descriptor.ipc_endpoint.slot == descriptor.tcb.slot + 4
    &&& descriptor.ipc_endpoint.slot < v.manager.bootinfo.empty.start + v.manager.empty_used
}

/// The threads that are built are the first of the batch, each with its own
/// stack, and their badges tell all their channels apart.
spec fn registry_ok(v: SystemView) -> bool {
    &&& v.manager.platform.wf()
    &&& v.threads.len() <= v.entries.len()
    &&& badges_disjoint(v.threads)
    &&& forall|t: int|
        0 <= t < v.threads.len() ==> descriptor_ok(v, #[trigger] v.threads[t], t, v.entries[t])
    &&& forall|i: int, j: int|
        0 <= i < j < v.threads.len() ==> (#[trigger] v.threads[i]).ipc_endpoint.slot < (
        #[trigger] v.threads[j]).tcb.slot
    &&& v.manager.empty_used >= 1
    &&& v.trace.len() > 0 ==> {
        &&& v.manager.page_table_cap() < v.fault_ep
        &&& v.fault_ep < v.manager.bootinfo.empty.start + v.manager.empty_used
    }
}

/// The request writes registers that hold a usable stack pointer.
spec fn registers_ok(v: SystemView, request: Request) -> bool {
    request matches Request::TcbWriteRegisters { regs, .. } ==> stack_ok(
        v.stacks,
        v.manager.platform,
        regs.sp as int,
    )
}

/// The trace is in order: before the first resume nothing is a resume, from
/// it on everything is, one resume for each thread in the order in which the
/// threads were built, and only once the whole batch is built. The control
/// block of every thread that is built was configured before the first
/// resume, and every write of registers carries a usable stack pointer.
spec fn history_ok(v: SystemView, m: Marks) -> bool {
    &&& 0 <= m.resume_from <= v.trace.len()
    &&& forall|i: int| 0 <= i < m.resume_from ==> !((#[trigger] v.trace[i]) is TcbResume)
    &&& forall|i: int|
        m.resume_from <= i < v.trace.len() ==> {
            &&& i - m.resume_from < v.threads.len()
            &&& #[trigger] v.trace[i] == (Request::TcbResume {
                tcb: v.threads[i - m.resume_from].tcb.slot,
            })
        }
    &&& m.resume_from < v.trace.len() ==> v.threads.len() == v.entries.len()
    &&& m.configured_at.len() >= v.threads.len()
    &&& forall|t: int|
        0 <= t < v.threads.len() ==> {
            &&& 0 <= #[trigger] m.configured_at[t] < m.resume_from
            &&& is_configure_of(v.trace[m.configured_at[t]], v.threads[t].tcb.slot)
        }
    &&& forall|i: int| 0 <= i < v.trace.len() ==> registers_ok(v, #[trigger] v.trace[i])
}

/// The thread under construction is the next of the batch: its badges are
/// new, and its capabilities come after those of every thread before it.
spec fn plan_ok(v: SystemView, plan: ThreadPlan) -> bool {
    &&& v.threads.len() < v.entries.len()
    &&& badges_free(v.threads, plan.descriptor.fault_badge, plan.descriptor.ipc_badge)
    &&& descriptor_ok(v, plan.descriptor, v.threads.len() as int, v.entries[v.threads.len() as int])
    &&& forall|t: int|
        0 <= t < v.threads.len() ==> (#[trigger] v.threads[t]).ipc_endpoint.slot
            < plan.descriptor.tcb.slot
    &&& plan.ipc_frame == plan.descriptor.tcb.slot + 1
    &&& plan.ipc_object == plan.descriptor.tcb.slot + 3
    &&& plan.fault_source == v.fault_ep
}

/// What holds in each phase: while the batch is being built no thread was
/// resumed yet, a thread past its configuration has it in the trace, and
/// threads are resumed only once all of them are built.
spec fn phase_ok(v: SystemView, m: Marks) -> bool {
    match v.phase {
        Phase::Idle => v.trace.len() == 0 && v.threads.len() == 0 && v.entries.len() == 0,
        Phase::Endpoint => {
            &&& m.resume_from == v.trace.len()
            &&& v.trace.len() > 0
            &&& v.outstanding is Some
            &&& v.threads.len() == 0
        },
        Phase::Thread { plan, step, map_stage } => {
            &&& m.resume_from == v.trace.len()
            &&& v.trace.len() > 0
            &&& v.outstanding is Some
            &&& step < THREAD_STEPS
            &&& plan_ok(v, plan)
            &&& step == MAP_STEP ==> !(map_stage is Start)
            &&& step >= CONFIGURE_STEP ==> {
                &&& m.configured_at.len() > v.threads.len()
                &&& 0 <= m.configured_at[v.threads.len() as int] < v.trace.len()
                &&& is_configure_of(
                    v.trace[m.configured_at[v.threads.len() as int]],
                    plan.descriptor.tcb.slot,
                )
            }
        },
        Phase::Starting { resumed } => {
            &&& v.outstanding is Some
            &&& v.threads.len() == v.entries.len()
            &&& resumed < v.threads.len()
            &&& v.trace.len() == m.resume_from + resumed + 1
        },
        Phase::Done => {
            &&& v.threads.len() == v.entries.len()
            &&& v.trace.len() == m.resume_from + v.threads.len()
        },
        Phase::Failed(_) => true,
    }
}

/// The marks after `request` was handed out.
spec fn marks_after(v: SystemView, m: Marks, request: Request) -> Marks {
    Marks {
        resume_from: if request is TcbResume {
            m.resume_from
        } else {
            v.trace.len() as int + 1
        },
        configured_at: if request is TcbConfigure {
            m.configured_at.take(v.threads.len() as int).push(v.trace.len() as int)
        } else {
            m.configured_at
        },
    }
}

/// Handing out a request keeps the trace in order, where a resume comes only
/// after the whole batch is built and in the order in which it was built, and
/// anything else comes only before the first resume.
proof fn lemma_issue_keeps_history(v: SystemView, m: Marks, request: Request, phase: Phase)
    requires
        history_ok(v, m),
        registers_ok(v, request),
        request is TcbResume ==> {
            &&& v.threads.len() == v.entries.len()
            &&& v.trace.len() - m.resume_from < v.threads.len()
            &&& request == (Request::TcbResume {
                tcb: v.threads[v.trace.len() - m.resume_from].tcb.slot,
            })
        },
        !(request is TcbResume) ==> m.resume_from == v.trace.len(),
    ensures
        history_ok(issue_model(v, request, phase).0, marks_after(v, m, request)),
{
    let v2 = issue_model(v, request, phase).0;
    let m2 = marks_after(v, m, request);
    assert forall|i: int| 0 <= i < v2.trace.len() implies registers_ok(
        v2,
        #[trigger] v2.trace[i],
    ) by {
        if i < v.trace.len() {
            assert(v2.trace[i] == v.trace[i]);
            assert(registers_ok(v, v.trace[i]));
        }
    }
    assert forall|i: int| 0 <= i < m2.resume_from implies !((#[trigger] v2.trace[i]) is TcbResume) by {
        if i < v.trace.len() {
            assert(v2.trace[i] == v.trace[i]);
        }
    }
    assert forall|i: int| m2.resume_from <= i < v2.trace.len() implies {
        &&& i - m2.resume_from < v2.threads.len()
        &&& #[trigger] v2.trace[i] == (Request::TcbResume {
            tcb: v2.threads[i - m2.resume_from].tcb.slot,
        })
    } by {
        if i < v.trace.len() {
            assert(v2.trace[i] == v.trace[i]);
        }
    }
    assert forall|t: int| 0 <= t < v2.threads.len() implies {
        &&& 0 <= #[trigger] m2.configured_at[t] < m2.resume_from
        &&& is_configure_of(v2.trace[m2.configured_at[t]], v2.threads[t].tcb.slot)
    } by {
        assert(m2.configured_at[t] == m.configured_at[t]);
        assert(v2.trace[m.configured_at[t]] == v.trace[m.configured_at[t]]);
    }
}

/// Recording a thread that was configured keeps the registry and the trace in order.
proof fn lemma_record_keeps(v: SystemView, m: Marks, plan: ThreadPlan)
    requires
        registry_ok(v),
        history_ok(v, m),
        plan_ok(v, plan),
        m.resume_from == v.trace.len(),
        m.configured_at.len() > v.threads.len(),
        0 <= m.configured_at[v.threads.len() as int] < v.trace.len(),
        is_configure_of(v.trace[m.configured_at[v.threads.len() as int]], plan.descriptor.tcb.slot),
    ensures
        registry_ok(SystemView { threads: v.threads.push(plan.descriptor), ..v }),
        history_ok(SystemView { threads: v.threads.push(plan.descriptor), ..v }, m),
{
    let v2 = SystemView { threads: v.threads.push(plan.descriptor), ..v };
    let n = v.threads.len() as int;
    assert forall|t: int| 0 <= t < v2.threads.len() implies descriptor_ok(
        v2,
        #[trigger] v2.threads[t],
        t,
        v2.entries[t],
    ) by {
        if t < n {
            assert(v2.threads[t] == v.threads[t]);
            assert(descriptor_ok(v, v.threads[t], t, v.entries[t]));
        }
    }
    assert forall|i: int, j: int| 0 <= i < v2.threads.len() && 0 <= j < v2.threads.len() implies {
        &&& (#[trigger] v2.threads[i]).fault_badge != (#[trigger] v2.threads[j]).ipc_badge
        &&& i != j ==> v2.threads[i].fault_badge != v2.threads[j].fault_badge
        &&& i != j ==> v2.threads[i].ipc_badge != v2.threads[j].ipc_badge
    } by {
        if i < n {
            assert(v2.threads[i] == v.threads[i]);
        }
        if j < n {
            assert(v2.threads[j] == v.threads[j]);
        }
    }
    assert forall|i: int, j: int| 0 <= i < j < v2.threads.len() implies (
    #[trigger] v2.threads[i]).ipc_endpoint.slot < (#[trigger] v2.threads[j]).tcb.slot by {
        assert(v2.threads[i] == v.threads[i]);
        if j < n {
            assert(v2.threads[j] == v.threads[j]);
        }
    }
    assert forall|i: int| 0 <= i < v2.trace.len() implies registers_ok(
        v2,
        #[trigger] v2.trace[i],
    ) by {
        assert(registers_ok(v, v.trace[i]));
    }
    assert forall|t: int| 0 <= t < v2.threads.len() implies {
        &&& 0 <= #[trigger] m.configured_at[t] < m.resume_from
        &&& is_configure_of(v2.trace[m.configured_at[t]], v2.threads[t].tcb.slot)
    } by {
        if t < n {
            assert(v2.threads[t] == v.threads[t]);
        }
    }
}

/// Brings up a batch of threads and tells their fault badges from the rest.
pub struct InitSystem {
    bi_mngr: BootInfoManager,
    thread_infos: Vec<ThreadDescriptor>,
    stacks: StackArena,
    entries: Vec<ThreadSpec>,
    fault_ep: CPtr,
    phase: Phase,
    outstanding: Option<Request>,
    trace: Ghost<Seq<Request>>,
    marks: Ghost<Marks>,
}

impl View for InitSystem {
    type V = SystemView;

    closed spec fn view(&self) -> SystemView {
        SystemView {
            manager: self.bi_mngr@,
            stacks: self.stacks,
            threads: self.thread_infos@,
            entries: self.entries@,
            fault_ep: self.fault_ep,
            phase: self.phase,
            outstanding: self.outstanding,
            trace: self.trace@,
        }
    }
}

impl InitSystem {
    /// What every system holds to between calls: the registry is sound, and
    /// the trace shows that the threads were configured and resumed in order.
    pub closed spec fn wf(&self) -> bool {
        &&& registry_ok(self@)
        &&& history_ok(self@, self.marks@)
        &&& phase_ok(self@, self.marks@)
    }

    /// Index in the trace at which the first resume stands, or would stand.
    pub closed spec fn first_resume(&self) -> int {
        self.marks@.resume_from
    }

    /// Makes a system over the kernel's boot descriptor, for threads whose
    /// stacks lie in `stacks`. Nothing is asked of the kernel yet.
    pub fn new(bootinfo: BootInfo, platform: Platform, stacks: StackArena) -> (system: InitSystem)
        requires
            platform.wf(),
        ensures
            system.wf(),
            system@ == initial_view(bootinfo, platform, stacks),
    {
        InitSystem {
            bi_mngr: BootInfoManager::new(bootinfo, platform),
            thread_infos: Vec::new(),
            stacks,
            entries: Vec::new(),
            fault_ep: 0,
            phase: Phase::Idle,
            outstanding: None,
            trace: Ghost(Seq::empty()),
            marks: Ghost(Marks { resume_from: 0, configured_at: Seq::empty() }),
        }
    }

    /// Stops the bring-up with `error`.
    fn fail(&mut self, error: BootError) -> (action: Action)
        ensures
            final(self)@ == fail_model(old(self)@, error).0,
            action == fail_model(old(self)@, error).1,
            final(self).marks == old(self).marks,
    {
        self.phase = Phase::Failed(error);
        Action::Halt(error)
    }

    /// Hands out `request`, records it, and moves to `phase`.
    fn issue(&mut self, request: Request, phase: Phase) -> (action: Action)
        ensures
            final(self)@ == issue_model(old(self)@, request, phase).0,
            action == issue_model(old(self)@, request, phase).1,
            final(self).marks@ == marks_after(old(self)@, old(self).marks@, request),
    {
        proof {
            self.marks@ = marks_after(self@, self.marks@, request);
            self.trace@ = self.trace@.push(request);
        }
        self.phase = phase;
        self.outstanding = Some(request);
        Action::Perform(request)
    }

    /// Prepares the shared fault endpoint: the first untyped region that holds
    /// an endpoint and the next empty slot, with the request that retypes the
    /// endpoint into the slot. The slot is taken only where both are there.
    fn create_ep(&mut self) -> (created: Result<(CPtr, Request), BootError>)
        requires
            old(self)@.manager.platform.wf(),
        ensures
            created == create_ep_model(old(self)@.manager),
            final(self)@ == (SystemView {
                manager: if created is Ok {
                    old(self)@.manager.bump(1)
                } else {
                    old(self)@.manager
                },
                ..old(self)@
            }),
            final(self).marks == old(self).marks,
    {
        let platform: Platform = self.bi_mngr.platform();
        let untyped_cap: CPtr = match self.bi_mngr.get_untyped(None, platform.endpoint_bytes()) {
            Some(cap) => cap,
            None => {
                return Err(BootError::ResourceExhaustion(Resource::Untyped));
            },
        };
        let ep_cap: CPtr = match self.bi_mngr.get_next_free_cap_slot() {
            Some(cap) => cap,
            None => {
                return Err(BootError::ResourceExhaustion(Resource::CapSlot));
            },
        };
        let request: Request = self.bi_mngr.untyped_retype_root(
            untyped_cap,
            ObjectType::Endpoint,
            platform.endpoint_bits,
            ep_cap,
        );
        Ok((ep_cap, request))
    }

    /// Tells whether neither badge is carried by a thread built so far, and
    /// the two differ.
    fn badges_unused(&self, fault_badge: Word, ipc_badge: Word) -> (unused: bool)
        ensures
            unused == badges_free(self@.threads, fault_badge, ipc_badge),
    {
        if fault_badge == ipc_badge {
            return false;
        }
        let mut t: usize = 0;
        while t < self.thread_infos.len()
            invariant
                0 <= t <= self.thread_infos.len(),
                fault_badge != ipc_badge,
                forall|k: int|
                    0 <= k < t ==> {
                        &&& (#[trigger] self.thread_infos@[k]).fault_badge != fault_badge
                        &&& self.thread_infos@[k].fault_badge != ipc_badge
                        &&& self.thread_infos@[k].ipc_badge != fault_badge
                        &&& self.thread_infos@[k].ipc_badge != ipc_badge
                    },
            decreases self.thread_infos.len() - t,
        {
            let thread: &ThreadDescriptor = &self.thread_infos[t];
            if thread.fault_badge == fault_badge || thread.fault_badge == ipc_badge
                || thread.ipc_badge == fault_badge || thread.ipc_badge == ipc_badge {
                return false;
            }
            t = t + 1;
        }
        true
    }

    /// Prepares a thread without starting it, and without asking anything of
    /// the kernel yet.
    ///
    /// One untyped region is found for the thread's control block, the frame
    /// of its IPC buffer and its endpoint together. The badges must be new,
    /// and the stack must be at least the minimum, with its size and its top
    /// aligned to two machine words. Then five slots are taken. On any error
    /// nothing is taken and nothing changes.
    fn create_thread(
        &mut self,
        fault_ep_cap: CPtr,
        fault_ep_badge: Word,
        ipc_ep_badge: Word,
        ipc_buffer_vaddr: Word,
        run_fn_ipc_ep_cap: Option<CPtr>,
        run_fn: Word,
    ) -> (created: Result<ThreadPlan, BootError>)
        requires
            old(self)@.manager.platform.wf(),
        ensures
            created == create_thread_model(
                old(self)@.manager,
                old(self)@.stacks,
                old(self)@.threads,
                fault_ep_cap,
                fault_ep_badge,
                ipc_ep_badge,
                ipc_buffer_vaddr,
                run_fn_ipc_ep_cap,
                run_fn,
            ),
            final(self)@ == (SystemView {
                manager: if created is Ok {
                    old(self)@.manager.bump(SLOTS_PER_THREAD as nat)
                } else {
                    old(self)@.manager
                },
                ..old(self)@
            }),
            final(self).marks == old(self).marks,
    {
        let platform: Platform = self.bi_mngr.platform();
        let untyped_size_bytes: usize = platform.thread_bytes();
        let untyped_cap: CPtr = match self.bi_mngr.get_untyped(None, untyped_size_bytes) {
            Some(cap) => cap,
            None => {
                return Err(BootError::ResourceExhaustion(Resource::Untyped));
            },
        };
        if self.bi_mngr.free_slots() < SLOTS_PER_THREAD {
            return Err(BootError::ResourceExhaustion(Resource::CapSlot));
        }
        if !self.badges_unused(fault_ep_badge, ipc_ep_badge) {
            return Err(BootError::ConfigurationInvariantViolation(ConfigFault::BadgeInUse));
        }
        let stack_alignment_requirement: usize = platform.stack_alignment();
        if self.stacks.stack_size < MIN_STACK_SIZE {
            return Err(BootError::ConfigurationInvariantViolation(ConfigFault::StackTooSmall));
        }
        if self.stacks.stack_size % stack_alignment_requirement != 0 {
            return Err(
                BootError::ConfigurationInvariantViolation(ConfigFault::StackSizeMisaligned),
            );
        }
        let stack_top: Word = match self.stacks.top_of(self.thread_infos.len()) {
            Some(top) => top,
            None => {
                return Err(BootError::ResourceExhaustion(Resource::Stack));
            },
        };
        if stack_top % stack_alignment_requirement != 0 {
            return Err(
                BootError::ConfigurationInvariantViolation(ConfigFault::StackTopMisaligned),
            );
        }
        let tcb_cap: CPtr = self.bi_mngr.get_next_free_cap_slot().unwrap();
        let ipc_frame_cap: CPtr = self.bi_mngr.get_next_free_cap_slot().unwrap();
        let badged_fault_ep_cap: CPtr = self.bi_mngr.get_next_free_cap_slot().unwrap();
        let ipc_ep_cap: CPtr = self.bi_mngr.get_next_free_cap_slot().unwrap();
        let badged_ipc_ep_cap: CPtr = self.bi_mngr.get_next_free_cap_slot().unwrap();
        Ok(
            ThreadPlan {
                descriptor: ThreadDescriptor {
                    tcb: KernelObjectHandle { kind: ObjectType::Tcb, slot: tcb_cap },
                    fault_endpoint: KernelObjectHandle {
                        kind: ObjectType::Endpoint,
                        slot: badged_fault_ep_cap,
                    },
                    fault_badge: fault_ep_badge,
                    ipc_endpoint: KernelObjectHandle {
                        kind: ObjectType::Endpoint,
                        slot: badged_ipc_ep_cap,
                    },
                    ipc_badge: ipc_ep_badge,
                    ipc_buffer_vaddr,
                    stack_top,
                },
                untyped: untyped_cap,
                ipc_frame: ipc_frame_cap,
                ipc_object: ipc_ep_cap,
                fault_source: fault_ep_cap,
                entry: run_fn,
                argument: match run_fn_ipc_ep_cap {
                    Some(ipc_ep_arg) => ipc_ep_arg,
                    None => badged_ipc_ep_cap,
                },
            },
        )
    }

    /// The request of `step` in the building of `plan`; see [`thread_requests`].
    fn thread_request(&self, plan: &ThreadPlan, step: usize) -> (request: Request)
        requires
            step < THREAD_STEPS,
        ensures
            request == thread_requests(self@.manager, *plan)[step as int],
    {
        let platform: Platform = self.bi_mngr.platform();
        let cspace_cap: CPtr = self.bi_mngr.cspace_cap();
        let rights: CapRights = CapRights { grant: true, read: true, write: true };
        match step {
            0 => self.bi_mngr.untyped_retype_root(
                plan.untyped,
                ObjectType::Tcb,
                platform.tcb_bits,
                plan.descriptor.tcb.slot,
            ),
            1 => self.bi_mngr.untyped_retype_root(
                plan.untyped,
                ObjectType::SmallPage,
                platform.page_bits,
                plan.ipc_frame,
            ),
            2 => self.bi_mngr.untyped_retype_root(
                plan.untyped,
                ObjectType::Endpoint,
                platform.endpoint_bits,
                plan.ipc_object,
            ),
            3 => self.bi_mngr.page_map(plan.ipc_frame, plan.descriptor.ipc_buffer_vaddr),
            4 => Request::SetIpcBufferUserData {
                buffer: plan.descriptor.ipc_buffer_vaddr,
                value: plan.descriptor.ipc_buffer_vaddr,
            },
            5 => Request::CNodeMint {
                dest_root: cspace_cap,
                dest_index: plan.descriptor.fault_endpoint.slot,
                dest_depth: platform.word_bits,
                src_root: cspace_cap,
                src_index: plan.fault_source,
                src_depth: platform.word_bits,
                rights,
                badge: plan.descriptor.fault_badge,
            },
            6 => Request::CNodeMint {
                dest_root: cspace_cap,
                dest_index: plan.descriptor.ipc_endpoint.slot,
                dest_depth: platform.word_bits,
                src_root: cspace_cap,
                src_index: plan.ipc_object,
                src_depth: platform.word_bits,
                rights,
                badge: plan.descriptor.ipc_badge,
            },
            7 => Request::TcbConfigure {
                tcb: plan.descriptor.tcb.slot,
                fault_ep: plan.descriptor.fault_endpoint.slot,
                cspace_root: cspace_cap,
                cspace_root_data: NIL_DATA,
                vspace_root: self.bi_mngr.pd_cap(),
                vspace_root_data: NIL_DATA,
                buffer: plan.descriptor.ipc_buffer_vaddr,
                buffer_frame: plan.ipc_frame,
            },
            8 => Request::TcbWriteRegisters {
                tcb: plan.descriptor.tcb.slot,
                resume: false,
                arch_flags: 0,
                count: CONTEXT_REGISTERS,
                regs: UserContext {
                    pc: plan.entry,
                    sp: plan.descriptor.stack_top,
                    cpsr: 0,
                    r0: plan.argument,
                },
            },
            _ => Request::TcbSetPriority {
                tcb: plan.descriptor.tcb.slot,
                authority: platform.init_thread_tcb,
                priority: MAX_PRIORITY,
            },
        }
    }

    /// Stops the bring-up because the kernel refused the request under way.
    fn reject(&mut self, status: KernelStatus) -> (action: Action)
        requires
            old(self)@.outstanding is Some,
        ensures
            final(self)@ == reject_model(old(self)@, status).0,
            action == reject_model(old(self)@, status).1,
            final(self).marks == old(self).marks,
    {
        let request: Request = self.outstanding.unwrap();
        self.fail(BootError::KernelRejection { request, status })
    }

    /// The badged IPC endpoint of the first thread whose IPC badge is `badge`.
    fn find_peer(&self, badge: Word) -> (found: Option<CPtr>)
        ensures
            found == peer_endpoint(self@.threads, badge),
    {
        let mut t: usize = 0;
        while t < self.thread_infos.len()
            invariant
                0 <= t <= self.thread_infos.len(),
                peer_index_from(self.thread_infos@, badge, 0) == peer_index_from(
                    self.thread_infos@,
                    badge,
                    t as int,
                ),
            decreases self.thread_infos.len() - t,
        {
            if self.thread_infos[t].ipc_badge == badge {
                return Some(self.thread_infos[t].ipc_endpoint.slot);
            }
            t = t + 1;
        }
        None
    }

    /// The request that resumes the thread with ordinal `resumed`, where
    /// there is one. The threads are resumed in the order in which they were
    /// built.
    fn start_threads(&self, resumed: usize) -> (request: Option<Request>)
        ensures
            request == (if resumed < self@.threads.len() {
                Some(Request::TcbResume { tcb: self@.threads[resumed as int].tcb.slot })
            } else {
                None
            }),
    {
        if resumed < self.thread_infos.len() {
            Some(Request::TcbResume { tcb: self.thread_infos[resumed].tcb.slot })
        } else {
            None
        }
    }

    /// Resumes the next thread, or ends the bring-up where all are resumed.
    fn start(&mut self, resumed: usize) -> (action: Action)
        requires
            registry_ok(old(self)@),
            history_ok(old(self)@, old(self).marks@),
            old(self)@.threads.len() == old(self)@.entries.len(),
            resumed <= old(self)@.threads.len(),
            old(self)@.trace.len() == old(self).marks@.resume_from + resumed,
            old(self)@.trace.len() > 0,
        ensures
            final(self).wf(),
            final(self)@ == start_model(old(self)@, resumed as nat).0,
            action == start_model(old(self)@, resumed as nat).1,
    {
        match self.start_threads(resumed) {
            Some(request) => {
                proof {
                    lemma_issue_keeps_history(
                        self@,
                        self.marks@,
                        request,
                        Phase::Starting { resumed },
                    );
                }
                self.issue(request, Phase::Starting { resumed })
            },
            None => {
                self.phase = Phase::Done;
                Action::Done(self.fault_ep)
            },
        }
    }

    /// Begins the next thread of the batch, or starts the threads where the
    /// batch is built.
    fn next_thread(&mut self) -> (action: Action)
        requires
            registry_ok(old(self)@),
            history_ok(old(self)@, old(self).marks@),
            old(self).marks@.resume_from == old(self)@.trace.len(),
            old(self)@.trace.len() > 0,
        ensures
            final(self).wf(),
            final(self)@ == next_thread_model(old(self)@).0,
            action == next_thread_model(old(self)@).1,
    {
        let ordinal: usize = self.thread_infos.len();
        if ordinal >= self.entries.len() {
            return self.start(0);
        }
        let entry: ThreadSpec = self.entries[ordinal];
        let peer: Option<CPtr> = match entry.peer {
            None => None,
            Some(badge) => match self.find_peer(badge) {
                Some(cap) => Some(cap),
                None => {
                    return self.fail(
                        BootError::ConfigurationInvariantViolation(ConfigFault::UnknownPeer),
                    );
                },
            },
        };
        let fault_ep: CPtr = self.fault_ep;
        match self.create_thread(
            fault_ep,
            entry.fault_badge,
            entry.ipc_badge,
            entry.ipc_buffer_vaddr,
            peer,
            entry.entry,
        ) {
            Err(error) => self.fail(error),
            Ok(plan) => {
                let request: Request = self.thread_request(&plan, 0);
                let phase: Phase = Phase::Thread { plan, step: 0, map_stage: MapStage::Start };
                proof {
                    lemma_thread_requests(self@.manager, plan);
                    lemma_issue_keeps_history(self@, self.marks@, request, phase);
                }
                self.issue(request, phase)
            },
        }
    }

    /// Goes on building `plan` after the request of `step` came back.
    fn advance_thread(
        &mut self,
        plan: ThreadPlan,
        step: usize,
        map_stage: MapStage,
        status: KernelStatus,
    ) -> (action: Action)
        requires
            old(self).wf(),
            old(self)@.phase == (Phase::Thread { plan, step, map_stage }),
        ensures
            final(self).wf(),
            final(self)@ == thread_step_model(old(self)@, plan, step, map_stage, status).0,
            action == thread_step_model(old(self)@, plan, step, map_stage, status).1,
    {
        proof {
            lemma_thread_requests(self@.manager, plan);
        }
        if step == MAP_STEP {
            match self.bi_mngr.map_paddr(
                plan.untyped,
                plan.ipc_frame,
                plan.descriptor.ipc_buffer_vaddr,
                map_stage,
                status,
            ) {
                MapStep::Perform { request, next } => {
                    let phase: Phase = Phase::Thread { plan, step, map_stage: next };
                    proof {
                        lemma_issue_keeps_history(self@, self.marks@, request, phase);
                    }
                    self.issue(request, phase)
                },
                MapStep::Done { status: mapped } => {
                    if mapped != NO_ERROR {
                        self.reject(mapped)
                    } else {
                        let request: Request = self.thread_request(&plan, MAP_STEP + 1);
                        let phase: Phase = Phase::Thread { plan, step: MAP_STEP + 1, map_stage };
                        proof {
                            lemma_issue_keeps_history(self@, self.marks@, request, phase);
                        }
                        self.issue(request, phase)
                    }
                },
            }
        } else if status != NO_ERROR {
            self.reject(status)
        } else if step + 1 == MAP_STEP {
            let request: Request = self.thread_request(&plan, MAP_STEP);
            let phase: Phase = Phase::Thread { plan, step: MAP_STEP, map_stage: MapStage::FirstTry };
            proof {
                lemma_issue_keeps_history(self@, self.marks@, request, phase);
            }
            self.issue(request, phase)
        } else if step + 1 < THREAD_STEPS {
            let request: Request = self.thread_request(&plan, step + 1);
            let phase: Phase = Phase::Thread { plan, step: step + 1, map_stage };
            proof {
                lemma_issue_keeps_history(self@, self.marks@, request, phase);
            }
            self.issue(request, phase)
        } else {
            proof {
                lemma_record_keeps(self@, self.marks@, plan);
            }
            self.thread_infos.push(plan.descriptor);
            self.next_thread()
        }
    }

    /// Begins the bring-up of `entries`, in the order given.
    ///
    /// The shared fault endpoint is created first. Then each thread is built
    /// in turn; a thread that names a peer is handed the endpoint of that
    /// peer, which must have been built before it. When every thread is built
    /// and configured, all are resumed in the same order, and the answer is
    /// [`Action::Done`] with the shared fault endpoint.
    ///
    /// The answer is the first action. A system that was started before
    /// refuses and stays as it is.
    pub fn init(&mut self, entries: Vec<ThreadSpec>) -> (action: Action)
        requires
            old(self).wf(),
        ensures
            final(self).wf(),
            final(self)@ == init_model(old(self)@, entries@).0,
            action == init_model(old(self)@, entries@).1,
    {
        match self.phase {
            Phase::Idle => {},
            _ => {
                return Action::Halt(
                    BootError::ConfigurationInvariantViolation(ConfigFault::OutOfTurn),
                );
            },
        }
        self.entries = entries;
        match self.create_ep() {
            Err(error) => self.fail(error),
            Ok((ep_cap, request)) => {
                self.fault_ep = ep_cap;
                proof {
                    lemma_issue_keeps_history(self@, self.marks@, request, Phase::Endpoint);
                }
                self.issue(request, Phase::Endpoint)
            },
        }
    }

    /// Takes the status of the request that was handed out last, and answers
    /// with the next action.
    ///
    /// Any status but success stops the bring-up with
    /// [`BootError::KernelRejection`], which names the request; only the
    /// mapping of an IPC frame is tried once more, after a page table was
    /// added. Once the bring-up is done or stopped, the answer stays the same.
    pub fn advance(&mut self, status: KernelStatus) -> (action: Action)
        requires
            old(self).wf(),
        ensures
            final(self).wf(),
            final(self)@ == advance_model(old(self)@, status).0,
            action == advance_model(old(self)@, status).1,
    {
        match self.phase {
            Phase::Idle => Action::Halt(
                BootError::ConfigurationInvariantViolation(ConfigFault::OutOfTurn),
            ),
            Phase::Done => Action::Done(self.fault_ep),
            Phase::Failed(error) => Action::Halt(error),
            Phase::Endpoint => {
                if status != NO_ERROR {
                    self.reject(status)
                } else {
                    self.next_thread()
                }
            },
            Phase::Thread { plan, step, map_stage } => self.advance_thread(
                plan,
                step,
                map_stage,
                status,
            ),
            Phase::Starting { resumed } => {
                if status != NO_ERROR {
                    self.reject(status)
                } else {
                    assert(resumed < self.thread_infos.len());
                    self.start(resumed + 1)
                }
            },
        }
    }

    /// Says what `badge` stands for: the fault channel of a thread that was
    /// built, or an application channel.
    pub fn classify(&self, badge: Word) -> (kind: BadgeKind)
        ensures
            kind == classify_badge(self@.threads, badge),
            match kind {
                BadgeKind::Fault(t) => {
                    &&& t < self@.threads.len()
                    &&& self@.threads[t as int].fault_badge == badge
                    &&& forall|j: int| 0 <= j < t ==> (#[trigger] self@.threads[j]).fault_badge != badge
                },
                BadgeKind::Application => forall|j: int|
                    0 <= j < self@.threads.len() ==> (#[trigger] self@.threads[j]).fault_badge
                        != badge,
            },
    {
        proof {
            lemma_fault_index_from(self@.threads, badge, 0);
        }
        let mut t: usize = 0;
        while t < self.thread_infos.len()
            invariant
                0 <= t <= self.thread_infos.len(),
                fault_index_from(self.thread_infos@, badge, 0) == fault_index_from(
                    self.thread_infos@,
                    badge,
                    t as int,
                ),
            decreases self.thread_infos.len() - t,
        {
            if self.thread_infos[t].fault_badge == badge {
                proof {
                    lemma_fault_index_from(self@.threads, badge, 0);
                }
                return BadgeKind::Fault(t);
            }
            t = t + 1;
        }
        BadgeKind::Application
    }

    /// Tells whether `badge` is the fault badge of a thread that was built.
    pub fn is_fault(&self, badge: Word) -> (fault: bool)
        ensures
            fault == (classify_badge(self@.threads, badge) is Fault),
            fault <==> exists|t: int|
                0 <= t < self@.threads.len() && (#[trigger] self@.threads[t]).fault_badge == badge,
    {
        match self.classify(badge) {
            BadgeKind::Fault(_) => true,
            BadgeKind::Application => false,
        }
    }

    /// What is done about a fault that came with `badge`: it is reported
    /// with the thread it belongs to, and the kernel is asked to print its
    /// scheduler state. The thread that faulted is not resumed, and nothing
    /// is changed.
    pub fn handle_fault(&self, badge: Word) -> (report: FaultReport)
        ensures
            report == (FaultReport {
                badge,
                source: classify_badge(self@.threads, badge),
                request: Request::DebugDumpScheduler,
            }),
    {
        FaultReport { badge, source: self.classify(badge), request: Request::DebugDumpScheduler }
    }

    /// How far the bring-up has come.
    pub fn phase(&self) -> (phase: Phase)
        ensures
            phase == self@.phase,
    {
        self.phase
    }

    /// Number of threads that are built.
    pub fn thread_count(&self) -> (count: usize)
        ensures
            count == self@.threads.len(),
    {
        self.thread_infos.len()
    }

    /// The record of the thread with this ordinal, if it is built.
    pub fn thread(&self, ordinal: usize) -> (descriptor: Option<ThreadDescriptor>)
        ensures
            descriptor == (if ordinal < self@.threads.len() {
                Some(self@.threads[ordinal as int])
            } else {
                None
            }),
    {
        if ordinal < self.thread_infos.len() {
            Some(self.thread_infos[ordinal])
        } else {
            None
        }
    }
}

/// A badge alone tells the channels apart: no fault badge of a thread is the
/// IPC badge of that or any other thread, no two threads share a badge, and
/// classifying a badge that was minted gives the fault channel of its thread
/// for a fault badge and an application channel for an IPC badge.
pub proof fn lemma_badges_tell_channels_apart(system: InitSystem, i: int, j: int)
    requires
        system.wf(),
        0 <= i < system@.threads.len(),
        0 <= j < system@.threads.len(),
    ensures
        system@.threads[i].fault_badge != system@.threads[j].ipc_badge,
        i != j ==> system@.threads[i].fault_badge != system@.threads[j].fault_badge,
        i != j ==> system@.threads[i].ipc_badge != system@.threads[j].ipc_badge,
        classify_badge(system@.threads, system@.threads[i].fault_badge) == BadgeKind::Fault(
            i as usize,
        ),
        classify_badge(system@.threads, system@.threads[j].ipc_badge) == BadgeKind::Application,
{
    let threads = system@.threads;
    lemma_fault_index_from(threads, threads[i].fault_badge, 0);
    lemma_fault_index_from(threads, threads[j].ipc_badge, 0);
    assert(threads.len() == system.thread_infos@.len());
}

/// No capability of the registry is held twice: the slot kept for the page
/// table comes first, then the shared fault endpoint, then the capabilities
/// of each thread in the order in which the threads were built, and all of
/// them lie before the slot that is handed out next.
pub proof fn lemma_capabilities_apart(system: InitSystem, i: int, j: int)
    requires
        system.wf(),
        0 <= i < j < system@.threads.len(),
    ensures
        system@.manager.page_table_cap() < system@.fault_ep < system@.threads[i].tcb.slot,
        system@.threads[i].tcb.slot < system@.threads[i].fault_endpoint.slot
            < system@.threads[i].ipc_endpoint.slot < system@.threads[j].tcb.slot,
        system@.threads[j].tcb.slot < system@.threads[j].fault_endpoint.slot
            < system@.threads[j].ipc_endpoint.slot < system@.manager.bootinfo.empty.start
            + system@.manager.empty_used,
{
    let v = system@;
    assert(descriptor_ok(v, v.threads[i], i, v.entries[i]));
    assert(descriptor_ok(v, v.threads[j], j, v.entries[j]));
    assert(0 <= system.marks@.configured_at[i] < v.trace.len());
}

/// Every thread that is built has a stack of at least the minimum size whose
/// size and top are multiples of two machine words, and the stacks of two
/// threads do not overlap.
pub proof fn lemma_stacks_aligned_and_apart(system: InitSystem, i: int, j: int)
    requires
        system.wf(),
        0 <= i < j < system@.threads.len(),
    ensures
        system@.manager.platform.spec_stack_alignment() == 2 * (system@.manager.platform.word_bits
            / 8),
        stack_ok(system@.stacks, system@.manager.platform, system@.threads[i].stack_top as int),
        stack_ok(system@.stacks, system@.manager.platform, system@.threads[j].stack_top as int),
        system@.threads[i].stack_top <= system@.threads[j].stack_top - system@.stacks.stack_size,
{
    let v = system@;
    assert(descriptor_ok(v, v.threads[i], i, v.entries[i]));
    assert(descriptor_ok(v, v.threads[j], j, v.entries[j]));
    assert((i + 1) * v.stacks.stack_size <= j * v.stacks.stack_size) by (nonlinear_arith)
        requires
            i + 1 <= j,
            v.stacks.stack_size >= 0,
    ;
    assert((j + 1) * v.stacks.stack_size == j * v.stacks.stack_size + v.stacks.stack_size)
        by (nonlinear_arith);
}

/// No registers are ever written with a stack that is too small or not
/// aligned: every such request in the trace carries a stack pointer that is
/// a multiple of two machine words, into a stack of a valid size.
pub proof fn lemma_registers_have_valid_stack(system: InitSystem, i: int)
    requires
        system.wf(),
        0 <= i < system@.trace.len(),
        system@.trace[i] is TcbWriteRegisters,
    ensures
        system@.trace[i] matches Request::TcbWriteRegisters { regs, .. } && stack_ok(
            system@.stacks,
            system@.manager.platform,
            regs.sp as int,
        ),
{
    assert(registers_ok(system@, system@.trace[i]));
}

/// Bring-up order: when a thread is resumed, every thread of the batch is
/// built and its control block was configured earlier in the trace, and no
/// control block is configured after any resume.
pub proof fn lemma_resume_follows_configuration(system: InitSystem, j: int)
    requires
        system.wf(),
        0 <= j < system@.trace.len(),
        system@.trace[j] is TcbResume,
    ensures
        system@.threads.len() == system@.entries.len(),
        forall|t: int|
            0 <= t < system@.threads.len() ==> exists|i: int|
                0 <= i < j && is_configure_of(
                    #[trigger] system@.trace[i],
                    (#[trigger] system@.threads[t]).tcb.slot,
                ),
        forall|i: int|
            0 <= i < system@.trace.len() && (#[trigger] system@.trace[i]) is TcbConfigure ==> i < j,
{
    let v = system@;
    let m = system.marks@;
    assert(j >= m.resume_from) by {
        if j < m.resume_from {
            assert(!(v.trace[j] is TcbResume));
        }
    }
    assert forall|t: int| 0 <= t < v.threads.len() implies exists|i: int|
        0 <= i < j && is_configure_of(#[trigger] v.trace[i], (#[trigger] v.threads[t]).tcb.slot) by {
        let at = m.configured_at[t];
        assert(0 <= at < j && is_configure_of(v.trace[at], v.threads[t].tcb.slot));
    }
    assert forall|i: int| 0 <= i < v.trace.len() && (#[trigger] v.trace[i]) is TcbConfigure implies i
        < j by {
        if i >= m.resume_from {
            assert(v.trace[i] is TcbResume);
        }
    }
}

/// The threads are resumed in the order in which they were built: from the
/// first resume on, the trace holds nothing but resumes, the `k`-th of them
/// for the thread with ordinal `k`.
pub proof fn lemma_resumed_in_order(system: InitSystem, i: int)
    requires
        system.wf(),
        0 <= i < system@.trace.len(),
    ensures
        0 <= system.first_resume() <= system@.trace.len(),
        i < system.first_resume() ==> !(system@.trace[i] is TcbResume),
        i >= system.first_resume() ==> {
            &&& i - system.first_resume() < system@.threads.len()
            &&& system@.trace[i] == (Request::TcbResume {
                tcb: system@.threads[i - system.first_resume()].tcb.slot,
            })
        },
{
}

/// The bring-up ends: every request that is handed out leaves fewer requests
/// that can still follow, so that a batch of `n` threads takes `1 + 14 * n`
/// requests at most before the answer is that it is done or stopped.
pub proof fn lemma_bring_up_ends(system: InitSystem, entries: Seq<ThreadSpec>, status: KernelStatus)
    requires
        system.wf(),
    ensures
        init_model(system@, entries).1 is Perform ==> requests_left_in(
            init_model(system@, entries).0,
        ) == 14 * entries.len(),
        advance_model(system@, status).1 is Perform ==> requests_left_in(
            advance_model(system@, status).0,
        ) < requests_left_in(system@),
{
    let v = system@;
    match v.phase {
        Phase::Thread { plan, step, map_stage } => {
            lemma_map_retries_once(
                v.manager,
                plan.untyped,
                plan.ipc_frame,
                plan.descriptor.ipc_buffer_vaddr,
                map_stage,
                status,
            );
            if step != MAP_STEP && status == NO_ERROR && step + 1 >= THREAD_STEPS {
                lemma_next_thread_leaves_fewer(
                    SystemView { threads: v.threads.push(plan.descriptor), ..v },
                );
            }
        },
        Phase::Endpoint => {
            if status == NO_ERROR {
                lemma_next_thread_leaves_fewer(v);
            }
        },
        Phase::Starting { resumed } => {
            assert(v.threads.len() == system.thread_infos.len());
        },
        _ => {},
    }
}

/// Beginning the next thread, or starting the threads, leaves one request
/// fewer than the batch could still take before.
proof fn lemma_next_thread_leaves_fewer(v: SystemView)
    requires
        v.threads.len() <= v.entries.len(),
    ensures
        next_thread_model(v).1 is Perform ==> requests_left_in(next_thread_model(v).0) + 1 == 13 * (
        v.entries.len() - v.threads.len()) + v.entries.len(),
{
}

} // verus!
