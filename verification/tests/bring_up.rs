use root_bootstrap::bootinfo_manager::{BootInfo, SlotRegion, UntypedDesc};
use root_bootstrap::error::{BootError, ConfigFault, Resource};
use root_bootstrap::bring_up::{Action, Phase};
use root_bootstrap::init_system::InitSystem;
use root_bootstrap::ipc::session_entries;
use root_bootstrap::kernel::{
    CapRights, KernelObjectHandle, ObjectType, Request, UserContext,
};
use root_bootstrap::platform::Platform;
use root_bootstrap::thread::{
    BadgeKind, FaultReport, StackArena, ThreadDescriptor, ThreadSpec,
};
use root_bootstrap::{thread_a, thread_b};

fn arm() -> Platform {
    Platform {
        word_bits: 32,
        page_bits: 12,
        slot_bits: 4,
        tcb_bits: 9,
        endpoint_bits: 4,
        notification_bits: 4,
        page_table_bits: 10,
        init_thread_tcb: 1,
        init_thread_cnode: 2,
        init_thread_vspace: 3,
    }
}

fn bootinfo(empty_end: usize) -> BootInfo {
    BootInfo {
        empty: SlotRegion { start: 100, end: empty_end },
        untyped: SlotRegion { start: 50, end: 52 },
        untyped_list: vec![
            UntypedDesc { paddr: 0x1000, size_bits: 4, is_device: false },
            UntypedDesc { paddr: 0x10_0000, size_bits: 20, is_device: false },
        ],
    }
}

fn stacks() -> StackArena {
    StackArena { base: 0x2_0000, len: 0x2000, stack_size: 0x1000 }
}

fn system() -> InitSystem {
    InitSystem::new(bootinfo(200), arm(), stacks())
}

fn retype(untyped: usize, object_type: ObjectType, size_bits: usize, slot: usize) -> Request {
    Request::UntypedRetype {
        untyped,
        object_type,
        size_bits,
        root: 2,
        node_index: 2,
        node_depth: 32,
        node_offset: slot,
        num_objects: 1,
    }
}

fn page_map(frame: usize, vaddr: usize) -> Request {
    Request::PageMap {
        frame,
        vspace: 3,
        vaddr,
        rights: CapRights { grant: false, read: true, write: true },
        attributes: 0,
    }
}

fn mint(dest: usize, source: usize, badge: usize) -> Request {
    Request::CNodeMint {
        dest_root: 2,
        dest_index: dest,
        dest_depth: 32,
        src_root: 2,
        src_index: source,
        src_depth: 32,
        rights: CapRights { grant: true, read: true, write: true },
        badge,
    }
}

/// The requests that build one thread out of untyped 51 and five slots from `s` on.
fn thread_requests(
    s: usize,
    vaddr: usize,
    fault_badge: usize,
    ipc_badge: usize,
    entry: usize,
    stack_top: usize,
    argument: usize,
) -> Vec<Request> {
    vec![
        retype(51, ObjectType::Tcb, 9, s),
        retype(51, ObjectType::SmallPage, 12, s + 1),
        retype(51, ObjectType::Endpoint, 4, s + 3),
        page_map(s + 1, vaddr),
        Request::SetIpcBufferUserData { buffer: vaddr, value: vaddr },
        mint(s + 2, 101, fault_badge),
        mint(s + 4, s + 3, ipc_badge),
        Request::TcbConfigure {
            tcb: s,
            fault_ep: s + 2,
            cspace_root: 2,
            cspace_root_data: 0,
            vspace_root: 3,
            vspace_root_data: 0,
            buffer: vaddr,
            buffer_frame: s + 1,
        },
        Request::TcbWriteRegisters {
            tcb: s,
            resume: false,
            arch_flags: 0,
            count: 4,
            regs: UserContext { pc: entry, sp: stack_top, cpsr: 0, r0: argument },
        },
        Request::TcbSetPriority { tcb: s, authority: 1, priority: 255 },
    ]
}

/// Performs every request with the status that `kernel` gives for it, until
/// the system says that it is done or stopped.
fn drive(
    sys: &mut InitSystem,
    first: Action,
    mut kernel: impl FnMut(usize, &Request) -> u32,
) -> (Vec<Request>, Action) {
    let mut trace: Vec<Request> = Vec::new();
    let mut action = first;
    loop {
        match action {
            Action::Perform(request) => {
                let status = kernel(trace.len(), &request);
                trace.push(request);
                assert!(trace.len() < 1000, "the bring-up does not end");
                action = sys.advance(status);
            }
            end => return (trace, end),
        }
    }
}

fn is_configure(r: &Request) -> bool {
    matches!(r, Request::TcbConfigure { .. })
}

fn is_resume(r: &Request) -> bool {
    matches!(r, Request::TcbResume { .. })
}

fn is_write_registers(r: &Request) -> bool {
    matches!(r, Request::TcbWriteRegisters { .. })
}

fn spec(fault_badge: usize, ipc_badge: usize, vaddr: usize, peer: Option<usize>) -> ThreadSpec {
    ThreadSpec { fault_badge, ipc_badge, ipc_buffer_vaddr: vaddr, peer, entry: 0xC000 }
}

#[test]
fn session_batch_is_answering_thread_then_calling_thread() {
    let entries = session_entries(0xA000, 0xB000);
    assert_eq!(
        entries,
        vec![
            ThreadSpec {
                fault_badge: 0x0B,
                ipc_badge: 0x1B,
                ipc_buffer_vaddr: 0x0700_1000,
                peer: None,
                entry: 0xB000,
            },
            ThreadSpec {
                fault_badge: 0x0A,
                ipc_badge: 0x1A,
                ipc_buffer_vaddr: 0x0700_0000,
                peer: Some(0x1B),
                entry: 0xA000,
            },
        ]
    );
    assert_eq!(thread_a::thread_spec(0xA000), entries[1]);
    assert_eq!(thread_b::thread_spec(0xB000), entries[0]);
}

#[test]
fn bring_up_of_two_threads_makes_exactly_these_requests() {
    let mut sys = system();
    assert_eq!(sys.phase(), Phase::Idle);
    let first = sys.init(session_entries(0xA000, 0xB000));
    let (trace, end) = drive(&mut sys, first, |_, _| 0);

    let mut expected = vec![retype(50, ObjectType::Endpoint, 4, 101)];
    expected.extend(thread_requests(102, 0x0700_1000, 0x0B, 0x1B, 0xB000, 0x2_1000, 106));
    expected.extend(thread_requests(107, 0x0700_0000, 0x0A, 0x1A, 0xA000, 0x2_2000, 106));
    expected.push(Request::TcbResume { tcb: 102 });
    expected.push(Request::TcbResume { tcb: 107 });
    assert_eq!(trace, expected);
    assert_eq!(end, Action::Done(101));
    assert_eq!(sys.phase(), Phase::Done);
    // once done, the answer stays
    assert_eq!(sys.advance(0), Action::Done(101));
    assert_eq!(sys.advance(9), Action::Done(101));
}

#[test]
fn descriptors_are_kept_of_every_thread() {
    let mut sys = system();
    let first = sys.init(session_entries(0xA000, 0xB000));
    let _ = drive(&mut sys, first, |_, _| 0);
    assert_eq!(sys.thread_count(), 2);
    assert_eq!(
        sys.thread(0),
        Some(ThreadDescriptor {
            tcb: KernelObjectHandle { kind: ObjectType::Tcb, slot: 102 },
            fault_endpoint: KernelObjectHandle { kind: ObjectType::Endpoint, slot: 104 },
            fault_badge: 0x0B,
            ipc_endpoint: KernelObjectHandle { kind: ObjectType::Endpoint, slot: 106 },
            ipc_badge: 0x1B,
            ipc_buffer_vaddr: 0x0700_1000,
            stack_top: 0x2_1000,
        })
    );
    assert_eq!(
        sys.thread(1),
        Some(ThreadDescriptor {
            tcb: KernelObjectHandle { kind: ObjectType::Tcb, slot: 107 },
            fault_endpoint: KernelObjectHandle { kind: ObjectType::Endpoint, slot: 109 },
            fault_badge: 0x0A,
            ipc_endpoint: KernelObjectHandle { kind: ObjectType::Endpoint, slot: 111 },
            ipc_badge: 0x1A,
            ipc_buffer_vaddr: 0x0700_0000,
            stack_top: 0x2_2000,
        })
    );
    assert_eq!(sys.thread(2), None);
}

#[test]
fn every_configure_comes_before_every_resume() {
    let mut sys = system();
    let first = sys.init(session_entries(0xA000, 0xB000));
    let (trace, end) = drive(&mut sys, first, |_, _| 0);
    assert_eq!(end, Action::Done(101));
    let last_configure = trace.iter().rposition(is_configure).unwrap();
    let first_resume = trace.iter().position(is_resume).unwrap();
    assert!(last_configure < first_resume);
    assert_eq!(trace.iter().filter(|r| is_configure(r)).count(), 2);
    assert_eq!(trace.iter().filter(|r| is_resume(r)).count(), 2);
    // nothing but resumes once the first thread is resumed
    assert!(trace[first_resume..].iter().all(is_resume));
}

#[test]
fn a_thread_is_recorded_only_once_it_is_fully_built() {
    let mut sys = system();
    let mut action = sys.init(session_entries(0xA000, 0xB000));
    let mut performed = 0;
    // the endpoint and the ten requests of the first thread
    while performed < 11 {
        assert!(matches!(action, Action::Perform(_)));
        assert_eq!(sys.thread_count(), 0);
        action = sys.advance(0);
        performed += 1;
    }
    assert_eq!(sys.thread_count(), 1);
    assert!(sys.is_fault(0x0B));
    assert!(!sys.is_fault(0x0A));
}

#[test]
fn mapping_falls_back_in_the_middle_of_a_thread() {
    let mut sys = system();
    let first = sys.init(session_entries(0xA000, 0xB000));
    // the first attempt to map each IPC frame fails
    let mut maps_seen = 0;
    let (trace, end) = drive(&mut sys, first, |_, r| {
        if matches!(r, Request::PageMap { .. }) {
            maps_seen += 1;
            if maps_seen == 1 || maps_seen == 3 {
                return 6;
            }
        }
        0
    });
    assert_eq!(end, Action::Done(101));
    let mut b = thread_requests(102, 0x0700_1000, 0x0B, 0x1B, 0xB000, 0x2_1000, 106);
    let fallback_b = vec![
        retype(51, ObjectType::PageTable, 10, 100),
        Request::PageTableMap { table: 100, vspace: 3, vaddr: 0x0700_1000, attributes: 0 },
        page_map(103, 0x0700_1000),
    ];
    let tail = b.split_off(4);
    b.extend(fallback_b);
    b.extend(tail);
    assert_eq!(&trace[1..14], &b[..]);
    // the most that two threads can take: the endpoint, thirteen requests for
    // each thread, and a resume for each
    assert_eq!(trace.len(), 1 + 13 + 13 + 2);
    assert!(trace.len() <= 1 + 14 * 2);
    let last_configure = trace.iter().rposition(is_configure).unwrap();
    let first_resume = trace.iter().position(is_resume).unwrap();
    assert!(last_configure < first_resume);
}

#[test]
fn a_second_mapping_failure_stops_the_bring_up() {
    let mut sys = system();
    let first = sys.init(session_entries(0xA000, 0xB000));
    let (trace, end) = drive(&mut sys, first, |_, r| {
        if matches!(r, Request::PageMap { .. }) {
            6
        } else {
            0
        }
    });
    assert_eq!(
        end,
        Action::Halt(BootError::KernelRejection { request: page_map(103, 0x0700_1000), status: 6 })
    );
    // endpoint, three retypes, map, table retype, table map, map
    assert_eq!(trace.len(), 8);
    assert!(!trace.iter().any(is_resume));
    assert_eq!(sys.thread_count(), 0);
}

#[test]
fn a_failure_of_the_fallback_stops_with_its_own_request() {
    let mut sys = system();
    let first = sys.init(session_entries(0xA000, 0xB000));
    let (_, end) = drive(&mut sys, first, |_, r| match r {
        Request::PageMap { .. } => 6,
        Request::PageTableMap { .. } => 8,
        _ => 0,
    });
    assert_eq!(
        end,
        Action::Halt(BootError::KernelRejection {
            request: Request::PageTableMap {
                table: 100,
                vspace: 3,
                vaddr: 0x0700_1000,
                attributes: 0
            },
            status: 8,
        })
    );
}

#[test]
fn any_refusal_stops_the_bring_up_and_names_the_request() {
    // the full bring-up makes 23 requests; refuse each of them in turn
    for failing in 0..23 {
        let mut sys = system();
        let first = sys.init(session_entries(0xA000, 0xB000));
        let (trace, end) = drive(&mut sys, first, |k, _| if k == failing { 3 } else { 0 });
        let refused = trace[failing];
        if matches!(refused, Request::PageMap { .. }) {
            // a mapping is tried again after a page table was added
            assert_eq!(end, Action::Done(101));
            continue;
        }
        assert_eq!(trace.len(), failing + 1);
        assert_eq!(end, Action::Halt(BootError::KernelRejection { request: refused, status: 3 }));
        assert_eq!(sys.phase(), Phase::Failed(BootError::KernelRejection {
            request: refused,
            status: 3
        }));
        // once stopped, the answer stays
        assert_eq!(sys.advance(0), end);
    }
}

#[test]
fn an_empty_batch_only_creates_the_fault_endpoint() {
    let mut sys = system();
    let first = sys.init(Vec::new());
    let (trace, end) = drive(&mut sys, first, |_, _| 0);
    assert_eq!(trace, vec![retype(50, ObjectType::Endpoint, 4, 101)]);
    assert_eq!(end, Action::Done(101));
    assert_eq!(sys.thread_count(), 0);
}

#[test]
fn calls_out_of_turn_are_refused() {
    let out_of_turn =
        Action::Halt(BootError::ConfigurationInvariantViolation(ConfigFault::OutOfTurn));
    let mut sys = system();
    assert_eq!(sys.advance(0), out_of_turn);
    assert_eq!(sys.phase(), Phase::Idle);
    let first = sys.init(session_entries(0xA000, 0xB000));
    assert_eq!(first, Action::Perform(retype(50, ObjectType::Endpoint, 4, 101)));
    assert_eq!(sys.init(session_entries(0xA000, 0xB000)), out_of_turn);
    assert_eq!(sys.phase(), Phase::Endpoint);
    // the bring-up goes on as if nothing had happened
    assert_eq!(sys.advance(0), Action::Perform(retype(51, ObjectType::Tcb, 9, 102)));
}

#[test]
fn badges_tell_fault_channels_from_application_channels() {
    let mut sys = system();
    let first = sys.init(session_entries(0xA000, 0xB000));
    let _ = drive(&mut sys, first, |_, _| 0);
    assert_eq!(sys.classify(0x0B), BadgeKind::Fault(0));
    assert_eq!(sys.classify(0x0A), BadgeKind::Fault(1));
    assert_eq!(sys.classify(0x1A), BadgeKind::Application);
    assert_eq!(sys.classify(0x1B), BadgeKind::Application);
    assert_eq!(sys.classify(0x77), BadgeKind::Application);
    assert!(sys.is_fault(0x0A));
    assert!(sys.is_fault(0x0B));
    assert!(!sys.is_fault(0x1A));
    assert!(!sys.is_fault(0x1B));
    assert!(!sys.is_fault(0));
    // every badge that was minted falls in exactly one category
    for t in 0..sys.thread_count() {
        let d = sys.thread(t).unwrap();
        assert_eq!(sys.classify(d.fault_badge), BadgeKind::Fault(t));
        assert_eq!(sys.classify(d.ipc_badge), BadgeKind::Application);
    }
}

#[test]
fn a_badge_that_is_in_use_is_refused() {
    let in_use = Action::Halt(BootError::ConfigurationInvariantViolation(ConfigFault::BadgeInUse));
    let batches = vec![
        // fault badge equal to own IPC badge
        vec![spec(5, 5, 0x7000, None)],
        // fault badge of the second is the IPC badge of the first
        vec![spec(1, 2, 0x7000, None), spec(2, 3, 0x8000, None)],
        // IPC badge of the second is the fault badge of the first
        vec![spec(1, 2, 0x7000, None), spec(3, 1, 0x8000, None)],
        // same fault badge twice
        vec![spec(1, 2, 0x7000, None), spec(1, 3, 0x8000, None)],
        // same IPC badge twice
        vec![spec(1, 2, 0x7000, None), spec(3, 2, 0x8000, None)],
    ];
    for batch in batches {
        let mut sys = system();
        let first = sys.init(batch);
        let (trace, end) = drive(&mut sys, first, |_, _| 0);
        assert_eq!(end, in_use);
        assert!(!trace.iter().any(is_resume));
    }
}

#[test]
fn a_stack_that_is_too_small_or_misaligned_is_refused_before_any_request() {
    let cases = vec![
        (
            StackArena { base: 0x2_0000, len: 0x2000, stack_size: 504 },
            ConfigFault::StackTooSmall,
        ),
        (
            StackArena { base: 0x2_0000, len: 0x2000, stack_size: 0 },
            ConfigFault::StackTooSmall,
        ),
        (
            StackArena { base: 0x2_0000, len: 0x4000, stack_size: 4100 },
            ConfigFault::StackSizeMisaligned,
        ),
        (
            StackArena { base: 0x2_0004, len: 0x2000, stack_size: 0x1000 },
            ConfigFault::StackTopMisaligned,
        ),
    ];
    for (arena, fault) in cases {
        let mut sys = InitSystem::new(bootinfo(200), arm(), arena);
        let first = sys.init(session_entries(0xA000, 0xB000));
        let (trace, end) = drive(&mut sys, first, |_, _| 0);
        assert_eq!(end, Action::Halt(BootError::ConfigurationInvariantViolation(fault)));
        // only the fault endpoint was asked for
        assert_eq!(trace, vec![retype(50, ObjectType::Endpoint, 4, 101)]);
        assert!(!trace.iter().any(is_write_registers));
        assert_eq!(sys.thread_count(), 0);
    }
}

#[test]
fn the_smallest_stack_is_accepted() {
    let arena = StackArena { base: 0x2_0000, len: 1024, stack_size: 512 };
    let mut sys = InitSystem::new(bootinfo(200), arm(), arena);
    let first = sys.init(session_entries(0xA000, 0xB000));
    let (trace, end) = drive(&mut sys, first, |_, _| 0);
    assert_eq!(end, Action::Done(101));
    for r in trace.iter() {
        if let Request::TcbWriteRegisters { regs, .. } = r {
            assert_eq!(regs.sp % 8, 0);
        }
    }
    assert_eq!(sys.thread(0).unwrap().stack_top, 0x2_0200);
    assert_eq!(sys.thread(1).unwrap().stack_top, 0x2_0400);
}

#[test]
fn the_stack_arena_runs_out() {
    let arena = StackArena { base: 0x2_0000, len: 0x1fff, stack_size: 0x1000 };
    let mut sys = InitSystem::new(bootinfo(200), arm(), arena);
    let first = sys.init(session_entries(0xA000, 0xB000));
    let (trace, end) = drive(&mut sys, first, |_, _| 0);
    assert_eq!(end, Action::Halt(BootError::ResourceExhaustion(Resource::Stack)));
    // the first thread was built, the second was not begun
    assert_eq!(trace.len(), 11);
    assert_eq!(sys.thread_count(), 1);
    assert!(!trace.iter().any(is_resume));
}

#[test]
fn no_untyped_region_for_the_endpoint() {
    let empty = BootInfo {
        empty: SlotRegion { start: 100, end: 200 },
        untyped: SlotRegion { start: 50, end: 50 },
        untyped_list: Vec::new(),
    };
    let mut sys = InitSystem::new(empty, arm(), stacks());
    assert_eq!(
        sys.init(session_entries(0xA000, 0xB000)),
        Action::Halt(BootError::ResourceExhaustion(Resource::Untyped))
    );
    assert_eq!(sys.phase(), Phase::Failed(BootError::ResourceExhaustion(Resource::Untyped)));
}

#[test]
fn no_untyped_region_for_a_thread() {
    let small = BootInfo {
        empty: SlotRegion { start: 100, end: 200 },
        untyped: SlotRegion { start: 50, end: 52 },
        untyped_list: vec![
            UntypedDesc { paddr: 0x1000, size_bits: 4, is_device: false },
            // 4096 bytes: less than a control block, a page and an endpoint together
            UntypedDesc { paddr: 0x2000, size_bits: 12, is_device: false },
        ],
    };
    let mut sys = InitSystem::new(small, arm(), stacks());
    let first = sys.init(session_entries(0xA000, 0xB000));
    let (trace, end) = drive(&mut sys, first, |_, _| 0);
    assert_eq!(trace.len(), 1);
    assert_eq!(end, Action::Halt(BootError::ResourceExhaustion(Resource::Untyped)));
}

#[test]
fn no_slot_for_the_endpoint() {
    let mut sys = InitSystem::new(bootinfo(101), arm(), stacks());
    assert_eq!(
        sys.init(session_entries(0xA000, 0xB000)),
        Action::Halt(BootError::ResourceExhaustion(Resource::CapSlot))
    );
}

#[test]
fn a_thread_needs_five_slots() {
    // slots 101 (endpoint) and 102..=105: one short of a thread
    let mut sys = InitSystem::new(bootinfo(106), arm(), stacks());
    let first = sys.init(session_entries(0xA000, 0xB000));
    let (trace, end) = drive(&mut sys, first, |_, _| 0);
    assert_eq!(trace.len(), 1);
    assert_eq!(end, Action::Halt(BootError::ResourceExhaustion(Resource::CapSlot)));

    // slots 101 and 102..=106: exactly one thread
    let mut sys = InitSystem::new(bootinfo(107), arm(), stacks());
    let first = sys.init(session_entries(0xA000, 0xB000));
    let (trace, end) = drive(&mut sys, first, |_, _| 0);
    assert_eq!(trace.len(), 11);
    assert_eq!(end, Action::Halt(BootError::ResourceExhaustion(Resource::CapSlot)));
    assert_eq!(sys.thread_count(), 1);
}

#[test]
fn a_peer_must_be_built_before_the_thread_that_names_it() {
    // the calling thread first: its peer does not exist yet
    let mut sys = system();
    let first = sys.init(vec![thread_a::thread_spec(0xA000), thread_b::thread_spec(0xB000)]);
    let (trace, end) = drive(&mut sys, first, |_, _| 0);
    assert_eq!(
        end,
        Action::Halt(BootError::ConfigurationInvariantViolation(ConfigFault::UnknownPeer))
    );
    assert_eq!(trace, vec![retype(50, ObjectType::Endpoint, 4, 101)]);
    assert!(!trace.iter().any(is_resume));
    assert_eq!(sys.thread_count(), 0);
}

#[test]
fn a_thread_without_a_peer_is_handed_its_own_endpoint() {
    let mut sys = system();
    let first = sys.init(vec![spec(1, 2, 0x7000, None), spec(3, 4, 0x8000, Some(2))]);
    let (trace, end) = drive(&mut sys, first, |_, _| 0);
    assert_eq!(end, Action::Done(101));
    let arguments: Vec<usize> = trace
        .iter()
        .filter_map(|r| match r {
            Request::TcbWriteRegisters { regs, .. } => Some(regs.r0),
            _ => None,
        })
        .collect();
    // the first thread gets its own badged endpoint, the second that of the first
    assert_eq!(arguments, vec![106, 106]);
}

#[test]
fn a_fault_is_answered_with_a_scheduler_dump() {
    let mut sys = system();
    let first = sys.init(session_entries(0xA000, 0xB000));
    let _ = drive(&mut sys, first, |_, _| 0);
    assert_eq!(
        sys.handle_fault(0x0A),
        FaultReport {
            badge: 0x0A,
            source: BadgeKind::Fault(1),
            request: Request::DebugDumpScheduler
        }
    );
    assert_eq!(
        sys.handle_fault(0x1B),
        FaultReport {
            badge: 0x1B,
            source: BadgeKind::Application,
            request: Request::DebugDumpScheduler
        }
    );
    assert_eq!(sys.phase(), Phase::Done);
    assert_eq!(sys.thread_count(), 2);
}

#[test]
fn whatever_the_kernel_answers_the_order_holds_and_the_bring_up_ends() {
    let mut seed: u64 = 0x2545_F491_4F6C_DD1D;
    let mut done = 0;
    let mut stopped = 0;
    for _ in 0..2000 {
        let mut sys = system();
        let first = sys.init(session_entries(0xA000, 0xB000));
        let (trace, end) = drive(&mut sys, first, |_, _| {
            seed = seed.wrapping_mul(6364136223846793005).wrapping_add(1442695040888963407);
            // about one answer in sixteen is a refusal
            if (seed >> 33) % 16 == 0 {
                ((seed >> 40) % 10 + 1) as u32
            } else {
                0
            }
        });
        assert!(trace.len() <= 1 + 14 * 2);
        if let Some(first_resume) = trace.iter().position(is_resume) {
            assert_eq!(trace.iter().filter(|r| is_configure(r)).count(), 2);
            assert!(trace.iter().rposition(is_configure).unwrap() < first_resume);
            assert!(trace[first_resume..].iter().all(is_resume));
            assert_eq!(sys.thread_count(), 2);
        }
        for r in trace.iter() {
            if let Request::TcbWriteRegisters { regs, .. } = r {
                assert_eq!(regs.sp % 8, 0);
            }
        }
        match end {
            Action::Done(cap) => {
                assert_eq!(cap, 101);
                assert_eq!(trace.iter().filter(|r| is_resume(r)).count(), 2);
                done += 1;
            }
            Action::Halt(BootError::KernelRejection { request, status }) => {
                assert_eq!(Some(&request), trace.last());
                assert!(status != 0);
                assert_eq!(sys.advance(0), end);
                stopped += 1;
            }
            other => panic!("the bring-up ended with {:?}", other),
        }
    }
    assert!(done > 0);
    assert!(stopped > 0);
}
