use root_bootstrap::bootinfo_manager::{
    BootInfo, BootInfoManager, IoMapStage, IoMapStep, MapStage, MapStep, SlotRegion, UntypedDesc,
};
use root_bootstrap::kernel::{CapRights, ObjectType, Request};
use root_bootstrap::platform::Platform;

fn arm() -> Platform {
    Platform {
        word_bits: 32,
        page_bits: 12,
        slot_bits: 4,
        tcb_bits: 9,
        endpoint_bits: 4,
        notification_bits: 4,
        page_table_bits: 10,
        init_thread_tcb: 1,
        init_thread_cnode: 2,
        init_thread_vspace: 3,
    }
}

fn region(paddr: usize, size_bits: u8) -> UntypedDesc {
    UntypedDesc { paddr, size_bits, is_device: false }
}

fn manager(list: Vec<UntypedDesc>, empty: SlotRegion) -> BootInfoManager {
    let end = 50 + list.len();
    BootInfoManager::new(
        BootInfo { empty, untyped: SlotRegion { start: 50, end }, untyped_list: list },
        arm(),
    )
}

fn retype(untyped: usize, object_type: ObjectType, size_bits: usize, slot: usize) -> Request {
    Request::UntypedRetype {
        untyped,
        object_type,
        size_bits,
        root: 2,
        node_index: 2,
        node_depth: 32,
        node_offset: slot,
        num_objects: 1,
    }
}

fn page_map(frame: usize, vaddr: usize) -> Request {
    Request::PageMap {
        frame,
        vspace: 3,
        vaddr,
        rights: CapRights { grant: false, read: true, write: true },
        attributes: 0,
    }
}

#[test]
fn slots_are_strictly_increasing_and_distinct() {
    let mut m = manager(vec![region(0, 20)], SlotRegion { start: 100, end: 164 });
    let mut previous: Option<usize> = None;
    let mut seen: Vec<usize> = Vec::new();
    for _ in 0..63 {
        let slot = m.get_next_free_cap_slot().expect("a slot is left");
        if let Some(p) = previous {
            assert!(slot > p);
        }
        assert!(!seen.contains(&slot));
        seen.push(slot);
        previous = Some(slot);
    }
    assert_eq!(seen.len(), 63);
}

#[test]
fn first_slot_is_kept_for_the_page_table() {
    let mut m = manager(vec![region(0, 20)], SlotRegion { start: 100, end: 110 });
    assert_eq!(m.page_table_cap(), 100);
    assert_eq!(m.get_next_free_cap_slot(), Some(101));
    assert_eq!(m.get_next_free_cap_slot(), Some(102));
}

#[test]
fn slots_run_out_at_the_end_of_the_region() {
    let mut m = manager(vec![region(0, 20)], SlotRegion { start: 100, end: 103 });
    assert_eq!(m.free_slots(), 2);
    assert_eq!(m.get_next_free_cap_slot(), Some(101));
    assert_eq!(m.get_next_free_cap_slot(), Some(102));
    assert_eq!(m.free_slots(), 0);
    assert_eq!(m.get_next_free_cap_slot(), None);
    assert_eq!(m.get_next_free_cap_slot(), None);
}

#[test]
fn an_empty_slot_region_gives_nothing() {
    let mut m = manager(vec![region(0, 20)], SlotRegion { start: 100, end: 100 });
    assert_eq!(m.get_next_free_cap_slot(), None);
    let mut backwards = manager(vec![region(0, 20)], SlotRegion { start: 100, end: 90 });
    assert_eq!(backwards.free_slots(), 0);
    assert_eq!(backwards.get_next_free_cap_slot(), None);
}

#[test]
fn first_fit_takes_the_first_region_that_is_large_enough() {
    // capacities 16, 4, 1024
    let m = manager(
        vec![region(0x1000, 4), region(0x2000, 2), region(0x3000, 10)],
        SlotRegion { start: 100, end: 110 },
    );
    assert_eq!(m.get_untyped(None, 8), Some(50));
    assert_eq!(m.get_untyped(None, 16), Some(50));
    assert_eq!(m.get_untyped(None, 17), Some(52));
    assert_eq!(m.get_untyped(None, 1024), Some(52));
    assert_eq!(m.get_untyped(None, 1025), None);
    assert_eq!(m.get_untyped(None, 0), Some(50));
}

#[test]
fn first_fit_is_not_best_fit() {
    // capacities 1024, 16: the smaller region would do, the first one wins
    let m = manager(vec![region(0x1000, 10), region(0x2000, 4)], SlotRegion { start: 100, end: 110 });
    assert_eq!(m.get_untyped(None, 8), Some(50));
}

#[test]
fn a_physical_address_must_match_exactly() {
    let m = manager(
        vec![region(0x1000, 12), region(0x2000, 12), region(0x2000, 16)],
        SlotRegion { start: 100, end: 110 },
    );
    assert_eq!(m.get_untyped(Some(0x2000), 4096), Some(51));
    assert_eq!(m.get_untyped(Some(0x2000), 4097), Some(52));
    assert_eq!(m.get_untyped(Some(0x2001), 16), None);
    assert_eq!(m.get_untyped(Some(0x1000), 8192), None);
}

#[test]
fn only_regions_with_a_capability_are_searched() {
    let list = vec![region(0x1000, 4), region(0x2000, 12)];
    let short = BootInfoManager::new(
        BootInfo {
            empty: SlotRegion { start: 100, end: 110 },
            untyped: SlotRegion { start: 50, end: 51 },
            untyped_list: list,
        },
        arm(),
    );
    assert_eq!(short.get_untyped(None, 4096), None);
    let none = BootInfoManager::new(
        BootInfo {
            empty: SlotRegion { start: 100, end: 110 },
            untyped: SlotRegion { start: 50, end: 60 },
            untyped_list: Vec::new(),
        },
        arm(),
    );
    assert_eq!(none.get_untyped(None, 1), None);
}

#[test]
fn a_region_larger_than_the_address_space_holds_anything() {
    let m = manager(vec![region(0x1000, 4), region(0, 200)], SlotRegion { start: 100, end: 110 });
    assert_eq!(m.get_untyped(None, usize::MAX), Some(51));
}

#[test]
fn retype_request_names_the_root_task_cspace() {
    let m = manager(vec![region(0, 20)], SlotRegion { start: 100, end: 110 });
    assert_eq!(
        m.untyped_retype_root(50, ObjectType::Tcb, 9, 105),
        Request::UntypedRetype {
            untyped: 50,
            object_type: ObjectType::Tcb,
            size_bits: 9,
            root: 2,
            node_index: 2,
            node_depth: 32,
            node_offset: 105,
            num_objects: 1,
        }
    );
    assert_eq!(m.cspace_cap(), 2);
    assert_eq!(m.pd_cap(), 3);
    assert_eq!(m.platform(), arm());
}

#[test]
fn mapping_succeeds_directly() {
    let m = manager(vec![region(0, 20)], SlotRegion { start: 100, end: 110 });
    let first = m.map_paddr(50, 101, 0x7000, MapStage::Start, 0);
    assert_eq!(first, MapStep::Perform { request: page_map(101, 0x7000), next: MapStage::FirstTry });
    assert_eq!(m.map_paddr(50, 101, 0x7000, MapStage::FirstTry, 0), MapStep::Done { status: 0 });
}

#[test]
fn mapping_falls_back_on_a_page_table_once() {
    let m = manager(vec![region(0, 20)], SlotRegion { start: 100, end: 110 });
    let mut requests: Vec<Request> = Vec::new();
    let mut stage = MapStage::Start;
    // the first attempt fails, everything after it succeeds
    let statuses = [0u32, 6, 0, 0, 0];
    let mut k = 0;
    let end = loop {
        match m.map_paddr(50, 101, 0x7000, stage, statuses[k]) {
            MapStep::Perform { request, next } => {
                requests.push(request);
                stage = next;
                k += 1;
            }
            MapStep::Done { status } => break status,
        }
    };
    assert_eq!(end, 0);
    assert_eq!(
        requests,
        vec![
            page_map(101, 0x7000),
            retype(50, ObjectType::PageTable, 10, 100),
            Request::PageTableMap { table: 100, vspace: 3, vaddr: 0x7000, attributes: 0 },
            page_map(101, 0x7000),
        ]
    );
}

#[test]
fn mapping_gives_up_with_the_status_that_failed() {
    let m = manager(vec![region(0, 20)], SlotRegion { start: 100, end: 110 });
    assert_eq!(m.map_paddr(50, 101, 0x7000, MapStage::TableRetype, 10), MapStep::Done { status: 10 });
    assert_eq!(m.map_paddr(50, 101, 0x7000, MapStage::TableMap, 8), MapStep::Done { status: 8 });
    assert_eq!(m.map_paddr(50, 101, 0x7000, MapStage::SecondTry, 6), MapStep::Done { status: 6 });
    assert_eq!(m.map_paddr(50, 101, 0x7000, MapStage::SecondTry, 0), MapStep::Done { status: 0 });
}

#[test]
fn frame_cap_takes_a_slot_and_the_region_at_the_address() {
    let mut m = manager(
        vec![region(0x1000, 12), region(0x4000_0000, 12)],
        SlotRegion { start: 100, end: 110 },
    );
    assert_eq!(
        m.get_frame_cap(0x4000_0000, 12),
        Some((101, retype(51, ObjectType::SmallPage, 12, 101)))
    );
    // too large for the region at that address: the slot is taken all the same
    assert_eq!(m.get_frame_cap(0x4000_0000, 13), None);
    assert_eq!(m.get_next_free_cap_slot(), Some(103));
    // no region can hold two to the power of a thousand bytes
    assert_eq!(m.get_frame_cap(0x4000_0000, 1000), None);
}

#[test]
fn frame_cap_needs_a_slot() {
    let mut m = manager(vec![region(0x1000, 12)], SlotRegion { start: 100, end: 101 });
    assert_eq!(m.get_frame_cap(0x1000, 12), None);
}

#[test]
fn io_map_retypes_then_maps() {
    let mut m = manager(
        vec![region(0x1000, 20), region(0x4000_0000, 12)],
        SlotRegion { start: 100, end: 110 },
    );
    let step = m.io_map(50, 0x4000_0000, 0x9000, 12, IoMapStage::Start, 0);
    assert_eq!(
        step,
        IoMapStep::Perform {
            request: retype(51, ObjectType::SmallPage, 12, 101),
            next: IoMapStage::Retyping { frame: 101 },
        }
    );
    let step = m.io_map(50, 0x4000_0000, 0x9000, 12, IoMapStage::Retyping { frame: 101 }, 0);
    assert_eq!(
        step,
        IoMapStep::Perform {
            request: page_map(101, 0x9000),
            next: IoMapStage::Mapping { frame: 101, stage: MapStage::FirstTry },
        }
    );
    let step = m.io_map(
        50,
        0x4000_0000,
        0x9000,
        12,
        IoMapStage::Mapping { frame: 101, stage: MapStage::FirstTry },
        3,
    );
    assert_eq!(
        step,
        IoMapStep::Perform {
            request: retype(50, ObjectType::PageTable, 10, 100),
            next: IoMapStage::Mapping { frame: 101, stage: MapStage::TableRetype },
        }
    );
    let step = m.io_map(
        50,
        0x4000_0000,
        0x9000,
        12,
        IoMapStage::Mapping { frame: 101, stage: MapStage::SecondTry },
        0,
    );
    assert_eq!(step, IoMapStep::Done { status: 0 });
    // only the first step took a slot
    assert_eq!(m.get_next_free_cap_slot(), Some(102));
}

#[test]
fn io_map_without_a_frame() {
    let mut m = manager(vec![region(0x1000, 20)], SlotRegion { start: 100, end: 110 });
    assert_eq!(m.io_map(50, 0x5000, 0x9000, 12, IoMapStage::Start, 0), IoMapStep::NoFrame);
    assert_eq!(
        m.io_map(50, 0x1000, 0x9000, 12, IoMapStage::Retyping { frame: 102 }, 7),
        IoMapStep::NoFrame
    );
}
