//! The boot-time inventory and what is carved out of it: the list of untyped
//! regions, the cursor over the empty capability slots, and the requests that
//! retype untyped memory and map frames.

use vstd::prelude::*;
use vstd::arithmetic::power2::{pow2, lemma_pow2_strictly_increases};
use vstd::layout::unsigned_int_max_values;
use crate::kernel::{
    CPtr, CapRights, KernelStatus, ObjectType, Request, Word, NO_CACHE_ATTRIBUTES, NO_ERROR,
    read_write,
};
use crate::platform::{Platform, pow2_usize};

verus! {

/// A half-open range `[start, end)` of capability slots.
#[derive(Clone, Copy, Debug, PartialEq, Eq, Structural)]
pub struct SlotRegion {
    pub start: CPtr,
    pub end: CPtr,
}

/// What the kernel reports of one untyped region.
#[derive(Clone, Copy, Debug, PartialEq, Eq, Structural)]
pub struct UntypedDesc {
    /// Physical address of the region.
    pub paddr: Word,
    /// log2 of the size of the region in bytes.
    pub size_bits: u8,
    /// Whether the region is device memory.
    pub is_device: bool,
}

/// The part of the kernel's boot descriptor that the bootstrap reads.
#[derive(Debug)]
pub struct BootInfo {
    /// The empty capability slots.
    pub empty: SlotRegion,
    /// The slots that hold the untyped capabilities.
    pub untyped: SlotRegion,
    /// One descriptor per untyped capability, in slot order.
    pub untyped_list: Vec<UntypedDesc>,
}

impl SlotRegion {
    /// Number of slots in the region; a region whose end lies before its start is empty.
    pub open spec fn spec_len(&self) -> nat {
        if self.start <= self.end {
            (self.end - self.start) as nat
        } else {
            0
        }
    }

    /// Number of slots in the region.
    pub fn len(&self) -> (n: usize)
        ensures
            n == self.spec_len(),
    {
        if self.start <= self.end {
            self.end - self.start
        } else {
            0
        }
    }
}

impl UntypedDesc {
    /// Bytes of memory in the region.
    pub open spec fn capacity(&self) -> nat {
        pow2(self.size_bits as nat)
    }

    /// The region holds at least `need` bytes and, where an address is asked
    /// for, starts exactly there.
    pub open spec fn fits(&self, paddr: Option<Word>, need: nat) -> bool {
        &&& self.capacity() >= need
        &&& match paddr {
            Some(wanted) => self.paddr == wanted,
            None => true,
        }
    }
}

/// Index of the first region from `from` on that fits, in list order.
pub open spec fn first_fit_from(
    inventory: Seq<UntypedDesc>,
    paddr: Option<Word>,
    need: nat,
    from: int,
) -> Option<int>
    decreases inventory.len() - from,
{
    if from < 0 || from >= inventory.len() {
        None
    } else if inventory[from].fits(paddr, need) {
        Some(from)
    } else {
        first_fit_from(inventory, paddr, need, from + 1)
    }
}

/// Index of the first region of the inventory that fits.
pub open spec fn first_fit(inventory: Seq<UntypedDesc>, paddr: Option<Word>, need: nat) -> Option<
    int,
> {
    first_fit_from(inventory, paddr, need, 0)
}

/// The search is first-fit: the index it gives is that of a region that fits,
/// no region before it fits, and it gives none only where no region fits.
pub proof fn lemma_first_fit_from(
    inventory: Seq<UntypedDesc>,
    paddr: Option<Word>,
    need: nat,
    from: int,
)
    requires
        0 <= from,
    ensures
        match first_fit_from(inventory, paddr, need, from) {
            Some(i) => {
                &&& from <= i < inventory.len()
                &&& inventory[i].fits(paddr, need)
                &&& forall|j: int| from <= j < i ==> !(#[trigger] inventory[j]).fits(paddr, need)
            },
            None => forall|j: int|
                from <= j < inventory.len() ==> !(#[trigger] inventory[j]).fits(paddr, need),
        },
    decreases inventory.len() - from,
{
    if from < inventory.len() && !inventory[from].fits(paddr, need) {
        lemma_first_fit_from(inventory, paddr, need, from + 1);
    }
}

/// How much memory a search asks for.
#[derive(Clone, Copy)]
enum Need {
    /// That many bytes.
    Bytes(usize),
    /// Two to that power, in bytes.
    Pow2(usize),
}

impl Need {
    /// The number of bytes asked for.
    spec fn bytes(&self) -> nat {
        match *self {
            Need::Bytes(n) => n as nat,
            Need::Pow2(bits) => pow2(bits as nat),
        }
    }
}

/// Where a frame mapping stands: which request, if any, is under way.
#[derive(Clone, Copy, Debug, PartialEq, Eq, Structural)]
pub enum MapStage {
    /// Nothing was asked yet.
    Start,
    /// The frame is being mapped directly.
    FirstTry,
    /// The page table is being retyped.
    TableRetype,
    /// The page table is being mapped.
    TableMap,
    /// The frame is being mapped again, now that the page table is there.
    SecondTry,
}

/// What a frame mapping does next.
#[derive(Clone, Copy, Debug, PartialEq, Eq, Structural)]
pub enum MapStep {
    /// Perform `request`, then go on at stage `next` with its status.
    Perform { request: Request, next: MapStage },
    /// The mapping is over; `status` is success or what the kernel refused with.
    Done { status: KernelStatus },
}

/// Where a device mapping stands.
#[derive(Clone, Copy, Debug, PartialEq, Eq, Structural)]
pub enum IoMapStage {
    /// Nothing was asked yet.
    Start,
    /// The frame is being retyped into slot `frame`.
    Retyping { frame: CPtr },
    /// The frame in slot `frame` is being mapped.
    Mapping { frame: CPtr, stage: MapStage },
}

/// What a device mapping does next.
#[derive(Clone, Copy, Debug, PartialEq, Eq, Structural)]
pub enum IoMapStep {
    /// Perform `request`, then go on at stage `next` with its status.
    Perform { request: Request, next: IoMapStage },
    /// The mapping is over; `status` is success or what the kernel refused with.
    Done { status: KernelStatus },
    /// No frame capability could be had: no slot or no region was left, or
    /// the kernel refused to retype the frame.
    NoFrame,
}

/// A step of a frame mapping, as a step of the device mapping it belongs to.
pub open spec fn lift_map_step(step: MapStep, frame: CPtr) -> IoMapStep {
    match step {
        MapStep::Perform { request, next } => IoMapStep::Perform {
            request,
            next: IoMapStage::Mapping { frame, stage: next },
        },
        MapStep::Done { status } => IoMapStep::Done { status },
    }
}

/// What the manager is, as far as its contracts speak of it.
pub struct ManagerView {
    pub bootinfo: BootInfo,
    pub platform: Platform,
    /// Number of empty slots handed out so far, the reserved first one included.
    pub empty_used: usize,
}

impl BootInfo {
    /// The regions that have both a capability and a descriptor, in order.
    pub open spec fn inventory(&self) -> Seq<UntypedDesc> {
        if self.untyped.spec_len() <= self.untyped_list@.len() {
            self.untyped_list@.take(self.untyped.spec_len() as int)
        } else {
            self.untyped_list@
        }
    }
}

impl ManagerView {
    /// Root of the capability space into which objects are placed.
    pub open spec fn cspace_cap(&self) -> CPtr {
        self.platform.init_thread_cnode
    }

    /// Root of the address space into which frames are mapped.
    pub open spec fn pd_cap(&self) -> CPtr {
        self.platform.init_thread_vspace
    }

    /// The slot kept back for the page table that a mapping may need.
    pub open spec fn page_table_cap(&self) -> CPtr {
        self.bootinfo.empty.start
    }

    /// The slot that the next allocation gives, if one is left.
    pub open spec fn next_slot(&self) -> Option<CPtr> {
        if self.empty_used < self.bootinfo.empty.spec_len() {
            Some((self.bootinfo.empty.start + self.empty_used) as usize)
        } else {
            None
        }
    }

    /// The manager after `n` more slots were handed out.
    pub open spec fn bump(&self, n: nat) -> ManagerView {
        ManagerView { empty_used: (self.empty_used + n) as usize, ..*self }
    }

    /// The manager after one more call of the slot allocator.
    pub open spec fn after_allocation(&self) -> ManagerView {
        if self.next_slot() is Some {
            self.bump(1)
        } else {
            *self
        }
    }

    /// The manager after `n` more calls of the slot allocator.
    pub open spec fn after_allocations(&self, n: nat) -> ManagerView
        decreases n,
    {
        if n == 0 {
            *self
        } else {
            self.after_allocations((n - 1) as nat).after_allocation()
        }
    }

    /// The capability of the first untyped region that fits.
    pub open spec fn find_untyped(&self, paddr: Option<Word>, need: nat) -> Option<CPtr> {
        match first_fit(self.bootinfo.inventory(), paddr, need) {
            Some(i) => Some((self.bootinfo.untyped.start + i) as usize),
            None => None,
        }
    }

    /// The request that retypes one object out of `untyped_cap` into `slot_cap`.
    pub open spec fn retype_request(
        &self,
        untyped_cap: CPtr,
        obj_type: ObjectType,
        size_bits: usize,
        slot_cap: CPtr,
    ) -> Request {
        Request::UntypedRetype {
            untyped: untyped_cap,
            object_type: obj_type,
            size_bits,
            root: self.cspace_cap(),
            node_index: self.cspace_cap(),
            node_depth: self.platform.word_bits,
            node_offset: slot_cap,
            num_objects: 1,
        }
    }

    /// The request that maps `frame_cap` at `vaddr`.
    pub open spec fn page_map_request(&self, frame_cap: CPtr, vaddr: Word) -> Request {
        Request::PageMap {
            frame: frame_cap,
            vspace: self.pd_cap(),
            vaddr,
            rights: read_write(),
            attributes: NO_CACHE_ATTRIBUTES,
        }
    }

    /// The request that maps the reserved page table at `vaddr`.
    pub open spec fn page_table_map_request(&self, vaddr: Word) -> Request {
        Request::PageTableMap {
            table: self.page_table_cap(),
            vspace: self.pd_cap(),
            vaddr,
            attributes: NO_CACHE_ATTRIBUTES,
        }
    }

    /// What a frame mapping does at `stage` when the request under way came
    /// back with `status`.
    pub open spec fn map_step(
        &self,
        untyped_cap: CPtr,
        frame_cap: CPtr,
        vaddr: Word,
        stage: MapStage,
        status: KernelStatus,
    ) -> MapStep {
        match stage {
            MapStage::Start => MapStep::Perform {
                request: self.page_map_request(frame_cap, vaddr),
                next: MapStage::FirstTry,
            },
            MapStage::FirstTry => if status == NO_ERROR {
                MapStep::Done { status: NO_ERROR }
            } else {
                MapStep::Perform {
                    request: self.retype_request(
                        untyped_cap,
                        ObjectType::PageTable,
                        self.platform.page_table_bits,
                        self.page_table_cap(),
                    ),
                    next: MapStage::TableRetype,
                }
            },
            MapStage::TableRetype => if status != NO_ERROR {
                MapStep::Done { status }
            } else {
                MapStep::Perform {
                    request: self.page_table_map_request(vaddr),
                    next: MapStage::TableMap,
                }
            },
            MapStage::TableMap => if status != NO_ERROR {
                MapStep::Done { status }
            } else {
                MapStep::Perform {
                    request: self.page_map_request(frame_cap, vaddr),
                    next: MapStage::SecondTry,
                }
            },
            MapStage::SecondTry => MapStep::Done { status },
        }
    }

    /// The slot and the retype request for a frame over the memory at `paddr`.
    pub open spec fn frame_cap(&self, paddr: Word, size_bits: usize) -> Option<(CPtr, Request)> {
        match (self.next_slot(), self.find_untyped(Some(paddr), pow2(size_bits as nat))) {
            (Some(slot), Some(untyped_cap)) => Some(
                (slot, self.retype_request(untyped_cap, ObjectType::SmallPage, size_bits, slot)),
            ),
            _ => None,
        }
    }

    /// What a device mapping does at `stage` when the request under way came
    /// back with `status`.
    pub open spec fn io_map_step(
        &self,
        untyped_cap: CPtr,
        paddr: Word,
        vaddr: Word,
        size_bits: usize,
        stage: IoMapStage,
        status: KernelStatus,
    ) -> IoMapStep {
        match stage {
            IoMapStage::Start => match self.frame_cap(paddr, size_bits) {
                Some((frame, request)) => IoMapStep::Perform {
                    request,
                    next: IoMapStage::Retyping { frame },
                },
                None => IoMapStep::NoFrame,
            },
            IoMapStage::Retyping { frame } => if status != NO_ERROR {
                IoMapStep::NoFrame
            } else {
                lift_map_step(
                    self.map_step(untyped_cap, frame, vaddr, MapStage::Start, status),
                    frame,
                )
            },
            IoMapStage::Mapping { frame, stage } => lift_map_step(
                self.map_step(untyped_cap, frame, vaddr, stage, status),
                frame,
            ),
        }
    }
}

/// How many requests a frame mapping can still make from a stage on.
pub open spec fn requests_left(stage: MapStage) -> nat {
    match stage {
        MapStage::Start => 4,
        MapStage::FirstTry => 3,
        MapStage::TableRetype => 2,
        MapStage::TableMap => 1,
        MapStage::SecondTry => 0,
    }
}

/// A frame mapping retries once and no more: every request brings it a stage
/// closer to its end, so that it makes four requests at most, and after the
/// second attempt to map the frame it ends with the status of that attempt.
/// It ends with success only where the frame was mapped.
pub proof fn lemma_map_retries_once(
    manager: ManagerView,
    untyped_cap: CPtr,
    frame_cap: CPtr,
    vaddr: Word,
    stage: MapStage,
    status: KernelStatus,
)
    ensures
        match manager.map_step(untyped_cap, frame_cap, vaddr, stage, status) {
            MapStep::Perform { request, next } => {
                &&& requests_left(next) < requests_left(stage)
                &&& !(next is Start)
                &&& !(stage is SecondTry)
                &&& request is PageMap || request is PageTableMap || request is UntypedRetype
            },
            MapStep::Done { status: end } => {
                &&& !(stage is Start)
                &&& end == status
                &&& end == NO_ERROR ==> stage is FirstTry || stage is SecondTry
            },
        },
{
}

/// Slot allocation only ever moves forward: of two successful calls, the later
/// one gives the larger slot, so no slot is given twice.
pub proof fn lemma_slots_strictly_increase(manager: ManagerView, i: nat, j: nat)
    requires
        i < j,
        manager.after_allocations(j).next_slot() is Some,
    ensures
        manager.after_allocations(i).next_slot() is Some,
        manager.after_allocations(i).next_slot().unwrap() < manager.after_allocations(
            j,
        ).next_slot().unwrap(),
{
    lemma_allocations(manager, i);
    lemma_allocations(manager, j);
}

/// After `n` calls the cursor has moved by `n`, or by as many slots as were left.
proof fn lemma_allocations(manager: ManagerView, n: nat)
    ensures
        manager.after_allocations(n).bootinfo == manager.bootinfo,
        manager.after_allocations(n).platform == manager.platform,
        manager.empty_used + n <= manager.bootinfo.empty.spec_len() ==> manager.after_allocations(
            n,
        ).empty_used == manager.empty_used + n,
        manager.empty_used + n > manager.bootinfo.empty.spec_len() ==> manager.after_allocations(
            n,
        ).empty_used >= manager.bootinfo.empty.spec_len(),
        manager.after_allocations(n).empty_used >= manager.empty_used,
    decreases n,
{
    if n > 0 {
        lemma_allocations(manager, (n - 1) as nat);
    }
}

/// Keeps the boot descriptor and hands out slots, untyped regions and requests.
pub struct BootInfoManager {
    bootinfo: BootInfo,
    platform: Platform,
    empty_used: usize,
}

impl View for BootInfoManager {
    type V = ManagerView;

    closed spec fn view(&self) -> ManagerView {
        ManagerView {
            bootinfo: self.bootinfo,
            platform: self.platform,
            empty_used: self.empty_used,
        }
    }
}

impl BootInfoManager {
    /// Takes over the boot descriptor. The first empty slot is kept back for a
    /// page table, so allocation starts at the second.
    pub fn new(bootinfo: BootInfo, platform: Platform) -> (manager: BootInfoManager)
        ensures
            manager@ == (ManagerView { bootinfo, platform, empty_used: 1 }),
    {
        BootInfoManager { bootinfo, platform, empty_used: 1 }
    }

    /// The architecture constants the manager was made with.
    pub fn platform(&self) -> (platform: Platform)
        ensures
            platform == self@.platform,
    {
        self.platform
    }

    /// Root of the capability space into which objects are placed.
    pub fn cspace_cap(&self) -> (cap: CPtr)
        ensures
            cap == self@.cspace_cap(),
    {
        self.platform.init_thread_cnode
    }

    /// Root of the address space into which frames are mapped.
    pub fn pd_cap(&self) -> (cap: CPtr)
        ensures
            cap == self@.pd_cap(),
    {
        self.platform.init_thread_vspace
    }

    /// The slot kept back for the page table that a mapping may need.
    pub fn page_table_cap(&self) -> (cap: CPtr)
        ensures
            cap == self@.page_table_cap(),
    {
        self.bootinfo.empty.start
    }

    /// Number of slots the next allocations can still give.
    pub fn free_slots(&self) -> (n: usize)
        ensures
            n == (if self@.empty_used < self@.bootinfo.empty.spec_len() {
                self@.bootinfo.empty.spec_len() - self@.empty_used
            } else {
                0
            }),
    {
        let total: usize = self.bootinfo.empty.len();
        if self.empty_used < total {
            total - self.empty_used
        } else {
            0
        }
    }

    /// Gives the next empty slot and moves the cursor past it. Gives `None`,
    /// and changes nothing, when the empty slots are used up.
    pub fn get_next_free_cap_slot(&mut self) -> (slot: Option<CPtr>)
        ensures
            slot == old(self)@.next_slot(),
            final(self)@ == old(self)@.after_allocation(),
            slot is Some ==> final(self)@.empty_used == old(self)@.empty_used + 1,
            slot is Some && final(self)@.next_slot() is Some
                ==> slot.unwrap() < final(self)@.next_slot().unwrap(),
    {
        let total: usize = self.bootinfo.empty.len();
        if self.empty_used < total {
            let offset: usize = self.empty_used;
            self.empty_used = offset + 1;
            Some(self.bootinfo.empty.start + offset)
        } else {
            None
        }
    }

    /// Tells whether `desc` holds the memory that `need` asks for.
    fn holds(desc: &UntypedDesc, need: Need) -> (enough: bool)
        ensures
            enough == (desc.capacity() >= need.bytes()),
    {
        let bits: usize = desc.size_bits as usize;
        match need {
            Need::Bytes(n) => {
                if bits >= usize::BITS as usize {
                    proof {
                        unsigned_int_max_values();
                        if bits > usize::BITS {
                            lemma_pow2_strictly_increases(usize::BITS as nat, bits as nat);
                        }
                    }
                    true
                } else {
                    pow2_usize(bits) >= n
                }
            },
            Need::Pow2(wanted) => {
                proof {
                    if bits < wanted {
                        lemma_pow2_strictly_increases(bits as nat, wanted as nat);
                    }
                    if wanted < bits {
                        lemma_pow2_strictly_increases(wanted as nat, bits as nat);
                    }
                }
                bits >= wanted
            },
        }
    }

    /// First-fit search of the inventory, in the order the kernel gave it.
    fn find_untyped(&self, paddr: Option<Word>, need: Need) -> (found: Option<CPtr>)
        ensures
            found == self@.find_untyped(paddr, need.bytes()),
    {
        let count: usize = if self.bootinfo.untyped.len() <= self.bootinfo.untyped_list.len() {
            self.bootinfo.untyped.len()
        } else {
            self.bootinfo.untyped_list.len()
        };
        let ghost inventory = self@.bootinfo.inventory();
        assert(inventory.len() == count);
        let mut idx: usize = 0;
        while idx < count
            invariant
                0 <= idx <= count,
                count == inventory.len(),
                count <= self.bootinfo.untyped.spec_len(),
                count <= self.bootinfo.untyped_list@.len(),
                inventory == self@.bootinfo.inventory(),
                self@.bootinfo == self.bootinfo,
                first_fit(inventory, paddr, need.bytes()) == first_fit_from(
                    inventory,
                    paddr,
                    need.bytes(),
                    idx as int,
                ),
            decreases count - idx,
        {
            let desc: &UntypedDesc = &self.bootinfo.untyped_list[idx];
            assert(*desc == inventory[idx as int]);
            let address_ok: bool = match paddr {
                Some(wanted) => desc.paddr == wanted,
                None => true,
            };
            if Self::holds(desc, need) && address_ok {
                return Some(self.bootinfo.untyped.start + idx);
            }
            idx = idx + 1;
        }
        None
    }

    /// Capability of the first untyped region, in the kernel's order, that
    /// holds at least `size_bytes` bytes and, where `paddr` is given, starts
    /// at that physical address. `None` where no region does.
    ///
    /// First-fit, not best-fit: a larger region that comes earlier wins.
    pub fn get_untyped(&self, paddr: Option<Word>, size_bytes: usize) -> (found: Option<CPtr>)
        ensures
            found == self@.find_untyped(paddr, size_bytes as nat),
            match first_fit(self@.bootinfo.inventory(), paddr, size_bytes as nat) {
                Some(i) => {
                    &&& 0 <= i < self@.bootinfo.inventory().len()
                    &&& found == Some((self@.bootinfo.untyped.start + i) as usize)
                    &&& self@.bootinfo.inventory()[i].fits(paddr, size_bytes as nat)
                    &&& forall|j: int|
                        0 <= j < i ==> !(#[trigger] self@.bootinfo.inventory()[j]).fits(
                            paddr,
                            size_bytes as nat,
                        )
                },
                None => {
                    &&& found is None
                    &&& forall|j: int|
                        0 <= j < self@.bootinfo.inventory().len() ==> !(
                        #[trigger] self@.bootinfo.inventory()[j]).fits(paddr, size_bytes as nat)
                },
            },
    {
        proof {
            lemma_first_fit_from(self@.bootinfo.inventory(), paddr, size_bytes as nat, 0);
        }
        self.find_untyped(paddr, Need::Bytes(size_bytes))
    }

    /// The request that retypes one object of kind `obj_type` and size
    /// `2^size_bits` out of `untyped_cap`, placing its capability in
    /// `slot_cap` of the root task's own capability space.
    pub fn untyped_retype_root(
        &self,
        untyped_cap: CPtr,
        obj_type: ObjectType,
        size_bits: usize,
        slot_cap: CPtr,
    ) -> (request: Request)
        ensures
            request == self@.retype_request(untyped_cap, obj_type, size_bits, slot_cap),
    {
        Request::UntypedRetype {
            untyped: untyped_cap,
            object_type: obj_type,
            size_bits,
            root: self.platform.init_thread_cnode,
            node_index: self.platform.init_thread_cnode,
            node_depth: self.platform.word_bits,
            node_offset: slot_cap,
            num_objects: 1,
        }
    }

    /// One step of mapping a frame at `vaddr`.
    ///
    /// Call it first with [`MapStage::Start`]; perform the request it gives and
    /// call it again with the stage it named and the status that came back,
    /// until it says that the mapping is done. The frame is mapped directly
    /// first. Where that fails, a page table is retyped out of `untyped_cap`
    /// into the reserved slot and mapped at `vaddr`, and the frame is mapped
    /// once more; whatever fails on that way ends the mapping with its status.
    pub fn map_paddr(
        &self,
        untyped_cap: CPtr,
        frame_cap: CPtr,
        vaddr: Word,
        stage: MapStage,
        status: KernelStatus,
    ) -> (step: MapStep)
        ensures
            step == self@.map_step(untyped_cap, frame_cap, vaddr, stage, status),
    {
        match stage {
            MapStage::Start => MapStep::Perform {
                request: self.page_map(frame_cap, vaddr),
                next: MapStage::FirstTry,
            },
            MapStage::FirstTry => {
                if status == NO_ERROR {
                    MapStep::Done { status: NO_ERROR }
                } else {
                    MapStep::Perform {
                        request: self.untyped_retype_root(
                            untyped_cap,
                            ObjectType::PageTable,
                            self.platform.page_table_bits,
                            self.page_table_cap(),
                        ),
                        next: MapStage::TableRetype,
                    }
                }
            },
            MapStage::TableRetype => {
                if status != NO_ERROR {
                    MapStep::Done { status }
                } else {
                    MapStep::Perform {
                        request: Request::PageTableMap {
                            table: self.page_table_cap(),
                            vspace: self.pd_cap(),
                            vaddr,
                            attributes: NO_CACHE_ATTRIBUTES,
                        },
                        next: MapStage::TableMap,
                    }
                }
            },
            MapStage::TableMap => {
                if status != NO_ERROR {
                    MapStep::Done { status }
                } else {
                    MapStep::Perform {
                        request: self.page_map(frame_cap, vaddr),
                        next: MapStage::SecondTry,
                    }
                }
            },
            MapStage::SecondTry => MapStep::Done { status },
        }
    }

    /// The request that maps `frame_cap` at `vaddr`, readable and writable, uncached.
    pub(crate) fn page_map(&self, frame_cap: CPtr, vaddr: Word) -> (request: Request)
        ensures
            request == self@.page_map_request(frame_cap, vaddr),
    {
        Request::PageMap {
            frame: frame_cap,
            vspace: self.platform.init_thread_vspace,
            vaddr,
            rights: CapRights { grant: false, read: true, write: true },
            attributes: NO_CACHE_ATTRIBUTES,
        }
    }

    /// Prepares a frame capability for the memory at `paddr`: takes the next
    /// empty slot, finds the untyped region that starts at `paddr` and holds
    /// `2^size_bits` bytes, and gives the slot together with the request that
    /// retypes a frame out of that region into it.
    ///
    /// `None` where no slot is left or no such region exists. The slot stays
    /// taken where only the region is missing.
    pub fn get_frame_cap(&mut self, paddr: Word, size_bits: usize) -> (frame: Option<
        (CPtr, Request),
    >)
        ensures
            frame == old(self)@.frame_cap(paddr, size_bits),
            final(self)@ == old(self)@.after_allocation(),
    {
        match self.get_next_free_cap_slot() {
            Some(dest_slot_cap) => {
                match self.find_untyped(Some(paddr), Need::Pow2(size_bits)) {
                    Some(untyped_cap) => {
                        let request: Request = self.untyped_retype_root(
                            untyped_cap,
                            ObjectType::SmallPage,
                            size_bits,
                            dest_slot_cap,
                        );
                        Some((dest_slot_cap, request))
                    },
                    None => None,
                }
            },
            None => None,
        }
    }

    /// One step of mapping the device memory at `paddr` to `vaddr`.
    ///
    /// Call it first with [`IoMapStage::Start`], then with the stage it named
    /// and the status of the request it gave. It first has a frame retyped
    /// (see [`BootInfoManager::get_frame_cap`]), then maps it (see
    /// [`BootInfoManager::map_paddr`]). Only the first step changes the
    /// manager: it takes a slot.
    pub fn io_map(
        &mut self,
        untyped_cap: CPtr,
        paddr: Word,
        vaddr: Word,
        size_bits: usize,
        stage: IoMapStage,
        status: KernelStatus,
    ) -> (step: IoMapStep)
        ensures
            step == old(self)@.io_map_step(untyped_cap, paddr, vaddr, size_bits, stage, status),
            final(self)@ == (if stage is Start {
                old(self)@.after_allocation()
            } else {
                old(self)@
            }),
    {
        match stage {
            IoMapStage::Start => {
                match self.get_frame_cap(paddr, size_bits) {
                    Some((frame, request)) => IoMapStep::Perform {
                        request,
                        next: IoMapStage::Retyping { frame },
                    },
                    None => IoMapStep::NoFrame,
                }
            },
            IoMapStage::Retyping { frame } => {
                if status != NO_ERROR {
                    IoMapStep::NoFrame
                } else {
                    Self::lift(self.map_paddr(untyped_cap, frame, vaddr, MapStage::Start, status), frame)
                }
            },
            IoMapStage::Mapping { frame, stage } => {
                Self::lift(self.map_paddr(untyped_cap, frame, vaddr, stage, status), frame)
            },
        }
    }

    /// A step of a frame mapping, as a step of a device mapping.
    fn lift(step: MapStep, frame: CPtr) -> (lifted: IoMapStep)
        ensures
            lifted == lift_map_step(step, frame),
    {
        match step {
            MapStep::Perform { request, next } => IoMapStep::Perform {
                request,
                next: IoMapStage::Mapping { frame, stage: next },
            },
            MapStep::Done { status } => IoMapStep::Done { status },
        }
    }
}

} // verus!
