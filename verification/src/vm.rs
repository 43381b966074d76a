//! VM records and the guest pages recorded for them.
use vstd::prelude::*;

use crate::access::{ram_mapping_flags, read_only_request, GuestPhysAddr, MappingFlags};
use crate::errno::{EINVAL, ENOSPC};
use crate::state::{
    lemma_mapping_count_bounded, lemma_mapping_count_update, mapping_count, vm_index_from_handle, BackendVm, Bridge,
    BridgeView, PageMapping, KVM_IOAPIC_NUM_PINS, MAX_PAGE_MAPPINGS, MAX_VMS,
};
use crate::timers::{KvmTimerEntry, TimerProgram, TimerTables};

verus! {

/// The size of a guest page.
pub const PAGE_SIZE_4K: u64 = 0x1000;

/// A guest memory region that the machine has to map.
#[derive(Clone, Copy, Debug, PartialEq, Eq, Structural)]
pub struct MapRegion {
    pub gpa: GuestPhysAddr,
    pub hpa: u64,
    pub size: u64,
    pub flags: MappingFlags,
}

/// What a map call does next: it is over, or the machine has to map a region
/// first.
#[derive(Clone, Copy, Debug, PartialEq, Eq, Structural)]
pub enum MapPageStep {
    MapRegion(MapRegion),
    Done(i32),
}

/// What an unmap call does next: it is over, or the machine has to unmap a
/// region first.
#[derive(Clone, Copy, Debug, PartialEq, Eq, Structural)]
pub enum UnmapStep {
    UnmapRegion { gpa: GuestPhysAddr, size: u64 },
    Done(i32),
}

impl BridgeView {
    /// The record at a position is that of a guest page of a VM.
    pub open spec fn page_at(self, vm_handle: u64, gpa: u64, i: int) -> bool {
        0 <= i < self.mappings.len() && self.mappings[i].of(vm_handle) && self.mappings[i].gpa == gpa
    }

    /// A guest page of a VM is recorded.
    pub open spec fn has_page(self, vm_handle: u64, gpa: u64) -> bool {
        exists|i: int| self.page_at(vm_handle, gpa, i)
    }

    /// The recorded pages of a VM: guest address to host address and flags.
    pub open spec fn pages(self, vm_handle: u64) -> Map<u64, (u64, u32)> {
        Map::new(
            |gpa: u64| self.has_page(vm_handle, gpa),
            |gpa: u64|
                {
                    let m = self.mappings[choose|i: int| self.page_at(vm_handle, gpa, i)];
                    (m.hpa, m.flags)
                },
        )
    }

    /// The first free page record.
    pub open spec fn first_free_mapping(self, i: int) -> bool {
        &&& 0 <= i < self.mappings.len()
        &&& !self.mappings[i].in_use
        &&& forall|j: int| 0 <= j < i ==> (#[trigger] self.mappings[j]).in_use
    }

    /// No page record is free.
    pub open spec fn mappings_full(self) -> bool {
        forall|j: int| 0 <= j < self.mappings.len() ==> (#[trigger] self.mappings[j]).in_use
    }

    /// The tables after a guest page of a VM was recorded: an earlier record of
    /// the page is overwritten, else the first free record is taken and counted.
    pub open spec fn page_recorded(self, vm_handle: u64, gpa: u64, hpa: u64, flags: u32, after: BridgeView) -> bool {
        if self.has_page(vm_handle, gpa) {
            exists|i: int|
                {
                    &&& #[trigger] self.page_at(vm_handle, gpa, i)
                    &&& after == self.with_mapping_at(i, (PageMapping { hpa, flags, ..self.mappings[i] }))
                }
        } else {
            exists|i: int|
                {
                    &&& #[trigger] self.first_free_mapping(i)
                    &&& after == self.with_mapping_at(
                        i,
                        (PageMapping { in_use: true, vm_handle, gpa, hpa, flags }),
                    ).with_vm(
                        vm_handle,
                        (BackendVm {
                            page_mapping_count: (self.vm(vm_handle).page_mapping_count + 1) as usize,
                            ..self.vm(vm_handle)
                        }),
                    )
                }
        }
    }

    /// The tables without the recorded pages of a VM from `lo` up to `hi`, and
    /// with the VM's count of them set anew.
    pub open spec fn pages_dropped(self, vm_handle: u64, lo: int, hi: int) -> Seq<PageMapping> {
        Seq::new(
            self.mappings.len(),
            |i: int|
                if self.mappings[i].of(vm_handle) && lo <= self.mappings[i].gpa < hi {
                    PageMapping::spec_empty()
                } else {
                    self.mappings[i]
                },
        )
    }
}

/// The record at a position decides what is recorded for its page.
pub proof fn lemma_page_lookup(b: BridgeView, vm_handle: u64, gpa: u64, i: int)
    requires
        b.mappings_unique(),
        b.page_at(vm_handle, gpa, i),
    ensures
        b.pages(vm_handle).dom().contains(gpa),
        b.pages(vm_handle)[gpa] == (b.mappings[i].hpa, b.mappings[i].flags),
{
    let k = choose|k: int| b.page_at(vm_handle, gpa, k);
    assert(b.page_at(vm_handle, gpa, k));
    if k != i {
        assert(b.mappings[k].gpa != b.mappings[i].gpa);
    }
}

/// Recording a page makes exactly that page known, with its new host address and
/// flags, and keeps every other page of every VM.
pub proof fn recorded_page_is_found(b: BridgeView, vm_handle: u64, gpa: u64, hpa: u64, flags: u32, after: BridgeView)
    requires
        b.inv(),
        b.vm_live(vm_handle),
        b.page_recorded(vm_handle, gpa, hpa, flags, after),
    ensures
        after.inv(),
        after.pages(vm_handle) == b.pages(vm_handle).insert(gpa, (hpa, flags)),
        forall|other: u64| other != vm_handle ==> #[trigger] after.pages(other) == b.pages(other),
{
    let slot = if b.has_page(vm_handle, gpa) {
        choose|i: int|
            {
                &&& #[trigger] b.page_at(vm_handle, gpa, i)
                &&& after == b.with_mapping_at(i, (PageMapping { hpa, flags, ..b.mappings[i] }))
            }
    } else {
        choose|i: int|
            {
                &&& #[trigger] b.first_free_mapping(i)
                &&& after == b.with_mapping_at(i, (PageMapping { in_use: true, vm_handle, gpa, hpa, flags })).with_vm(
                    vm_handle,
                    (BackendVm {
                        page_mapping_count: (b.vm(vm_handle).page_mapping_count + 1) as usize,
                        ..b.vm(vm_handle)
                    }),
                )
            }
    };
    let m = PageMapping { in_use: true, vm_handle, gpa, hpa, flags };
    assert(after.mappings == b.mappings.update(slot, m));
    assert forall|i: int, j: int|
        0 <= i < after.mappings.len() && 0 <= j < after.mappings.len() && i != j && (#[trigger] after.mappings[i]).in_use
            && (#[trigger] after.mappings[j]).in_use && after.mappings[i].vm_handle == after.mappings[j].vm_handle implies after.mappings[i].gpa
        != after.mappings[j].gpa by {
        if i == slot && after.mappings[j].gpa == gpa {
            assert(b.mappings[j] == after.mappings[j]);
            assert(b.page_at(vm_handle, gpa, j));
            assert(b.has_page(vm_handle, gpa));
            assert(b.mappings[slot].gpa != b.mappings[j].gpa);
        }
        if j == slot && after.mappings[i].gpa == gpa {
            assert(b.mappings[i] == after.mappings[i]);
            assert(b.page_at(vm_handle, gpa, i));
            assert(b.has_page(vm_handle, gpa));
            assert(b.mappings[slot].gpa != b.mappings[i].gpa);
        }
    }
    assert forall|h: u64| 1 <= h <= MAX_VMS implies (#[trigger] after.vm(h)).page_mapping_count == mapping_count(
        after.mappings,
        h,
    ) by {
        lemma_mapping_count_update(b.mappings, slot, m, h);
        lemma_mapping_count_bounded(after.mappings, h);
        assert(b.vm(h).page_mapping_count == mapping_count(b.mappings, h));
    }
    assert forall|i: int| 0 <= i < after.mappings.len() && (#[trigger] after.mappings[i]).in_use implies after.vm_live(
        after.mappings[i].vm_handle,
    ) by {
        assert(i != slot ==> b.mappings[i] == after.mappings[i]);
        assert(b.vm_live(after.mappings[i].vm_handle));
    }
    assert forall|i: int| 0 <= i < after.vms.len() implies (#[trigger] after.vms[i]).booted == after.vms[i].machine by {
        assert(b.vms[i].booted == b.vms[i].machine);
    }
    assert forall|i: int| 0 <= i < after.vcpus.len() && (#[trigger] after.vcpus[i]).in_use implies {
        &&& 1 <= after.vcpus[i].vm_handle <= MAX_VMS
        &&& after.vcpus[i].id < u32::MAX
    } by {
        assert(after.vcpus[i] == b.vcpus[i]);
    }
    lemma_pages_after_write(b, after, slot, m);
    assert(after.pages(vm_handle) =~= b.pages(vm_handle).insert(gpa, (hpa, flags)));
}

proof fn lemma_pages_after_write(b: BridgeView, after: BridgeView, slot: int, m: PageMapping)
    requires
        b.mappings_unique(),
        after.mappings_unique(),
        0 <= slot < b.mappings.len(),
        after.mappings == b.mappings.update(slot, m),
        m.in_use,
        b.mappings[slot].in_use ==> b.mappings[slot].vm_handle == m.vm_handle && b.mappings[slot].gpa == m.gpa,
    ensures
        after.pages(m.vm_handle) == b.pages(m.vm_handle).insert(m.gpa, (m.hpa, m.flags)),
        forall|other: u64| other != m.vm_handle ==> #[trigger] after.pages(other) == b.pages(other),
{
    assert forall|h: u64, g: u64| (h, g) != (m.vm_handle, m.gpa) implies {
        &&& after.pages(h).dom().contains(g) == b.pages(h).dom().contains(g)
        &&& after.pages(h).dom().contains(g) ==> #[trigger] after.pages(h)[g] == b.pages(h)[g]
    } by {
        if b.has_page(h, g) {
            let i = choose|i: int| b.page_at(h, g, i);
            assert(b.page_at(h, g, i));
            assert(i != slot);
            assert(after.page_at(h, g, i));
            lemma_page_lookup(b, h, g, i);
            lemma_page_lookup(after, h, g, i);
        }
        if after.has_page(h, g) {
            let i = choose|i: int| after.page_at(h, g, i);
            assert(after.page_at(h, g, i));
            assert(i != slot);
            assert(b.page_at(h, g, i));
        }
    }
    assert(after.page_at(m.vm_handle, m.gpa, slot));
    lemma_page_lookup(after, m.vm_handle, m.gpa, slot);
    assert forall|g: u64| after.pages(m.vm_handle).dom().contains(g) == b.pages(m.vm_handle).insert(
        m.gpa,
        (m.hpa, m.flags),
    ).dom().contains(g) by {
        if g != m.gpa {
            let v = after.pages(m.vm_handle)[g];
        }
    }
    assert(after.pages(m.vm_handle) =~= b.pages(m.vm_handle).insert(m.gpa, (m.hpa, m.flags)));
    assert forall|other: u64| other != m.vm_handle implies #[trigger] after.pages(other) == b.pages(other) by {
        assert forall|g: u64| after.pages(other).dom().contains(g) == b.pages(other).dom().contains(g) by {
            let v = after.pages(other)[g];
        }
        assert(after.pages(other) =~= b.pages(other));
    }
}

/// Dropping a range of a VM's pages forgets exactly those pages.
pub proof fn dropped_pages_are_forgotten(b: BridgeView, after: BridgeView, vm_handle: u64, lo: int, hi: int)
    requires
        b.mappings_unique(),
        after.mappings == b.pages_dropped(vm_handle, lo, hi),
    ensures
        after.mappings_unique(),
        after.pages(vm_handle) == b.pages(vm_handle).remove_keys(Set::new(|g: u64| lo <= g < hi)),
        forall|other: u64| other != vm_handle ==> #[trigger] after.pages(other) == b.pages(other),
{
    assert forall|i: int, j: int|
        0 <= i < after.mappings.len() && 0 <= j < after.mappings.len() && i != j && (#[trigger] after.mappings[i]).in_use
            && (#[trigger] after.mappings[j]).in_use && after.mappings[i].vm_handle == after.mappings[j].vm_handle implies after.mappings[i].gpa
        != after.mappings[j].gpa by {
        assert(after.mappings[i] == b.mappings[i]);
        assert(after.mappings[j] == b.mappings[j]);
    }
    assert forall|h: u64, g: u64| !(h == vm_handle && lo <= g < hi) implies {
        &&& after.pages(h).dom().contains(g) == b.pages(h).dom().contains(g)
        &&& after.pages(h).dom().contains(g) ==> #[trigger] after.pages(h)[g] == b.pages(h)[g]
    } by {
        if b.has_page(h, g) {
            let i = choose|i: int| b.page_at(h, g, i);
            assert(b.page_at(h, g, i));
            assert(after.page_at(h, g, i));
            lemma_page_lookup(b, h, g, i);
            lemma_page_lookup(after, h, g, i);
        }
        if after.has_page(h, g) {
            let i = choose|i: int| after.page_at(h, g, i);
            assert(after.page_at(h, g, i));
            assert(b.page_at(h, g, i));
        }
    }
    assert forall|g: u64| lo <= g < hi implies !after.has_page(vm_handle, g) by {
        if after.has_page(vm_handle, g) {
            let i = choose|i: int| after.page_at(vm_handle, g, i);
            assert(after.page_at(vm_handle, g, i));
            assert(b.mappings[i] == after.mappings[i]);
        }
    }
    let kept = b.pages(vm_handle).remove_keys(Set::new(|g: u64| lo <= g < hi));
    assert forall|g: u64| after.pages(vm_handle).dom().contains(g) == kept.dom().contains(g) by {
        let v = after.pages(vm_handle)[g];
        if lo <= g < hi {
            assert(!after.has_page(vm_handle, g));
        }
    }
    assert(after.pages(vm_handle) =~= kept);
    assert forall|other: u64| other != vm_handle implies #[trigger] after.pages(other) == b.pages(other) by {
        assert forall|g: u64| after.pages(other).dom().contains(g) == b.pages(other).dom().contains(g) by {
            let v = after.pages(other)[g];
        }
        assert(after.pages(other) =~= b.pages(other));
    }
}

/// Creates a VM in the first free record and stores its handle; refused without
/// a place for the handle, or with every record taken.
pub fn axvisor_kvm_rs_create_vm(bridge: &mut Bridge, backend_vm: &mut Option<u64>) -> (r: i32)
    requires
        old(bridge).wf(),
    ensures
        final(bridge).wf(),
        *old(backend_vm) is None ==> r == -EINVAL,
        *old(backend_vm) is Some ==> (r == -ENOSPC <==> forall|i: int|
            0 <= i < MAX_VMS ==> (#[trigger] old(bridge)@.vms[i]).in_use),
        r == 0 || r == -ENOSPC || r == -EINVAL,
        r == -EINVAL ==> *old(backend_vm) is None,
        r != 0 ==> final(bridge)@ == old(bridge)@ && *final(backend_vm) == *old(backend_vm),
        r == 0 ==> {
            &&& *final(backend_vm) matches Some(h)
            &&& 1 <= h <= MAX_VMS
            &&& !old(bridge)@.vm_live(h)
            &&& forall|i: int| 0 <= i < h - 1 ==> (#[trigger] old(bridge)@.vms[i]).in_use
            &&& final(bridge)@ == old(bridge)@.with_vm(h, (BackendVm { in_use: true, ..BackendVm::spec_empty() }))
        },
{
    if backend_vm.is_none() {
        return -EINVAL;
    }
    let ghost before = bridge@;
    let mut i: usize = 0;
    while i < MAX_VMS
        invariant
            i <= MAX_VMS,
            bridge.wf(),
            bridge@ == before,
            before == old(bridge)@,
            *backend_vm == *old(backend_vm),
            *old(backend_vm) is Some,
            forall|j: int| 0 <= j < i ==> (#[trigger] before.vms[j]).in_use,
        decreases MAX_VMS - i,
    {
        if !bridge.vms[i].in_use {
            bridge.vms[i] = BackendVm::empty();
            bridge.vms[i].in_use = true;
            *backend_vm = Some((i + 1) as u64);
            proof {
                let h: u64 = (i + 1) as u64;
                let fresh = BackendVm { in_use: true, ..BackendVm::spec_empty() };
                assert(bridge@.vms =~= before.vms.update(i as int, fresh));
                assert(bridge@ == before.with_vm(h, fresh));
                lemma_dead_vm_has_no_pages(before, h);
                assert forall|g: u64| 1 <= g <= MAX_VMS implies (#[trigger] bridge@.vm(g)).page_mapping_count
                    == mapping_count(bridge@.mappings, g) by {
                    assert(before.vm(g).page_mapping_count == mapping_count(before.mappings, g));
                }
                assert(!before.vms[i as int].in_use);
            }
            return 0;
        }
        i += 1;
    }
    -ENOSPC
}

/// A VM that does not exist has no recorded pages.
proof fn lemma_dead_vm_has_no_pages(b: BridgeView, h: u64)
    requires
        b.inv(),
        1 <= h <= MAX_VMS,
        !b.vm_live(h),
    ensures
        mapping_count(b.mappings, h) == 0,
{
    assert forall|i: int| 0 <= i < b.mappings.len() implies !(#[trigger] b.mappings[i]).of(h) by {
        if b.mappings[i].of(h) {
            assert(b.vm_live(b.mappings[i].vm_handle));
        }
    }
    crate::state::lemma_no_mapping_counts_zero(b.mappings, h);
}

/// Empties the recorded pages of a VM within a range, or all of them, and gives
/// how many there were.
fn drop_pages(mappings: &mut Vec<PageMapping>, vm_handle: u64, range: Option<(u64, u64)>) -> (removed: usize)
    requires
        old(mappings)@.len() == MAX_PAGE_MAPPINGS,
    ensures
        final(mappings)@.len() == MAX_PAGE_MAPPINGS,
        final(mappings)@ == (BridgeView { vms: Seq::empty(), vcpus: Seq::empty(), mappings: old(mappings)@ }).pages_dropped(
            vm_handle,
            match range {
                Some(r) => r.0 as int,
                None => 0,
            },
            match range {
                Some(r) => r.1 as int,
                None => u64::MAX + 1,
            },
        ),
        removed == mapping_count(old(mappings)@, vm_handle) - mapping_count(final(mappings)@, vm_handle),
        forall|h: u64|
            h != vm_handle ==> #[trigger] mapping_count(final(mappings)@, h) == mapping_count(old(mappings)@, h),
{
    let ghost before = old(mappings)@;
    let ghost lo: int = match range {
        Some(r) => r.0 as int,
        None => 0,
    };
    let ghost hi: int = match range {
        Some(r) => r.1 as int,
        None => u64::MAX + 1,
    };
    let ghost after = (BridgeView { vms: Seq::empty(), vcpus: Seq::empty(), mappings: before }).pages_dropped(
        vm_handle,
        lo,
        hi,
    );
    let mut removed: usize = 0;
    let mut i: usize = 0;
    while i < MAX_PAGE_MAPPINGS
        invariant
            i <= MAX_PAGE_MAPPINGS,
            removed <= i,
            mappings@.len() == MAX_PAGE_MAPPINGS,
            before.len() == MAX_PAGE_MAPPINGS,
            lo == (match range {
                Some(r) => r.0 as int,
                None => 0,
            }),
            hi == (match range {
                Some(r) => r.1 as int,
                None => u64::MAX + 1,
            }),
            after == (BridgeView { vms: Seq::empty(), vcpus: Seq::empty(), mappings: before }).pages_dropped(
                vm_handle,
                lo,
                hi,
            ),
            forall|j: int|
                0 <= j < MAX_PAGE_MAPPINGS ==> #[trigger] mappings@[j] == (if j < i {
                    after[j]
                } else {
                    before[j]
                }),
            removed == mapping_count(before, vm_handle) - mapping_count(mappings@, vm_handle),
            forall|h: u64| h != vm_handle ==> #[trigger] mapping_count(mappings@, h) == mapping_count(before, h),
        decreases MAX_PAGE_MAPPINGS - i,
    {
        let m: PageMapping = mappings[i];
        let inside: bool = match range {
            Some(r) => m.gpa >= r.0 && m.gpa < r.1,
            None => true,
        };
        assert(m == before[i as int]);
        if m.in_use && m.vm_handle == vm_handle && inside {
            let ghost prior = mappings@;
            mappings[i] = PageMapping::empty();
            proof {
                lemma_mapping_count_update(prior, i as int, PageMapping::spec_empty(), vm_handle);
                assert forall|h: u64| h != vm_handle implies #[trigger] mapping_count(mappings@, h) == mapping_count(
                    before,
                    h,
                ) by {
                    lemma_mapping_count_update(prior, i as int, PageMapping::spec_empty(), h);
                    assert(mapping_count(prior, h) == mapping_count(before, h));
                }
            }
            removed += 1;
        }
        i += 1;
    }
    assert(mappings@ =~= after);
    removed
}

/// Destroys a VM: its timers and recorded pages go, and its record is free. Gives
/// what the host timer is set to; a handle that names no record does nothing.
pub fn axvisor_kvm_rs_destroy_vm<C>(bridge: &mut Bridge, timers: &mut TimerTables<C>, backend_vm: u64) -> (r: Option<
    TimerProgram,
>)
    requires
        old(bridge).wf(),
        old(timers).wf(),
    ensures
        final(bridge).wf(),
        final(timers).wf(),
        !(1 <= backend_vm <= MAX_VMS) ==> {
            &&& r is None
            &&& final(bridge)@ == old(bridge)@
            &&& final(timers)@ == old(timers)@
        },
        1 <= backend_vm <= MAX_VMS ==> {
            &&& r matches Some(p)
            &&& final(timers)@.programs(p)
            &&& final(timers)@ == old(timers)@.without(|e: KvmTimerEntry<C>| e.in_use && e.vm_id == backend_vm)
            &&& final(bridge)@.vms == old(bridge)@.vms.update(backend_vm - 1, BackendVm::spec_empty())
            &&& final(bridge)@.vcpus == old(bridge)@.vcpus
            &&& final(bridge)@.mappings == old(bridge)@.pages_dropped(backend_vm, 0, u64::MAX + 1)
            &&& final(bridge)@.pages(backend_vm) == Map::<u64, (u64, u32)>::empty()
            &&& forall|other: u64|
                other != backend_vm ==> #[trigger] final(bridge)@.pages(other) == old(bridge)@.pages(other)
        },
{
    let ghost before = bridge@;
    let index: usize = match vm_index_from_handle(backend_vm) {
        Ok(index) => index,
        Err(_) => {
            return None;
        },
    };
    let program = timers.cancel_kvm_timers_for_vm(backend_vm);
    let _removed: usize = drop_pages(&mut bridge.mappings, backend_vm, None);
    bridge.vms[index] = BackendVm::empty();
    proof {
        let after = bridge@;
        assert(after.mappings =~= before.pages_dropped(backend_vm, 0, u64::MAX + 1));
        dropped_pages_are_forgotten(before, after, backend_vm, 0, u64::MAX + 1);
        assert(after.pages(backend_vm) =~= Map::<u64, (u64, u32)>::empty());
        assert forall|i: int| 0 <= i < after.mappings.len() implies !(#[trigger] after.mappings[i]).of(backend_vm) by {
        }
        crate::state::lemma_no_mapping_counts_zero(after.mappings, backend_vm);
        assert forall|g: u64| 1 <= g <= MAX_VMS implies (#[trigger] after.vm(g)).page_mapping_count == mapping_count(
            after.mappings,
            g,
        ) by {
            assert(before.vm(g).page_mapping_count == mapping_count(before.mappings, g));
        }
        assert forall|i: int| 0 <= i < after.mappings.len() && (#[trigger] after.mappings[i]).in_use implies after.vm_live(
            after.mappings[i].vm_handle,
        ) by {
            assert(before.mappings[i] == after.mappings[i]);
        }
    }
    Some(program)
}

/// The first `count` entries of a redirection table, and zero after them.
pub open spec fn redirection_entries(table: Option<Seq<u64>>, count: u32) -> Seq<u64> {
    Seq::new(
        KVM_IOAPIC_NUM_PINS as nat,
        |i: int|
            match table {
                Some(entries) => if i < count {
                    entries[i]
                } else {
                    0u64
                },
                None => 0u64,
            },
    )
}

/// How many entries of a redirection table are kept.
pub open spec fn redirection_count(table_present: bool, count: u32) -> u32 {
    if !table_present {
        0
    } else if count < KVM_IOAPIC_NUM_PINS {
        count
    } else {
        KVM_IOAPIC_NUM_PINS as u32
    }
}

/// Sets the state of a VM that the KVM caller controls.
pub fn axvisor_kvm_rs_set_vm_state(
    bridge: &mut Bridge,
    backend_vm: u64,
    version: u32,
    arch: u32,
    irqchip_created: u32,
    pit_created: u32,
    pit_flags: u32,
    tss_addr: u32,
    identity_map_addr: u64,
    nr_irqchips: u32,
    ioapic_redirtbl: Option<&[u64]>,
    ioapic_redirtbl_count: u32,
) -> (r: i32)
    requires
        old(bridge).wf(),
        ioapic_redirtbl matches Some(entries) ==> entries@.len() >= redirection_count(true, ioapic_redirtbl_count),
    ensures
        final(bridge).wf(),
        !old(bridge)@.vm_live(backend_vm) ==> r == -EINVAL && final(bridge)@ == old(bridge)@,
        old(bridge)@.vm_live(backend_vm) ==> {
            &&& r == 0
            &&& final(bridge)@ == old(bridge)@.with_vm(
                backend_vm,
                (BackendVm {
                    version,
                    arch,
                    irqchip_created: irqchip_created != 0,
                    pit_created: pit_created != 0,
                    pit_flags,
                    tss_addr,
                    identity_map_addr,
                    nr_irqchips,
                    ioapic_redirtbl: final(bridge)@.vm(backend_vm).ioapic_redirtbl,
                    ioapic_redirtbl_count: redirection_count(ioapic_redirtbl is Some, ioapic_redirtbl_count),
                    ..old(bridge)@.vm(backend_vm)
                }),
            )
            &&& final(bridge)@.vm(backend_vm).ioapic_redirtbl@ == redirection_entries(
                match ioapic_redirtbl {
                    Some(entries) => Some(entries@),
                    None => None,
                },
                ioapic_redirtbl_count,
            )
        },
{
    let index: usize = match vm_index_from_handle(backend_vm) {
        Ok(index) => index,
        Err(err) => {
            return err;
        },
    };
    if !bridge.vms[index].in_use {
        return -EINVAL;
    }
    let ghost before = bridge@;
    let mut vm: BackendVm = bridge.vms[index];
    vm.version = version;
    vm.arch = arch;
    vm.irqchip_created = irqchip_created != 0;
    vm.pit_created = pit_created != 0;
    vm.pit_flags = pit_flags;
    vm.tss_addr = tss_addr;
    vm.identity_map_addr = identity_map_addr;
    vm.nr_irqchips = nr_irqchips;
    let mut table: [u64; KVM_IOAPIC_NUM_PINS] = [0u64; KVM_IOAPIC_NUM_PINS];
    vm.ioapic_redirtbl_count = 0;
    if let Some(entries) = ioapic_redirtbl {
        let count: usize = if (ioapic_redirtbl_count as usize) < KVM_IOAPIC_NUM_PINS {
            ioapic_redirtbl_count as usize
        } else {
            KVM_IOAPIC_NUM_PINS
        };
        let mut i: usize = 0;
        while i < count
            invariant
                0 <= i <= count <= KVM_IOAPIC_NUM_PINS,
                entries@.len() >= count,
                forall|j: int|
                    0 <= j < KVM_IOAPIC_NUM_PINS ==> #[trigger] table@[j] == (if j < i {
                        entries@[j]
                    } else {
                        0u64
                    }),
            decreases count - i,
        {
            table[i] = entries[i];
            i += 1;
        }
        vm.ioapic_redirtbl_count = count as u32;
    }
    vm.ioapic_redirtbl = table;
    bridge.vms[index] = vm;
    proof {
        assert(bridge@.vm(backend_vm).ioapic_redirtbl@ =~= redirection_entries(
            match ioapic_redirtbl {
                Some(entries) => Some(entries@),
                None => None,
            },
            ioapic_redirtbl_count,
        ));
        lemma_vm_update_keeps_inv(before, backend_vm, vm);
    }
    0
}

/// A VM record may change in what the tables' invariant does not speak of.
pub(crate) proof fn lemma_vm_update_keeps_inv(b: BridgeView, h: u64, vm: BackendVm)
    requires
        b.inv(),
        1 <= h <= MAX_VMS,
        vm.in_use == b.vm(h).in_use,
        vm.booted == vm.machine,
        vm.page_mapping_count == b.vm(h).page_mapping_count,
    ensures
        b.with_vm(h, vm).inv(),
{
    let after = b.with_vm(h, vm);
    assert forall|g: u64| 1 <= g <= MAX_VMS implies (#[trigger] after.vm(g)).page_mapping_count == mapping_count(
        after.mappings,
        g,
    ) by {
        assert(b.vm(g).page_mapping_count == mapping_count(b.mappings, g));
    }
    assert forall|i: int| 0 <= i < after.mappings.len() && (#[trigger] after.mappings[i]).in_use implies after.vm_live(
        after.mappings[i].vm_handle,
    ) by {
        assert(b.mappings[i] == after.mappings[i]);
    }
    assert forall|i: int| 0 <= i < after.vms.len() implies (#[trigger] after.vms[i]).booted == after.vms[i].machine by {
        assert(b.vms[i].booted == b.vms[i].machine);
    }
}

/// Whether an address is that of a page.
pub open spec fn page_aligned(addr: u64) -> bool {
    addr % PAGE_SIZE_4K == 0
}

/// The region that maps one guest page.
pub open spec fn page_region(gpa: u64, hpa: u64, flags: u32) -> MapRegion {
    MapRegion {
        gpa: GuestPhysAddr(gpa),
        hpa,
        size: PAGE_SIZE_4K,
        flags: MappingFlags {
            read: true,
            write: !read_only_request(flags),
            execute: true,
            user: true,
            device: false,
            uncached: false,
        },
    }
}

/// The region that the machine has to map for one guest page.
pub fn map_page_into_axvm(gpa: u64, hpa: u64, flags: u32) -> (r: MapRegion)
    ensures
        r == page_region(gpa, hpa, flags),
{
    MapRegion { gpa: GuestPhysAddr(gpa), hpa, size: PAGE_SIZE_4K, flags: ram_mapping_flags(flags) }
}

/// Maps a guest page without recording it: asks the machine to map it, and is
/// refused for a VM that does not exist or has no machine, or for an address
/// that is not that of a page. The outcome of the machine is the outcome of the
/// call.
pub fn axvisor_kvm_rs_map_page_nolog(bridge: &Bridge, backend_vm: u64, gpa: u64, hpa: u64, flags: u32) -> (step:
    MapPageStep)
    requires
        bridge.wf(),
    ensures
        step == (if bridge@.vm_live(backend_vm) && page_aligned(gpa) && page_aligned(hpa) && bridge@.vm(
            backend_vm,
        ).machine {
            MapPageStep::MapRegion(page_region(gpa, hpa, flags))
        } else {
            MapPageStep::Done((-EINVAL) as i32)
        }),
{
    let index: usize = match vm_index_from_handle(backend_vm) {
        Ok(index) => index,
        Err(err) => {
            return MapPageStep::Done(err);
        },
    };
    if !bridge.vms[index].in_use {
        return MapPageStep::Done(-EINVAL);
    }
    if gpa % PAGE_SIZE_4K != 0 || hpa % PAGE_SIZE_4K != 0 {
        return MapPageStep::Done(-EINVAL);
    }
    if bridge.vms[index].machine {
        MapPageStep::MapRegion(map_page_into_axvm(gpa, hpa, flags))
    } else {
        MapPageStep::Done(-EINVAL)
    }
}

/// The result of a call whose last act was the machine's.
pub fn machine_code(outcome: Result<(), i32>) -> (r: i32)
    ensures
        r == (match outcome {
            Ok(_) => 0,
            Err(err) => err,
        }),
{
    match outcome {
        Ok(_) => 0,
        Err(err) => err,
    }
}

fn record_page(bridge: &mut Bridge, backend_vm: u64, gpa: u64, hpa: u64, flags: u32) -> (r: i32)
    requires
        old(bridge).wf(),
        old(bridge)@.vm_live(backend_vm),
    ensures
        final(bridge).wf(),
        r == (if old(bridge)@.has_page(backend_vm, gpa) || !old(bridge)@.mappings_full() {
            0
        } else {
            -ENOSPC
        }),
        r != 0 ==> final(bridge)@ == old(bridge)@,
        r == 0 ==> old(bridge)@.page_recorded(backend_vm, gpa, hpa, flags, final(bridge)@),
{
    let ghost before = bridge@;
    let index: usize = backend_vm as usize - 1;
    let mut first_free: usize = MAX_PAGE_MAPPINGS;
    let mut i: usize = 0;
    while i < MAX_PAGE_MAPPINGS
        invariant
            i <= MAX_PAGE_MAPPINGS,
            bridge.wf(),
            bridge@ == before,
            before == old(bridge)@,
            before.vm_live(backend_vm),
            index == backend_vm - 1,
            first_free <= MAX_PAGE_MAPPINGS,
            first_free < MAX_PAGE_MAPPINGS ==> before.first_free_mapping(first_free as int) && first_free < i,
            first_free == MAX_PAGE_MAPPINGS ==> forall|j: int| 0 <= j < i ==> (#[trigger] before.mappings[j]).in_use,
            forall|j: int| 0 <= j < i ==> !#[trigger] before.page_at(backend_vm, gpa, j),
        decreases MAX_PAGE_MAPPINGS - i,
    {
        let m: PageMapping = bridge.mappings[i];
        if m.in_use && m.vm_handle == backend_vm && m.gpa == gpa {
            bridge.mappings[i].hpa = hpa;
            bridge.mappings[i].flags = flags;
            proof {
                let changed = PageMapping { hpa, flags, ..before.mappings[i as int] };
                assert(before.page_at(backend_vm, gpa, i as int));
                assert(bridge@.mappings =~= before.mappings.update(i as int, changed));
                assert(bridge@ == before.with_mapping_at(i as int, changed));
                recorded_page_is_found(before, backend_vm, gpa, hpa, flags, bridge@);
            }
            return 0;
        }
        if !m.in_use && first_free == MAX_PAGE_MAPPINGS {
            first_free = i;
        }
        i += 1;
    }
    assert(!before.has_page(backend_vm, gpa));
    if first_free == MAX_PAGE_MAPPINGS {
        return -ENOSPC;
    }
    proof {
        lemma_mapping_count_bounded(before.mappings, backend_vm);
        assert(before.vm(backend_vm).page_mapping_count == mapping_count(before.mappings, backend_vm));
    }
    bridge.mappings[first_free] = PageMapping { in_use: true, vm_handle: backend_vm, gpa, hpa, flags };
    bridge.vms[index].page_mapping_count = bridge.vms[index].page_mapping_count + 1;
    proof {
        let fresh = PageMapping { in_use: true, vm_handle: backend_vm, gpa, hpa, flags };
        assert(before.first_free_mapping(first_free as int));
        let counted = BackendVm {
            page_mapping_count: (before.vm(backend_vm).page_mapping_count + 1) as usize,
            ..before.vm(backend_vm)
        };
        assert(bridge@.mappings =~= before.mappings.update(first_free as int, fresh));
        assert(bridge@.vms =~= before.vms.update(backend_vm - 1, counted));
        assert(bridge@ == before.with_mapping_at(first_free as int, fresh).with_vm(backend_vm, counted));
        recorded_page_is_found(before, backend_vm, gpa, hpa, flags, bridge@);
    }
    0
}

/// Maps a guest page and records it. A VM with a machine first has the machine
/// map it; one without only records the page, for the machine's boot.
pub fn axvisor_kvm_rs_map_page(bridge: &mut Bridge, backend_vm: u64, gpa: u64, hpa: u64, flags: u32) -> (step:
    MapPageStep)
    requires
        old(bridge).wf(),
    ensures
        final(bridge).wf(),
        !(old(bridge)@.vm_live(backend_vm) && page_aligned(gpa) && page_aligned(hpa)) ==> {
            &&& step == MapPageStep::Done((-EINVAL) as i32)
            &&& final(bridge)@ == old(bridge)@
        },
        old(bridge)@.vm_live(backend_vm) && page_aligned(gpa) && page_aligned(hpa) ==> {
            if old(bridge)@.vm(backend_vm).machine {
                &&& step == MapPageStep::MapRegion(page_region(gpa, hpa, flags))
                &&& final(bridge)@ == old(bridge)@
            } else if old(bridge)@.has_page(backend_vm, gpa) || !old(bridge)@.mappings_full() {
                &&& step == MapPageStep::Done(0)
                &&& old(bridge)@.page_recorded(backend_vm, gpa, hpa, flags, final(bridge)@)
            } else {
                &&& step == MapPageStep::Done((-ENOSPC) as i32)
                &&& final(bridge)@ == old(bridge)@
            }
        },
{
    let index: usize = match vm_index_from_handle(backend_vm) {
        Ok(index) => index,
        Err(err) => {
            return MapPageStep::Done(err);
        },
    };
    if !bridge.vms[index].in_use {
        return MapPageStep::Done(-EINVAL);
    }
    if gpa % PAGE_SIZE_4K != 0 || hpa % PAGE_SIZE_4K != 0 {
        return MapPageStep::Done(-EINVAL);
    }
    if bridge.vms[index].machine {
        return MapPageStep::MapRegion(map_page_into_axvm(gpa, hpa, flags));
    }
    MapPageStep::Done(record_page(bridge, backend_vm, gpa, hpa, flags))
}

/// Ends a map call after the machine's turn: a page that the machine mapped is
/// recorded, and one that it refused is not.
pub fn finish_map_page(
    bridge: &mut Bridge,
    backend_vm: u64,
    gpa: u64,
    hpa: u64,
    flags: u32,
    outcome: Result<(), i32>,
) -> (r: i32)
    requires
        old(bridge).wf(),
        old(bridge)@.vm_live(backend_vm),
    ensures
        final(bridge).wf(),
        outcome matches Err(err) ==> r == err && final(bridge)@ == old(bridge)@,
        outcome is Ok ==> if old(bridge)@.has_page(backend_vm, gpa) || !old(bridge)@.mappings_full() {
            r == 0 && old(bridge)@.page_recorded(backend_vm, gpa, hpa, flags, final(bridge)@)
        } else {
            r == -ENOSPC && final(bridge)@ == old(bridge)@
        },
{
    match outcome {
        Err(err) => err,
        Ok(_) => record_page(bridge, backend_vm, gpa, hpa, flags),
    }
}

/// The end of a range of addresses, at most the largest address.
pub open spec fn range_end(gpa: u64, size: u64) -> u64 {
    if gpa + size > u64::MAX {
        u64::MAX
    } else {
        (gpa + size) as u64
    }
}

/// The tables after a range of a VM's recorded pages was dropped.
pub open spec fn range_dropped(b: BridgeView, vm_handle: u64, gpa: u64, size: u64) -> BridgeView {
    let left = b.pages_dropped(vm_handle, gpa as int, range_end(gpa, size) as int);
    BridgeView { mappings: left, ..b }.with_vm(
        vm_handle,
        BackendVm { page_mapping_count: mapping_count(left, vm_handle) as usize, ..b.vm(vm_handle) },
    )
}

fn forget_range(bridge: &mut Bridge, backend_vm: u64, gpa: u64, size: u64)
    requires
        old(bridge).wf(),
        old(bridge)@.vm_live(backend_vm),
    ensures
        final(bridge).wf(),
        final(bridge)@ == range_dropped(old(bridge)@, backend_vm, gpa, size),
{
    let ghost before = bridge@;
    let index: usize = backend_vm as usize - 1;
    let end: u64 = gpa.saturating_add(size);
    let removed: usize = drop_pages(&mut bridge.mappings, backend_vm, Some((gpa, end)));
    proof {
        assert(before.vm(backend_vm).page_mapping_count == mapping_count(before.mappings, backend_vm));
        lemma_mapping_count_bounded(before.mappings, backend_vm);
    }
    bridge.vms[index].page_mapping_count = bridge.vms[index].page_mapping_count.saturating_sub(removed);
    proof {
        let after = bridge@;
        assert(after.mappings =~= before.pages_dropped(backend_vm, gpa as int, range_end(gpa, size) as int));
        dropped_pages_are_forgotten(before, after, backend_vm, gpa as int, range_end(gpa, size) as int);
        assert(after =~= range_dropped(before, backend_vm, gpa, size));
        assert forall|g: u64| 1 <= g <= MAX_VMS implies (#[trigger] after.vm(g)).page_mapping_count == mapping_count(
            after.mappings,
            g,
        ) by {
            assert(before.vm(g).page_mapping_count == mapping_count(before.mappings, g));
        }
        assert forall|i: int| 0 <= i < after.mappings.len() && (#[trigger] after.mappings[i]).in_use implies after.vm_live(
            after.mappings[i].vm_handle,
        ) by {
            assert(before.mappings[i] == after.mappings[i]);
        }
        assert forall|i: int| 0 <= i < after.vms.len() implies (#[trigger] after.vms[i]).booted == after.vms[i].machine by {
            assert(before.vms[i].booted == before.vms[i].machine);
        }
    }
}

/// Unmaps a range of guest pages and forgets their records. Nothing happens for
/// an empty range; a VM with a machine first has the machine unmap the range.
pub fn axvisor_kvm_rs_unmap_range(bridge: &mut Bridge, backend_vm: u64, gpa: u64, size: u64) -> (step: UnmapStep)
    requires
        old(bridge).wf(),
    ensures
        final(bridge).wf(),
        if !(1 <= backend_vm <= MAX_VMS) {
            step == UnmapStep::Done((-EINVAL) as i32) && final(bridge)@ == old(bridge)@
        } else if size == 0 {
            step == UnmapStep::Done(0) && final(bridge)@ == old(bridge)@
        } else if !page_aligned(gpa) || !page_aligned(size) || !old(bridge)@.vm_live(backend_vm) {
            step == UnmapStep::Done((-EINVAL) as i32) && final(bridge)@ == old(bridge)@
        } else if old(bridge)@.vm(backend_vm).machine {
            step == (UnmapStep::UnmapRegion { gpa: GuestPhysAddr(gpa), size }) && final(bridge)@ == old(bridge)@
        } else {
            step == UnmapStep::Done(0) && final(bridge)@ == range_dropped(old(bridge)@, backend_vm, gpa, size)
        },
{
    let index: usize = match vm_index_from_handle(backend_vm) {
        Ok(index) => index,
        Err(err) => {
            return UnmapStep::Done(err);
        },
    };
    if size == 0 {
        return UnmapStep::Done(0);
    }
    if gpa % PAGE_SIZE_4K != 0 || size % PAGE_SIZE_4K != 0 {
        return UnmapStep::Done(-EINVAL);
    }
    if !bridge.vms[index].in_use {
        return UnmapStep::Done(-EINVAL);
    }
    if bridge.vms[index].machine {
        return UnmapStep::UnmapRegion { gpa: GuestPhysAddr(gpa), size };
    }
    forget_range(bridge, backend_vm, gpa, size);
    UnmapStep::Done(0)
}

/// Ends an unmap call after the machine's turn: the records of a range that the
/// machine unmapped go, and those of one that it refused stay.
pub fn finish_unmap_range(bridge: &mut Bridge, backend_vm: u64, gpa: u64, size: u64, outcome: Result<(), i32>) -> (r:
    i32)
    requires
        old(bridge).wf(),
        old(bridge)@.vm_live(backend_vm),
    ensures
        final(bridge).wf(),
        outcome matches Err(err) ==> r == err && final(bridge)@ == old(bridge)@,
        outcome is Ok ==> r == 0 && final(bridge)@ == range_dropped(old(bridge)@, backend_vm, gpa, size),
{
    match outcome {
        Err(err) => err,
        Ok(_) => {
            forget_range(bridge, backend_vm, gpa, size);
            0
        },
    }
}

/// Unmapping a range forgets exactly the recorded pages of that VM in the range.
pub proof fn unmapped_range_is_forgotten(b: BridgeView, vm_handle: u64, gpa: u64, size: u64)
    requires
        b.inv(),
        b.vm_live(vm_handle),
    ensures
        range_dropped(b, vm_handle, gpa, size).pages(vm_handle) == b.pages(vm_handle).remove_keys(
            Set::new(|g: u64| gpa <= g < range_end(gpa, size)),
        ),
        forall|other: u64|
            other != vm_handle ==> #[trigger] range_dropped(b, vm_handle, gpa, size).pages(other) == b.pages(other),
{
    dropped_pages_are_forgotten(
        b,
        range_dropped(b, vm_handle, gpa, size),
        vm_handle,
        gpa as int,
        range_end(gpa, size) as int,
    );
    assert(Set::new(|g: u64| gpa <= g < range_end(gpa, size)) =~= Set::new(
        |g: u64| (gpa as int) <= g < (range_end(gpa, size) as int),
    ));
}

/// How many vCPUs a VM has, at least one; nothing for a VM that does not exist.
pub fn vcpu_num(bridge: &Bridge, vm_id: u64) -> (r: Option<u32>)
    requires
        bridge.wf(),
    ensures
        r == (if bridge@.vm_live(vm_id) {
            Some(
                if bridge@.vm(vm_id).vcpu_count == 0 {
                    1u32
                } else {
                    bridge@.vm(vm_id).vcpu_count
                },
            )
        } else {
            None
        }),
{
    match vm_index_from_handle(vm_id) {
        Err(_) => None,
        Ok(index) => if bridge.vms[index].in_use {
            if bridge.vms[index].vcpu_count == 0 {
                Some(1)
            } else {
                Some(bridge.vms[index].vcpu_count)
            }
        } else {
            None
        },
    }
}

/// Whether a VM exists and has its machine: only then can it be run or
/// interrupted.
pub fn axvm_for_vm_id(bridge: &Bridge, vm_id: u64) -> (r: bool)
    requires
        bridge.wf(),
    ensures
        r == (bridge@.vm_live(vm_id) && bridge@.vm(vm_id).booted),
        r ==> bridge@.vm(vm_id).machine,
{
    match vm_index_from_handle(vm_id) {
        Err(_) => false,
        Ok(index) => {
            assert(bridge@.vms[index as int].booted == bridge@.vms[index as int].machine);
            bridge.vms[index].in_use && bridge.vms[index].booted
        },
    }
}

} // verus!
