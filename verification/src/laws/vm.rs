//! VM records and recorded guest pages.
use vstd::prelude::*;

use crate::laws::boot::{lemma_read_only, maps_the_page, page_of};
use crate::laws::codes::{invalid, no_space};
use crate::laws::timers::{is_set_for, is_slot, timer};
use crate::state::{lemma_mapping_count_bounded, mapping_count, Bridge, BridgeView, PageMapping};
use crate::timers::{TimerProgram, TimerTables};
use crate::vm::{
    axvisor_kvm_rs_create_vm, axvisor_kvm_rs_destroy_vm, axvisor_kvm_rs_map_page, axvisor_kvm_rs_map_page_nolog,
    axvisor_kvm_rs_set_vm_state, axvisor_kvm_rs_unmap_range, axvm_for_vm_id, finish_map_page, finish_unmap_range,
    machine_code, vcpu_num, MapPageStep, UnmapStep,
};

verus! {

/// A handle names a VM that exists.
pub open spec fn vm_there(b: BridgeView, vm: u64) -> bool {
    1 <= vm <= 16 && b.vms[vm - 1].in_use
}

/// A VM is created in the lowest free record, with nothing set and nothing running, and
/// its handle is told. It is refused where there is no place for the handle or no free
/// record, and then nothing changes.
pub proof fn created_vm_takes_the_lowest_free_record(b: &mut Bridge, handle: &mut Option<u64>, r: i32)
    requires
        old(b).wf(),
        call_ensures(axvisor_kvm_rs_create_vm, (b, handle), r),
    ensures
        ({
            let full = forall|i: int| 0 <= i < 16 ==> (#[trigger] old(b)@.vms[i]).in_use;
            &&& *old(handle) is None ==> r == invalid()
            &&& *old(handle) is Some && full ==> r == no_space()
            &&& *old(handle) is Some && !full ==> r == 0
            &&& r != 0 ==> final(b)@ == old(b)@ && *final(handle) == *old(handle)
        }),
        r == 0 ==> {
            let h = (*final(handle))->Some_0;
            let vm = final(b)@.vms[h - 1];
            &&& *final(handle) is Some && 1 <= h <= 16
            &&& !old(b)@.vms[h - 1].in_use
            &&& forall|i: int| 0 <= i < h - 1 ==> (#[trigger] old(b)@.vms[i]).in_use
            &&& vm.in_use && !vm.booted && !vm.machine && vm.vcpu_count == 0 && vm.page_mapping_count == 0
            &&& vm.version == 0 && vm.arch == 0 && !vm.irqchip_created && !vm.pit_created && vm.pit_flags == 0
            &&& vm.tss_addr == 0 && vm.identity_map_addr == 0 && vm.nr_irqchips == 0 && vm.ioapic_redirtbl_count == 0
            &&& forall|i: int| 0 <= i < 24 ==> #[trigger] vm.ioapic_redirtbl@[i] == 0
            &&& forall|i: int| 0 <= i < 16 && i != h - 1 ==> #[trigger] final(b)@.vms[i] == old(b)@.vms[i]
            &&& final(b)@.vcpus == old(b)@.vcpus && final(b)@.mappings == old(b)@.mappings
        },
{
}

/// A VM that was destroyed is gone with its recorded pages and its timers; the records,
/// pages and timers of every other VM stay, and so do the vCPU records.
pub proof fn destroyed_vm_takes_its_pages_and_timers<C>(
    b: &mut Bridge,
    t: &mut TimerTables<C>,
    vm: u64,
    r: Option<TimerProgram>,
    k: int,
    v: int,
    i: int,
)
    requires
        old(b).wf(),
        old(t).wf(),
        0 <= k < 262_144,
        is_slot(v, i),
        call_ensures(axvisor_kvm_rs_destroy_vm::<C>, (b, t, vm), r),
    ensures
        r is None <==> vm == 0 || vm > 16,
        r is None ==> final(b)@ == old(b)@ && final(t)@ == old(t)@,
        r matches Some(p) ==> {
            &&& is_set_for(p, *final(t))
            &&& !final(b)@.vms[vm - 1].in_use && !final(b)@.vms[vm - 1].booted && final(b)@.vms[vm - 1].vcpu_count == 0
            &&& forall|j: int| 0 <= j < 16 && j != vm - 1 ==> #[trigger] final(b)@.vms[j] == old(b)@.vms[j]
            &&& final(b)@.vcpus == old(b)@.vcpus
            &&& if page_of(old(b)@.mappings[k], vm) {
                !final(b)@.mappings[k].in_use
            } else {
                final(b)@.mappings[k] == old(b)@.mappings[k]
            }
            &&& ({
                let was = timer(*old(t), v, i);
                if was.in_use && was.vm_id == vm {
                    !timer(*final(t), v, i).in_use
                } else {
                    timer(*final(t), v, i) == was
                }
            })
        },
{
    if let Some(p) = r {
        crate::laws::timers::lemma_set_for(p, *final(t));
        assert(old(t)@.tables[v].len() == 64);
        assert(timer(*old(t), v, i) == old(t)@.at(v, i));
        assert(timer(*final(t), v, i) == final(t)@.at(v, i));
    }
}

/// The state of a VM that was set is what its record holds, each value under its name,
/// and the redirection entries that were given, at most 24, with zero after them; what
/// the caller does not set stays.
pub proof fn set_vm_state_is_held(
    b: &mut Bridge,
    vm: u64,
    version: u32,
    arch: u32,
    irqchip: u32,
    pit: u32,
    pit_flags: u32,
    tss_addr: u32,
    identity_map_addr: u64,
    nr_irqchips: u32,
    table: Option<&[u64]>,
    count: u32,
    r: i32,
    i: int,
)
    requires
        old(b).wf(),
        0 <= i < 24,
        call_ensures(
            axvisor_kvm_rs_set_vm_state,
            (
                b,
                vm,
                version,
                arch,
                irqchip,
                pit,
                pit_flags,
                tss_addr,
                identity_map_addr,
                nr_irqchips,
                table,
                count,
            ),
            r,
        ),
    ensures
        !vm_there(old(b)@, vm) ==> r == invalid() && final(b)@ == old(b)@,
        vm_there(old(b)@, vm) ==> {
            let was = old(b)@.vms[vm - 1];
            let now = final(b)@.vms[vm - 1];
            &&& r == 0
            &&& now.version == version && now.arch == arch && now.pit_flags == pit_flags && now.tss_addr == tss_addr
            &&& now.identity_map_addr == identity_map_addr && now.nr_irqchips == nr_irqchips
            &&& now.irqchip_created <==> irqchip > 0
            &&& now.pit_created <==> pit > 0
            &&& now.ioapic_redirtbl_count == (if table is None {
                0
            } else if count < 24 {
                count as int
            } else {
                24
            })
            &&& now.ioapic_redirtbl@[i] == (if table is Some && i < count {
                table->Some_0@[i]
            } else {
                0
            })
            &&& now.in_use && now.booted == was.booted && now.machine == was.machine && now.vcpu_count == was.vcpu_count
                && now.page_mapping_count == was.page_mapping_count
            &&& forall|j: int| 0 <= j < 16 && j != vm - 1 ==> #[trigger] final(b)@.vms[j] == old(b)@.vms[j]
            &&& final(b)@.vcpus == old(b)@.vcpus && final(b)@.mappings == old(b)@.mappings
        },
{
}

/// A record of a guest page of a VM.
pub open spec fn page_at(m: PageMapping, vm: u64, gpa: u64) -> bool {
    page_of(m, vm) && m.gpa == gpa
}

/// A page is recorded: in the record that it had, or else in one that was free, with its
/// new host address and flags; no other record changes, and the VM counts one more page
/// exactly where it is new.
pub open spec fn records(was: BridgeView, now: BridgeView, vm: u64, gpa: u64, hpa: u64, flags: u32) -> bool {
    exists|i: int|
        {
            let m = #[trigger] now.mappings[i];
            let known = page_at(was.mappings[i], vm, gpa);
            &&& 0 <= i < 262_144
            &&& m.in_use && m.vm_handle == vm && m.gpa == gpa && m.hpa == hpa && m.flags == flags
            &&& known || (!was.mappings[i].in_use && forall|j: int|
                0 <= j < 262_144 ==> !page_at(#[trigger] was.mappings[j], vm, gpa))
            &&& forall|j: int| 0 <= j < 262_144 && j != i ==> #[trigger] now.mappings[j] == was.mappings[j]
            &&& now.vms[vm - 1].page_mapping_count == was.vms[vm - 1].page_mapping_count + (if known {
                0int
            } else {
                1
            })
            &&& now.vms[vm - 1].booted == was.vms[vm - 1].booted && now.vms[vm - 1].vcpu_count == was.vms[vm
                - 1].vcpu_count && now.vms[vm - 1].in_use
            &&& forall|j: int| 0 <= j < 16 && j != vm - 1 ==> #[trigger] now.vms[j] == was.vms[j]
            &&& now.vcpus == was.vcpus
        }
}

/// A page can be recorded: it has a record, or one is free.
pub open spec fn has_room(b: BridgeView, vm: u64, gpa: u64) -> bool {
    exists|i: int| 0 <= i < 262_144 && (!(#[trigger] b.mappings[i]).in_use || page_at(b.mappings[i], vm, gpa))
}

proof fn lemma_has_room(b: BridgeView, vm: u64, gpa: u64)
    requires
        b.shaped(),
    ensures
        has_room(b, vm, gpa) == (b.has_page(vm, gpa) || !b.mappings_full()),
{
    if has_room(b, vm, gpa) {
        let i = choose|i: int|
            0 <= i < 262_144 && (!(#[trigger] b.mappings[i]).in_use || page_at(b.mappings[i], vm, gpa));
        if b.mappings[i].in_use {
            assert(b.page_at(vm, gpa, i));
        }
    }
    if b.has_page(vm, gpa) {
        let i = choose|i: int| b.page_at(vm, gpa, i);
        assert(page_at(b.mappings[i], vm, gpa));
    }
    if !b.mappings_full() {
        let i = choose|i: int| 0 <= i < b.mappings.len() && !(#[trigger] b.mappings[i]).in_use;
        assert(!b.mappings[i].in_use);
    }
}

proof fn lemma_records(was: BridgeView, now: BridgeView, vm: u64, gpa: u64, hpa: u64, flags: u32)
    requires
        was.inv(),
        vm_there(was, vm),
        was.page_recorded(vm, gpa, hpa, flags, now),
    ensures
        records(was, now, vm, gpa, hpa, flags),
{
    if was.has_page(vm, gpa) {
        let i = choose|i: int|
            {
                &&& #[trigger] was.page_at(vm, gpa, i)
                &&& now == was.with_mapping_at(i, (PageMapping { hpa, flags, ..was.mappings[i] }))
            };
        assert(page_at(was.mappings[i], vm, gpa));
        assert(now.mappings[i].gpa == gpa);
    } else {
        let i = choose|i: int|
            {
                &&& #[trigger] was.first_free_mapping(i)
                &&& now == was.with_mapping_at(i, (PageMapping { in_use: true, vm_handle: vm, gpa, hpa, flags })).with_vm(
                    vm,
                    (crate::state::BackendVm {
                        page_mapping_count: (was.vm(vm).page_mapping_count + 1) as usize,
                        ..was.vm(vm)
                    }),
                )
            };
        assert(was.first_free_mapping(i));
        assert forall|j: int| 0 <= j < 262_144 implies !page_at(#[trigger] was.mappings[j], vm, gpa) by {
            if page_at(was.mappings[j], vm, gpa) {
                assert(was.page_at(vm, gpa, j));
            }
        }
        assert(was.vm(vm).page_mapping_count == mapping_count(was.mappings, vm));
        lemma_mapping_count_bounded(was.mappings, vm);
        assert(now.mappings[i].gpa == gpa);
    }
}

/// Mapping a page is refused unless the VM exists and both addresses are those of pages.
/// A VM that runs has its machine map the page, as asked, before it is recorded; else the
/// page is recorded at once, where there is room.
pub proof fn mapped_page_is_recorded(b: &mut Bridge, vm: u64, gpa: u64, hpa: u64, flags: u32, step: MapPageStep)
    requires
        old(b).wf(),
        call_ensures(axvisor_kvm_rs_map_page, (b, vm, gpa, hpa, flags), step),
    ensures
        ({
            let asked = vm_there(old(b)@, vm) && gpa as int % 4096 == 0 && hpa as int % 4096 == 0;
            &&& !asked ==> step == MapPageStep::Done(invalid()) && final(b)@ == old(b)@
            &&& asked && old(b)@.vms[vm - 1].machine ==> {
                &&& step matches MapPageStep::MapRegion(region) && maps_the_page(region, gpa, hpa, flags)
                &&& final(b)@ == old(b)@
            }
            &&& asked && !old(b)@.vms[vm - 1].machine && has_room(old(b)@, vm, gpa) ==> {
                &&& step == MapPageStep::Done(0)
                &&& records(old(b)@, final(b)@, vm, gpa, hpa, flags)
            }
            &&& asked && !old(b)@.vms[vm - 1].machine && !has_room(old(b)@, vm, gpa) ==> {
                &&& step == MapPageStep::Done(no_space())
                &&& final(b)@ == old(b)@
            }
        }),
{
    lemma_read_only(flags);
    lemma_has_room(old(b)@, vm, gpa);
    let asked = vm_there(old(b)@, vm) && gpa as int % 4096 == 0 && hpa as int % 4096 == 0;
    if asked && !old(b)@.vms[vm - 1].machine && has_room(old(b)@, vm, gpa) {
        lemma_records(old(b)@, final(b)@, vm, gpa, hpa, flags);
    }
}

/// A page that the machine mapped is recorded, where there is room; one that it refused is
/// not, and its error is the result.
pub proof fn machine_mapped_page_is_recorded(
    b: &mut Bridge,
    vm: u64,
    gpa: u64,
    hpa: u64,
    flags: u32,
    outcome: Result<(), i32>,
    r: i32,
)
    requires
        old(b).wf(),
        vm_there(old(b)@, vm),
        call_ensures(finish_map_page, (b, vm, gpa, hpa, flags, outcome), r),
    ensures
        outcome matches Err(err) ==> r == err && final(b)@ == old(b)@,
        outcome is Ok && has_room(old(b)@, vm, gpa) ==> r == 0 && records(old(b)@, final(b)@, vm, gpa, hpa, flags),
        outcome is Ok && !has_room(old(b)@, vm, gpa) ==> r == no_space() && final(b)@ == old(b)@,
{
    lemma_has_room(old(b)@, vm, gpa);
    if outcome is Ok && has_room(old(b)@, vm, gpa) {
        lemma_records(old(b)@, final(b)@, vm, gpa, hpa, flags);
    }
}

/// Mapping without recording asks the machine of a VM that runs for that page, and is
/// refused for any other.
pub proof fn unrecorded_page_goes_to_the_machine(b: &Bridge, vm: u64, gpa: u64, hpa: u64, flags: u32, step: MapPageStep)
    requires
        b.wf(),
        call_ensures(axvisor_kvm_rs_map_page_nolog, (b, vm, gpa, hpa, flags), step),
    ensures
        ({
            let asked = vm_there(b@, vm) && gpa as int % 4096 == 0 && hpa as int % 4096 == 0 && b@.vms[vm - 1].machine;
            &&& asked ==> (step matches MapPageStep::MapRegion(region) && maps_the_page(region, gpa, hpa, flags))
            &&& !asked ==> step == MapPageStep::Done(invalid())
        }),
{
    lemma_read_only(flags);
}

/// A range of a VM's pages is forgotten: exactly the records of that VM from the range's
/// start up to its end, which is at most the largest address.
pub open spec fn forgets(was: BridgeView, now: BridgeView, vm: u64, gpa: u64, size: u64) -> bool {
    &&& forall|i: int|
        0 <= i < 262_144 ==> {
            let m = was.mappings[i];
            if page_of(m, vm) && gpa <= m.gpa && m.gpa < gpa + size && m.gpa < u64::MAX {
                !(#[trigger] now.mappings[i]).in_use
            } else {
                now.mappings[i] == m
            }
        }
    &&& now.vcpus == was.vcpus
    &&& forall|j: int| 0 <= j < 16 && j != vm - 1 ==> #[trigger] now.vms[j] == was.vms[j]
    &&& now.vms[vm - 1].booted == was.vms[vm - 1].booted && now.vms[vm - 1].in_use && now.vms[vm - 1].vcpu_count
        == was.vms[vm - 1].vcpu_count
}

/// Unmapping a range of no length does nothing; else it is refused unless the range is one
/// of pages and the VM exists. A VM that runs has its machine unmap the range, as asked,
/// before it is forgotten; else it is forgotten at once.
pub proof fn unmapped_range_is_forgotten(b: &mut Bridge, vm: u64, gpa: u64, size: u64, step: UnmapStep)
    requires
        old(b).wf(),
        call_ensures(axvisor_kvm_rs_unmap_range, (b, vm, gpa, size), step),
    ensures
        ({
            let named = 1 <= vm <= 16;
            let asked = size > 0 && gpa as int % 4096 == 0 && size as int % 4096 == 0 && vm_there(old(b)@, vm);
            &&& !named || (size > 0 && !asked) ==> step == UnmapStep::Done(invalid()) && final(b)@ == old(b)@
            &&& named && size == 0 ==> step == UnmapStep::Done(0) && final(b)@ == old(b)@
            &&& asked && old(b)@.vms[vm - 1].machine ==> {
                &&& step matches UnmapStep::UnmapRegion { gpa: at, size: len } && at.0 == gpa && len == size
                &&& final(b)@ == old(b)@
            }
            &&& asked && !old(b)@.vms[vm - 1].machine ==> step == UnmapStep::Done(0) && forgets(
                old(b)@,
                final(b)@,
                vm,
                gpa,
                size,
            )
        }),
{
}

/// A range that the machine unmapped is forgotten; one that it refused is not, and its
/// error is the result.
pub proof fn machine_unmapped_range_is_forgotten(
    b: &mut Bridge,
    vm: u64,
    gpa: u64,
    size: u64,
    outcome: Result<(), i32>,
    r: i32,
)
    requires
        old(b).wf(),
        vm_there(old(b)@, vm),
        call_ensures(finish_unmap_range, (b, vm, gpa, size, outcome), r),
    ensures
        outcome is Ok ==> r == 0 && forgets(old(b)@, final(b)@, vm, gpa, size),
        outcome matches Err(err) ==> r == err && final(b)@ == old(b)@,
{
}

/// The machine's outcome is the result of a call that ends with it.
pub proof fn machines_outcome_is_the_result(outcome: Result<(), i32>, r: i32)
    requires
        call_ensures(machine_code, (outcome,), r),
    ensures
        outcome is Ok ==> r == 0,
        outcome matches Err(err) ==> r == err,
{
}

/// A VM counts at least one vCPU, and can be interrupted exactly where it runs.
pub proof fn vm_counts_and_runs(b: &Bridge, vm: u64, n: Option<u32>, runs: bool)
    requires
        b.wf(),
        call_ensures(vcpu_num, (b, vm), n),
        call_ensures(axvm_for_vm_id, (b, vm), runs),
    ensures
        n is Some <==> vm_there(b@, vm),
        n matches Some(k) ==> k >= 1 && (b@.vms[vm - 1].vcpu_count > 0 ==> k == b@.vms[vm - 1].vcpu_count) && (
        b@.vms[vm - 1].vcpu_count == 0 ==> k == 1),
        runs <==> vm_there(b@, vm) && b@.vms[vm - 1].booted,
{
}

/// A VM counts exactly the pages that are recorded for it.
pub proof fn counted_pages_are_those_recorded(b: &Bridge, vm: u64)
    requires
        b.wf(),
        1 <= vm <= 16,
    ensures
        b.vms@[vm - 1].page_mapping_count == b.mappings@.filter(
            |m: PageMapping| m.in_use && m.vm_handle == vm,
        ).len(),
{
    assert(b@.vm(vm).page_mapping_count == mapping_count(b@.mappings, vm));
    lemma_counted(b.mappings@, vm);
}

proof fn lemma_counted(s: Seq<PageMapping>, vm: u64)
    ensures
        mapping_count(s, vm) == s.filter(|m: PageMapping| m.in_use && m.vm_handle == vm).len(),
    decreases s.len(),
{
    reveal(Seq::filter);
    if s.len() > 0 {
        lemma_counted(s.drop_last(), vm);
    }
}

} // verus!
