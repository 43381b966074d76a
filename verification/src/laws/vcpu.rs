//! vCPU records.
use vstd::prelude::*;

use crate::laws::codes::{invalid, no_space};
use crate::state::{
    vcpu_index_from_handle, vm_index_from_handle, BackendVcpu, Bridge, BridgeView, CpuidEntry, MsrEntry,
};
use crate::vcpu::{
    active_vcpus, axvisor_kvm_rs_create_vcpu, axvisor_kvm_rs_destroy_vcpu, axvisor_kvm_rs_set_vcpu_cpuid_entry,
    axvisor_kvm_rs_set_vcpu_dtable, axvisor_kvm_rs_set_vcpu_msr_entry, axvisor_kvm_rs_set_vcpu_regs,
    axvisor_kvm_rs_set_vcpu_segment, axvisor_kvm_rs_set_vcpu_sregs_control, axvisor_kvm_rs_set_vcpu_state,
    clear_vcpu_pending_reads, find_vcpu_slot_by_id, lemma_id_bound, reset_vcpu_slot_in_place,
};

verus! {

/// A handle names a vCPU that exists.
pub open spec fn there(b: BridgeView, handle: u64) -> bool {
    1 <= handle <= 64 && b.vcpus[handle - 1].in_use
}

/// Tables that differ in one vCPU's record alone.
pub open spec fn only_that_vcpu(was: BridgeView, now: BridgeView, handle: u64) -> bool {
    &&& now.vms == was.vms
    &&& now.mappings == was.mappings
    &&& now.vcpus.len() == was.vcpus.len()
    &&& forall|i: int| 0 <= i < 64 && i != handle - 1 ==> #[trigger] now.vcpus[i] == was.vcpus[i]
}

/// A call that sets something of a vCPU: refused without a change for a vCPU that does
/// not exist or a position that it does not have, and else that vCPU's state, and no
/// other record, changed.
pub open spec fn sets(was: BridgeView, now: BridgeView, handle: u64, place: bool, r: i32) -> bool {
    if there(was, handle) && place {
        &&& r == 0
        &&& only_that_vcpu(was, now, handle)
        &&& now.vcpus[handle - 1].state_dirty
    } else {
        r == invalid() && now == was
    }
}

/// Handles count the records from one.
pub proof fn handles_count_from_one(handle: u64, vm: Result<usize, i32>, vcpu: Result<usize, i32>)
    requires
        call_ensures(vm_index_from_handle, (handle,), vm),
        call_ensures(vcpu_index_from_handle, (handle,), vcpu),
    ensures
        vm matches Ok(i) ==> i + 1 == handle && i < 16,
        vm matches Err(e) ==> e == invalid() && (handle == 0 || handle > 16),
        vcpu matches Ok(i) ==> i + 1 == handle && i < 64,
        vcpu matches Err(e) ==> e == invalid() && (handle == 0 || handle > 64),
{
}

/// The run state that was set is what the record holds, each value under its name.
pub proof fn set_run_state_is_held(
    b: &mut Bridge,
    handle: u64,
    version: u32,
    arch: u32,
    rip: u64,
    rsp: u64,
    rflags: u64,
    cr0: u64,
    cr3: u64,
    cr4: u64,
    efer: u64,
    apic_base: u64,
    xcr0: u64,
    cpuid_nent: u32,
    nmsrs: u32,
    tsc_khz: u32,
    r: i32,
)
    requires
        old(b).wf(),
        call_ensures(
            axvisor_kvm_rs_set_vcpu_state,
            (
                b,
                handle,
                version,
                arch,
                rip,
                rsp,
                rflags,
                cr0,
                cr3,
                cr4,
                efer,
                apic_base,
                xcr0,
                cpuid_nent,
                nmsrs,
                tsc_khz,
            ),
            r,
        ),
    ensures
        sets(old(b)@, final(b)@, handle, true, r),
        there(old(b)@, handle) ==> {
            let was = old(b)@.vcpus[handle - 1];
            let now = final(b)@.vcpus[handle - 1];
            &&& now.rip == rip && now.rsp == rsp && now.rflags == rflags && now.cr0 == cr0 && now.cr3 == cr3 && now.cr4
                == cr4 && now.efer == efer && now.apic_base == apic_base && now.xcr0 == xcr0 && now.cpuid_nent == cpuid_nent
                && now.nmsrs == nmsrs && now.tsc_khz == tsc_khz
            &&& now.regs == was.regs && now.sregs == was.sregs && now.segments == was.segments && now.dtables
                == was.dtables && now.cpuid_entries == was.cpuid_entries && now.msr_entries == was.msr_entries
            &&& now.fxsave == was.fxsave && now.fxsave_valid == was.fxsave_valid && now.sipi_started == was.sipi_started
            &&& now.in_use && now.vm_handle == was.vm_handle && now.id == was.id && now.pending_mmio_read
                == was.pending_mmio_read && now.pending_io_read == was.pending_io_read
        },
{
}

/// The general registers that were set are what the record holds, each under its name.
pub proof fn set_registers_are_held(
    b: &mut Bridge,
    handle: u64,
    rax: u64,
    rbx: u64,
    rcx: u64,
    rdx: u64,
    rsi: u64,
    rdi: u64,
    rsp: u64,
    rbp: u64,
    r8: u64,
    r9: u64,
    r10: u64,
    r11: u64,
    r12: u64,
    r13: u64,
    r14: u64,
    r15: u64,
    rip: u64,
    rflags: u64,
    r: i32,
)
    requires
        old(b).wf(),
        call_ensures(
            axvisor_kvm_rs_set_vcpu_regs,
            (
                b,
                handle,
                rax,
                rbx,
                rcx,
                rdx,
                rsi,
                rdi,
                rsp,
                rbp,
                r8,
                r9,
                r10,
                r11,
                r12,
                r13,
                r14,
                r15,
                rip,
                rflags,
            ),
            r,
        ),
    ensures
        sets(old(b)@, final(b)@, handle, true, r),
        there(old(b)@, handle) ==> {
            let was = old(b)@.vcpus[handle - 1];
            let now = final(b)@.vcpus[handle - 1];
            &&& now.regs.rax == rax && now.regs.rbx == rbx && now.regs.rcx == rcx && now.regs.rdx == rdx
            &&& now.regs.rsi == rsi && now.regs.rdi == rdi && now.regs.rsp == rsp && now.regs.rbp == rbp
            &&& now.regs.r8 == r8 && now.regs.r9 == r9 && now.regs.r10 == r10 && now.regs.r11 == r11
            &&& now.regs.r12 == r12 && now.regs.r13 == r13 && now.regs.r14 == r14 && now.regs.r15 == r15
            &&& now.regs.rip == rip && now.regs.rflags == rflags
            &&& now == (BackendVcpu { regs: now.regs, state_dirty: now.state_dirty, ..was })
        },
{
}

/// The control registers that were set are what the record holds, each under its name.
pub proof fn set_control_registers_are_held(
    b: &mut Bridge,
    handle: u64,
    cr0: u64,
    cr2: u64,
    cr3: u64,
    cr4: u64,
    cr8: u64,
    efer: u64,
    apic_base: u64,
    r: i32,
)
    requires
        old(b).wf(),
        call_ensures(
            axvisor_kvm_rs_set_vcpu_sregs_control,
            (b, handle, cr0, cr2, cr3, cr4, cr8, efer, apic_base),
            r,
        ),
    ensures
        sets(old(b)@, final(b)@, handle, true, r),
        there(old(b)@, handle) ==> {
            let was = old(b)@.vcpus[handle - 1];
            let now = final(b)@.vcpus[handle - 1];
            &&& now.sregs.cr0 == cr0 && now.sregs.cr2 == cr2 && now.sregs.cr3 == cr3 && now.sregs.cr4 == cr4
            &&& now.sregs.cr8 == cr8 && now.sregs.efer == efer && now.sregs.apic_base == apic_base
            &&& now == (BackendVcpu { sregs: now.sregs, state_dirty: now.state_dirty, ..was })
        },
{
}

/// The segment that was set is what the record holds at its position, each attribute
/// under its name, and no other segment changed.
pub proof fn set_segment_is_held(
    b: &mut Bridge,
    handle: u64,
    segment_id: u32,
    base: u64,
    limit: u32,
    selector: u32,
    type_: u32,
    present: u32,
    dpl: u32,
    db: u32,
    s: u32,
    l: u32,
    g: u32,
    avl: u32,
    unusable: u32,
    r: i32,
)
    requires
        old(b).wf(),
        call_ensures(
            axvisor_kvm_rs_set_vcpu_segment,
            (b, handle, segment_id, base, limit, selector, type_, present, dpl, db, s, l, g, avl, unusable),
            r,
        ),
    ensures
        sets(old(b)@, final(b)@, handle, segment_id < 8, r),
        there(old(b)@, handle) && segment_id < 8 ==> {
            let was = old(b)@.vcpus[handle - 1];
            let now = final(b)@.vcpus[handle - 1];
            let seg = now.segments@[segment_id as int];
            &&& seg.base == base && seg.limit == limit && seg.selector == selector && seg.type_ == type_
            &&& seg.present == present && seg.dpl == dpl && seg.db == db && seg.s == s && seg.l == l && seg.g == g
            &&& seg.avl == avl && seg.unusable == unusable
            &&& forall|i: int| 0 <= i < 8 && i != segment_id ==> #[trigger] now.segments@[i] == was.segments@[i]
            &&& now == (BackendVcpu { segments: now.segments, state_dirty: now.state_dirty, ..was })
        },
{
}

/// The descriptor table that was set is what the record holds at its position.
pub proof fn set_table_is_held(b: &mut Bridge, handle: u64, table_id: u32, base: u64, limit: u32, r: i32)
    requires
        old(b).wf(),
        call_ensures(axvisor_kvm_rs_set_vcpu_dtable, (b, handle, table_id, base, limit), r),
    ensures
        sets(old(b)@, final(b)@, handle, table_id < 2, r),
        there(old(b)@, handle) && table_id < 2 ==> {
            let was = old(b)@.vcpus[handle - 1];
            let now = final(b)@.vcpus[handle - 1];
            &&& now.dtables@[table_id as int].base == base && now.dtables@[table_id as int].limit == limit
            &&& forall|i: int| 0 <= i < 2 && i != table_id ==> #[trigger] now.dtables@[i] == was.dtables@[i]
            &&& now == (BackendVcpu { dtables: now.dtables, state_dirty: now.state_dirty, ..was })
        },
{
}

/// The CPUID entry that was set is what the record holds at its position.
pub proof fn set_cpuid_entry_is_held(
    b: &mut Bridge,
    handle: u64,
    at: u32,
    function: u32,
    index: u32,
    flags: u32,
    eax: u32,
    ebx: u32,
    ecx: u32,
    edx: u32,
    r: i32,
)
    requires
        old(b).wf(),
        call_ensures(
            axvisor_kvm_rs_set_vcpu_cpuid_entry,
            (b, handle, at, function, index, flags, eax, ebx, ecx, edx),
            r,
        ),
    ensures
        sets(old(b)@, final(b)@, handle, at < 256, r),
        there(old(b)@, handle) && at < 256 ==> {
            let was = old(b)@.vcpus[handle - 1];
            let now = final(b)@.vcpus[handle - 1];
            let e = now.cpuid_entries@[at as int];
            &&& e.function == function && e.index == index && e.flags == flags
            &&& e.eax == eax && e.ebx == ebx && e.ecx == ecx && e.edx == edx
            &&& forall|i: int| 0 <= i < 256 && i != at ==> #[trigger] now.cpuid_entries@[i] == was.cpuid_entries@[i]
            &&& now == (BackendVcpu { cpuid_entries: now.cpuid_entries, state_dirty: now.state_dirty, ..was })
        },
{
}

/// The MSR entry that was set is what the record holds at its position.
pub proof fn set_msr_entry_is_held(b: &mut Bridge, handle: u64, at: u32, index: u32, data: u64, r: i32)
    requires
        old(b).wf(),
        call_ensures(axvisor_kvm_rs_set_vcpu_msr_entry, (b, handle, at, index, data), r),
    ensures
        sets(old(b)@, final(b)@, handle, at < 256, r),
        there(old(b)@, handle) && at < 256 ==> {
            let was = old(b)@.vcpus[handle - 1];
            let now = final(b)@.vcpus[handle - 1];
            &&& now.msr_entries@[at as int].index == index && now.msr_entries@[at as int].data == data
            &&& forall|i: int| 0 <= i < 256 && i != at ==> #[trigger] now.msr_entries@[i] == was.msr_entries@[i]
            &&& now == (BackendVcpu { msr_entries: now.msr_entries, state_dirty: now.state_dirty, ..was })
        },
{
}

/// A record of a vCPU of which nothing was set.
pub open spec fn is_clear(v: BackendVcpu) -> bool {
    &&& v.rip == 0 && v.rsp == 0 && v.rflags == 0 && v.cr0 == 0 && v.cr3 == 0 && v.cr4 == 0 && v.efer == 0 && v.apic_base
        == 0
    &&& v.cpuid_nent == 0 && v.nmsrs == 0 && v.tsc_khz == 0
    &&& v.regs.rax == 0 && v.regs.rbx == 0 && v.regs.rcx == 0 && v.regs.rdx == 0 && v.regs.rsi == 0 && v.regs.rdi == 0
    &&& v.regs.rsp == 0 && v.regs.rbp == 0 && v.regs.r8 == 0 && v.regs.r9 == 0 && v.regs.r10 == 0 && v.regs.r11 == 0
    &&& v.regs.r12 == 0 && v.regs.r13 == 0 && v.regs.r14 == 0 && v.regs.r15 == 0 && v.regs.rip == 0 && v.regs.rflags == 0
    &&& v.sregs.cr0 == 0 && v.sregs.cr2 == 0 && v.sregs.cr3 == 0 && v.sregs.cr4 == 0 && v.sregs.cr8 == 0 && v.sregs.efer
        == 0 && v.sregs.apic_base == 0
    &&& forall|i: int|
        0 <= i < 8 ==> (#[trigger] v.segments@[i]).base == 0 && v.segments@[i].limit == 0 && v.segments@[i].selector == 0
            && v.segments@[i].type_ == 0 && v.segments@[i].present == 0 && v.segments@[i].dpl == 0 && v.segments@[i].db
            == 0 && v.segments@[i].s == 0 && v.segments@[i].l == 0 && v.segments@[i].g == 0 && v.segments@[i].avl == 0
            && v.segments@[i].unusable == 0
    &&& forall|i: int| 0 <= i < 2 ==> (#[trigger] v.dtables@[i]).base == 0 && v.dtables@[i].limit == 0
    &&& forall|i: int|
        0 <= i < 256 ==> #[trigger] v.cpuid_entries@[i] == (CpuidEntry {
            function: 0,
            index: 0,
            flags: 0,
            eax: 0,
            ebx: 0,
            ecx: 0,
            edx: 0,
        })
    &&& forall|i: int| 0 <= i < 256 ==> #[trigger] v.msr_entries@[i] == (MsrEntry { index: 0, data: 0 })
    &&& !v.fxsave_valid && !v.state_dirty && !v.sipi_started
    &&& forall|i: int| 0 <= i < 512 ==> #[trigger] v.fxsave.bytes@[i] == 0
    &&& !v.pending_mmio_read.active && !v.pending_io_read.active
}

/// A vCPU is created in the lowest free record, with nothing set, for its VM and under
/// its id; its handle is told, and its VM counts at least up to that id. It is refused
/// where there is no place for the handle, no such VM, or no free record.
pub proof fn created_vcpu_takes_the_lowest_free_record(
    b: &mut Bridge,
    vm: u64,
    id: u32,
    handle: &mut Option<u64>,
    r: i32,
)
    requires
        old(b).wf(),
        id < u32::MAX,
        call_ensures(axvisor_kvm_rs_create_vcpu, (b, vm, id, handle), r),
    ensures
        ({
            let asked = *old(handle) is Some && 1 <= vm <= 16 && old(b)@.vms[vm - 1].in_use;
            let full = forall|i: int| 0 <= i < 64 ==> (#[trigger] old(b)@.vcpus[i]).in_use;
            &&& !asked ==> r == invalid()
            &&& asked && full ==> r == no_space()
            &&& asked && !full ==> r == 0
            &&& r != 0 ==> final(b)@ == old(b)@ && *final(handle) == *old(handle)
        }),
        r == 0 ==> {
            let h = (*final(handle))->Some_0;
            let now = final(b)@.vcpus[h - 1];
            let count = old(b)@.vms[vm - 1].vcpu_count;
            &&& *final(handle) is Some && 1 <= h <= 64
            &&& !old(b)@.vcpus[h - 1].in_use
            &&& forall|i: int| 0 <= i < h - 1 ==> (#[trigger] old(b)@.vcpus[i]).in_use
            &&& now.in_use && now.vm_handle == vm && now.id == id && is_clear(now) && now.xcr0 == old(b)@.vcpus[h - 1].xcr0
            &&& forall|i: int| 0 <= i < 64 && i != h - 1 ==> #[trigger] final(b)@.vcpus[i] == old(b)@.vcpus[i]
            &&& final(b)@.vms[vm - 1].vcpu_count == (if count > id + 1 {
                count as int
            } else {
                id + 1
            })
            &&& final(b)@.vms[vm - 1].booted == old(b)@.vms[vm - 1].booted
            &&& final(b)@.vms[vm - 1].page_mapping_count == old(b)@.vms[vm - 1].page_mapping_count
            &&& forall|i: int| 0 <= i < 16 && i != vm - 1 ==> #[trigger] final(b)@.vms[i] == old(b)@.vms[i]
            &&& final(b)@.mappings == old(b)@.mappings
        },
{
}

/// A vCPU that was destroyed is gone and leaves nothing behind, and its VM counts up to
/// the largest id that is left; other vCPUs and VMs stay.
pub proof fn destroyed_vcpu_leaves_nothing(b: &mut Bridge, handle: u64)
    requires
        old(b).wf(),
        call_ensures(axvisor_kvm_rs_destroy_vcpu, (b, handle), ()),
    ensures
        !(1 <= handle <= 64) ==> final(b)@ == old(b)@,
        1 <= handle <= 64 ==> {
            let was = old(b)@.vcpus[handle - 1];
            let now = final(b)@.vcpus[handle - 1];
            let vm = was.vm_handle;
            let counted = was.in_use && 1 <= vm <= 16 && old(b)@.vms[vm - 1].in_use && old(b)@.vms[vm - 1].vcpu_count > 0;
            &&& !now.in_use && is_clear(now) && now.xcr0 == was.xcr0
            &&& forall|i: int| 0 <= i < 64 && i != handle - 1 ==> #[trigger] final(b)@.vcpus[i] == old(b)@.vcpus[i]
            &&& final(b)@.mappings == old(b)@.mappings
            &&& !counted ==> final(b)@.vms == old(b)@.vms
            &&& counted ==> {
                let count = final(b)@.vms[vm - 1].vcpu_count;
                &&& forall|i: int|
                    0 <= i < 64 && (#[trigger] final(b)@.vcpus[i]).in_use && final(b)@.vcpus[i].vm_handle == vm
                        ==> final(b)@.vcpus[i].id < count
                &&& count > 0 ==> exists|i: int|
                    0 <= i < 64 && (#[trigger] final(b)@.vcpus[i]).in_use && final(b)@.vcpus[i].vm_handle == vm
                        && final(b)@.vcpus[i].id + 1 == count
                &&& final(b)@.vms[vm - 1].in_use && final(b)@.vms[vm - 1].booted == old(b)@.vms[vm - 1].booted
                &&& forall|i: int| 0 <= i < 16 && i != vm - 1 ==> #[trigger] final(b)@.vms[i] == old(b)@.vms[i]
            }
        },
{
    if 1 <= handle <= 64 {
        let was = old(b)@.vcpus[handle - 1];
        let vm = was.vm_handle;
        let freed = old(b)@.with_vcpu(handle, BackendVcpu::spec_cleared(was.xcr0));
        lemma_id_bound(freed.vcpus, vm);
        assert(final(b)@.vcpus =~= freed.vcpus);
        if was.in_use && 1 <= vm <= 16 && old(b)@.vms[vm - 1].in_use && old(b)@.vms[vm - 1].vcpu_count > 0 {
            let n = crate::vcpu::id_bound(freed.vcpus, vm);
            if n > 0 {
                let k = choose|i: int|
                    0 <= i < freed.vcpus.len() && (#[trigger] freed.vcpus[i]).of(vm) && freed.vcpus[i].id + 1 == n;
                assert(final(b)@.vcpus[k].in_use);
                assert(final(b)@.vcpus[k].id < u32::MAX);
            }
            assert forall|i: int|
                0 <= i < 64 && (#[trigger] final(b)@.vcpus[i]).in_use && final(b)@.vcpus[i].vm_handle
                    == vm implies final(b)@.vcpus[i].id < final(b)@.vms[vm - 1].vcpu_count by {
                assert(freed.vcpus[i].of(vm));
            }
        }
    }
}

/// A record that was reset is free and clear; the one register that it keeps is
/// `xcr0`.
pub proof fn reset_record_is_clear(b: &mut Bridge, slot: usize)
    requires
        old(b).wf(),
        slot < 64,
        call_ensures(reset_vcpu_slot_in_place, (b, slot), ()),
    ensures
        !final(b)@.vcpus[slot as int].in_use,
        is_clear(final(b)@.vcpus[slot as int]),
        final(b)@.vcpus[slot as int].xcr0 == old(b)@.vcpus[slot as int].xcr0,
        only_that_vcpu(old(b)@, final(b)@, (slot + 1) as u64),
{
}

/// Forgetting the reads that wait forgets them both, of that vCPU, and nothing else.
pub proof fn forgotten_reads_wait_no_more(b: &mut Bridge, slot: usize)
    requires
        old(b).wf(),
        slot < 64,
        call_ensures(clear_vcpu_pending_reads, (b, slot), ()),
    ensures
        crate::laws::run::waits_for_nothing(final(b)@.vcpus[slot as int]),
        crate::laws::run::same_but_for_reads(old(b)@.vcpus[slot as int], final(b)@.vcpus[slot as int]),
        only_that_vcpu(old(b)@, final(b)@, (slot + 1) as u64),
{
}

/// The lowest record of a VM's vCPU with an id is found exactly where there is one.
pub proof fn vcpu_is_found_by_its_id(b: &Bridge, vm: u64, id: u32, r: Option<usize>, i: int)
    requires
        b.wf(),
        0 <= i < 64,
        call_ensures(find_vcpu_slot_by_id, (b, vm, id), r),
    ensures
        ({
            let is_it = |k: int| b.vcpus@[k].in_use && b.vcpus@[k].vm_handle == vm && b.vcpus@[k].id == id;
            &&& r matches Some(slot) ==> slot < 64 && is_it(slot as int) && (i < slot ==> !is_it(i))
            &&& r is None ==> !is_it(i)
        }),
{
    assert(b@.vcpus[i] == b.vcpus@[i]);
    if let Some(slot) = r {
        assert(b@.vcpus[slot as int] == b.vcpus@[slot as int]);
    }
}

/// The mask of a VM's vCPUs has the bit of an id exactly where the VM has a vCPU with
/// that id, started or not.
pub proof fn mask_has_the_ids_of_the_vm(b: &Bridge, vm: u64, r: Option<u64>, k: u64, i: int)
    requires
        b.wf(),
        k < 64,
        0 <= i < 64,
        call_ensures(active_vcpus, (b, vm), r),
    ensures
        r is None <==> vm == 0 || vm > 16,
        r matches Some(mask) ==> {
            &&& b.vcpus@[i].in_use && b.vcpus@[i].vm_handle == vm && b.vcpus@[i].id == k ==> (mask >> k) & 1 == 1
            &&& (mask >> k) & 1 == 1 ==> exists|j: int|
                0 <= j < 64 && (#[trigger] b.vcpus@[j]).in_use && b.vcpus@[j].vm_handle == vm && b.vcpus@[j].id == k
        },
{
    if let Some(mask) = r {
        assert(b@.vcpus[i] == b.vcpus@[i]);
        if b.vcpus@[i].in_use && b.vcpus@[i].vm_handle == vm && b.vcpus@[i].id == k {
            assert(b@.vcpus[i].of(vm));
            assert(crate::vcpu::mask_bit(mask, k));
        }
        if (mask >> k) & 1 == 1 {
            assert(crate::vcpu::mask_bit(mask, k));
            let j = choose|j: int| 0 <= j < 64 && (#[trigger] b@.vcpus[j]).of(vm) && b@.vcpus[j].id == k;
            assert(b.vcpus@[j].in_use);
        }
    }
}

} // verus!
