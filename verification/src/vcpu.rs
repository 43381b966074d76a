//! vCPU records: creation, destruction, and the state that the KVM caller sets.
use vstd::prelude::*;

use crate::bytes::{
    copy_bytes, le_bytes, overwritten, set_default_fxsave_fields, with_default_fxsave_fields, write_u16_le,
    write_u32_le, write_u64_le, X86KvmFxsave, FXSAVE_FCW_OFFSET, FXSAVE_FOP_OFFSET, FXSAVE_FSW_OFFSET,
    FXSAVE_FTW_OFFSET, FXSAVE_MXCSR_MASK_OFFSET, FXSAVE_MXCSR_OFFSET, FXSAVE_RDP_OFFSET, FXSAVE_RIP_OFFSET,
    FXSAVE_SIZE, FXSAVE_ST_OFFSET, FXSAVE_ST_SIZE, FXSAVE_XMM_OFFSET, FXSAVE_XMM_SIZE, X86_MXCSR_VALID_MASK,
};
use crate::errno::{EINVAL, ENOSPC};
use crate::state::{
    mapping_count, vcpu_index_from_handle, vm_index_from_handle, BackendDtable, BackendRegs, BackendSegment, BackendSregs,
    BackendVcpu, BackendVm, Bridge, BridgeView, CpuidEntry, MsrEntry, PendingIoRead, PendingMmioRead,
    MAX_CPUID_ENTRIES, MAX_MSR_ENTRIES, MAX_VCPUS, MAX_VMS, NUM_DTABLES, NUM_SEGMENTS,
};
use crate::vm::lemma_vm_update_keeps_inv;

verus! {

impl BackendVcpu {
    /// This vCPU exists and belongs to a VM.
    pub open spec fn of(self, vm_handle: u64) -> bool {
        self.in_use && self.vm_handle == vm_handle
    }

    /// This vCPU competes for a host CPU: the first vCPU always, another one once
    /// it was started.
    pub open spec fn running(self, vm_handle: u64) -> bool {
        self.of(vm_handle) && (self.id == 0 || self.sipi_started)
    }

    /// This vCPU without reads that wait for data.
    pub open spec fn without_pending_reads(self) -> BackendVcpu {
        BackendVcpu {
            pending_mmio_read: PendingMmioRead::spec_empty(),
            pending_io_read: PendingIoRead::spec_empty(),
            ..self
        }
    }
}

/// How many vCPUs of a VM compete for host CPUs.
pub open spec fn running_count(s: Seq<BackendVcpu>, vm_handle: u64) -> nat
    decreases s.len(),
{
    if s.len() == 0 {
        0
    } else {
        running_count(s.drop_last(), vm_handle) + (if s.last().running(vm_handle) {
            1nat
        } else {
            0
        })
    }
}

/// One more than the largest id of a VM's vCPUs, zero without any.
pub open spec fn id_bound(s: Seq<BackendVcpu>, vm_handle: u64) -> int
    decreases s.len(),
{
    if s.len() == 0 {
        0
    } else {
        let rest = id_bound(s.drop_last(), vm_handle);
        if s.last().of(vm_handle) && s.last().id + 1 > rest {
            s.last().id + 1
        } else {
            rest
        }
    }
}

/// A vCPU record may change in what the tables' invariant does not speak of.
pub(crate) proof fn lemma_vcpu_update_keeps_inv(b: BridgeView, i: int, v: BackendVcpu)
    requires
        b.inv(),
        0 <= i < MAX_VCPUS,
        v.in_use ==> 1 <= v.vm_handle <= MAX_VMS && v.id < u32::MAX,
    ensures
        b.with_vcpu_at(i, v).inv(),
{
    let after = b.with_vcpu_at(i, v);
    assert forall|h: u64| 1 <= h <= MAX_VMS implies (#[trigger] after.vm(h)).page_mapping_count == mapping_count(
        after.mappings,
        h,
    ) by {
        assert(b.vm(h).page_mapping_count == mapping_count(b.mappings, h));
    }
    assert forall|k: int| 0 <= k < after.vcpus.len() && (#[trigger] after.vcpus[k]).in_use implies {
        &&& 1 <= after.vcpus[k].vm_handle <= MAX_VMS
        &&& after.vcpus[k].id < u32::MAX
    } by {
        assert(k != i ==> after.vcpus[k] == b.vcpus[k]);
    }
    assert forall|k: int| 0 <= k < after.mappings.len() && (#[trigger] after.mappings[k]).in_use implies after.vm_live(
        after.mappings[k].vm_handle,
    ) by {
        assert(b.mappings[k] == after.mappings[k]);
    }
}

/// The bound of ids is an upper bound, and is reached.
pub proof fn lemma_id_bound(s: Seq<BackendVcpu>, vm_handle: u64)
    ensures
        id_bound(s, vm_handle) >= 0,
        forall|i: int| 0 <= i < s.len() && (#[trigger] s[i]).of(vm_handle) ==> s[i].id < id_bound(s, vm_handle),
        id_bound(s, vm_handle) > 0 ==> exists|i: int|
            0 <= i < s.len() && (#[trigger] s[i]).of(vm_handle) && s[i].id + 1 == id_bound(s, vm_handle),
    decreases s.len(),
{
    if s.len() > 0 {
        let t = s.drop_last();
        lemma_id_bound(t, vm_handle);
        assert forall|i: int| 0 <= i < s.len() && (#[trigger] s[i]).of(vm_handle) implies s[i].id < id_bound(
            s,
            vm_handle,
        ) by {
            if i < t.len() {
                assert(t[i] == s[i]);
            }
        }
        if id_bound(s, vm_handle) > 0 {
            if s.last().of(vm_handle) && s.last().id + 1 > id_bound(t, vm_handle) {
                assert(s[s.len() - 1].of(vm_handle));
            } else {
                let i = choose|i: int|
                    0 <= i < t.len() && (#[trigger] t[i]).of(vm_handle) && t[i].id + 1 == id_bound(t, vm_handle);
                assert(t[i] == s[i]);
            }
        }
    }
}

/// The bound of ids is determined by being an upper bound that is reached.
proof fn lemma_id_bound_unique(s: Seq<BackendVcpu>, vm_handle: u64, n: int)
    requires
        n >= 0,
        forall|i: int| 0 <= i < s.len() && (#[trigger] s[i]).of(vm_handle) ==> s[i].id < n,
        n > 0 ==> exists|i: int| 0 <= i < s.len() && (#[trigger] s[i]).of(vm_handle) && s[i].id + 1 == n,
    ensures
        id_bound(s, vm_handle) == n,
{
    lemma_id_bound(s, vm_handle);
    let m = id_bound(s, vm_handle);
    if m > n {
        let i = choose|i: int| 0 <= i < s.len() && (#[trigger] s[i]).of(vm_handle) && s[i].id + 1 == m;
        assert(s[i].id < n);
    }
    if n > m {
        let i = choose|i: int| 0 <= i < s.len() && (#[trigger] s[i]).of(vm_handle) && s[i].id + 1 == n;
        assert(s[i].id < m);
    }
}

/// No more vCPUs compete than there are.
pub(crate) proof fn lemma_running_count_bounded(s: Seq<BackendVcpu>, vm_handle: u64)
    ensures
        running_count(s, vm_handle) <= s.len(),
    decreases s.len(),
{
    if s.len() > 0 {
        lemma_running_count_bounded(s.drop_last(), vm_handle);
    }
}

/// Frees a vCPU record in place. `xcr0` is left as it was.
pub fn reset_vcpu_slot_in_place(bridge: &mut Bridge, index: usize)
    requires
        old(bridge).wf(),
        index < MAX_VCPUS,
    ensures
        final(bridge).wf(),
        final(bridge)@ == old(bridge)@.with_vcpu_at(
            index as int,
            BackendVcpu::spec_cleared(old(bridge)@.vcpus[index as int].xcr0),
        ),
{
    let ghost before = bridge@;
    let ghost xcr0 = before.vcpus[index as int].xcr0;
    let mut vcpu: BackendVcpu = bridge.vcpus[index];
    vcpu.in_use = false;
    vcpu.vm_handle = 0;
    vcpu.id = 0;
    vcpu.rip = 0;
    vcpu.rsp = 0;
    vcpu.rflags = 0;
    vcpu.cr0 = 0;
    vcpu.cr3 = 0;
    vcpu.cr4 = 0;
    vcpu.efer = 0;
    vcpu.apic_base = 0;
    vcpu.cpuid_nent = 0;
    vcpu.nmsrs = 0;
    vcpu.tsc_khz = 0;
    vcpu.regs = BackendRegs::empty();
    vcpu.sregs = BackendSregs::empty();
    vcpu.segments = [BackendSegment::empty(); NUM_SEGMENTS];
    vcpu.dtables = [BackendDtable::empty(); NUM_DTABLES];
    vcpu.cpuid_entries = [CpuidEntry::empty(); MAX_CPUID_ENTRIES];
    vcpu.msr_entries = [MsrEntry::empty(); MAX_MSR_ENTRIES];
    vcpu.fxsave_valid = false;
    vcpu.fxsave = X86KvmFxsave::zeroed();
    vcpu.pending_mmio_read = PendingMmioRead::empty();
    vcpu.pending_io_read = PendingIoRead::empty();
    vcpu.state_dirty = false;
    vcpu.sipi_started = false;
    bridge.vcpus[index] = vcpu;
    proof {
        assert(vcpu == BackendVcpu::spec_cleared(xcr0));
        assert(bridge@.vcpus =~= before.vcpus.update(index as int, BackendVcpu::spec_cleared(xcr0)));
        lemma_vcpu_update_keeps_inv(before, index as int, BackendVcpu::spec_cleared(xcr0));
    }
}

/// Creates a vCPU of a VM in the first free record and stores its handle; the
/// VM's count covers the new id. Refused without a place for the handle, for a
/// VM that does not exist, or with every record taken.
pub fn axvisor_kvm_rs_create_vcpu(bridge: &mut Bridge, backend_vm: u64, vcpu_id: u32, backend_vcpu: &mut Option<u64>) -> (r:
    i32)
    requires
        old(bridge).wf(),
        vcpu_id < u32::MAX,
    ensures
        final(bridge).wf(),
        r == (if *old(backend_vcpu) is None || !old(bridge)@.vm_live(backend_vm) {
            -EINVAL
        } else if forall|i: int| 0 <= i < MAX_VCPUS ==> (#[trigger] old(bridge)@.vcpus[i]).in_use {
            -ENOSPC
        } else {
            0
        }),
        r != 0 ==> final(bridge)@ == old(bridge)@ && *final(backend_vcpu) == *old(backend_vcpu),
        r == 0 ==> {
            &&& *final(backend_vcpu) matches Some(h)
            &&& 1 <= h <= MAX_VCPUS
            &&& !old(bridge)@.vcpu_live(h)
            &&& forall|i: int| 0 <= i < h - 1 ==> (#[trigger] old(bridge)@.vcpus[i]).in_use
            &&& final(bridge)@ == old(bridge)@.with_vcpu(
                h,
                (BackendVcpu {
                    in_use: true,
                    vm_handle: backend_vm,
                    id: vcpu_id,
                    ..BackendVcpu::spec_cleared(old(bridge)@.vcpu(h).xcr0)
                }),
            ).with_vm(
                backend_vm,
                (BackendVm {
                    vcpu_count: if old(bridge)@.vm(backend_vm).vcpu_count > vcpu_id {
                        old(bridge)@.vm(backend_vm).vcpu_count
                    } else {
                        (vcpu_id + 1) as u32
                    },
                    ..old(bridge)@.vm(backend_vm)
                }),
            )
        },
{
    if backend_vcpu.is_none() {
        return -EINVAL;
    }
    let vm_index: usize = match vm_index_from_handle(backend_vm) {
        Ok(index) => index,
        Err(err) => {
            return err;
        },
    };
    if !bridge.vms[vm_index].in_use {
        return -EINVAL;
    }
    let ghost before = bridge@;
    let mut i: usize = 0;
    while i < MAX_VCPUS
        invariant
            i <= MAX_VCPUS,
            bridge.wf(),
            bridge@ == before,
            before == old(bridge)@,
            before.vm_live(backend_vm),
            vm_index == backend_vm - 1,
            vcpu_id < u32::MAX,
            *backend_vcpu == *old(backend_vcpu),
            *old(backend_vcpu) is Some,
            forall|j: int| 0 <= j < i ==> (#[trigger] before.vcpus[j]).in_use,
        decreases MAX_VCPUS - i,
    {
        if !bridge.vcpus[i].in_use {
            reset_vcpu_slot_in_place(bridge, i);
            bridge.vcpus[i].in_use = true;
            bridge.vcpus[i].vm_handle = backend_vm;
            bridge.vcpus[i].id = vcpu_id;
            if bridge.vms[vm_index].vcpu_count <= vcpu_id {
                bridge.vms[vm_index].vcpu_count = vcpu_id + 1;
            }
            *backend_vcpu = Some((i + 1) as u64);
            proof {
                let h: u64 = (i + 1) as u64;
                let fresh = BackendVcpu {
                    in_use: true,
                    vm_handle: backend_vm,
                    id: vcpu_id,
                    ..BackendVcpu::spec_cleared(before.vcpu(h).xcr0)
                };
                let vm = BackendVm {
                    vcpu_count: if before.vm(backend_vm).vcpu_count > vcpu_id {
                        before.vm(backend_vm).vcpu_count
                    } else {
                        (vcpu_id + 1) as u32
                    },
                    ..before.vm(backend_vm)
                };
                assert(bridge@.vcpus =~= before.vcpus.update(i as int, fresh));
                assert(bridge@.vms =~= before.vms.update(backend_vm - 1, vm));
                assert(bridge@ == before.with_vcpu(h, fresh).with_vm(backend_vm, vm));
                lemma_vcpu_update_keeps_inv(before, i as int, fresh);
                assert(before.vms[backend_vm - 1].booted == before.vms[backend_vm - 1].machine);
                lemma_vm_update_keeps_inv(before.with_vcpu(h, fresh), backend_vm, vm);
                assert(!before.vcpus[i as int].in_use);
            }
            return 0;
        }
        i += 1;
    }
    -ENOSPC
}

/// The tables after a vCPU was destroyed: its record is free, and its VM, where it
/// exists and counts vCPUs, counts up to the largest id that is left.
pub open spec fn vcpu_destroyed(b: BridgeView, handle: u64) -> BridgeView {
    let v = b.vcpu(handle);
    let freed = b.with_vcpu(handle, BackendVcpu::spec_cleared(v.xcr0));
    if v.in_use && b.vm_live(v.vm_handle) && b.vm(v.vm_handle).vcpu_count > 0 {
        freed.with_vm(
            v.vm_handle,
            BackendVm { vcpu_count: id_bound(freed.vcpus, v.vm_handle) as u32, ..b.vm(v.vm_handle) },
        )
    } else {
        freed
    }
}

/// Destroys a vCPU; a handle that names no record does nothing.
pub fn axvisor_kvm_rs_destroy_vcpu(bridge: &mut Bridge, backend_vcpu: u64)
    requires
        old(bridge).wf(),
    ensures
        final(bridge).wf(),
        final(bridge)@ == (if 1 <= backend_vcpu <= MAX_VCPUS {
            vcpu_destroyed(old(bridge)@, backend_vcpu)
        } else {
            old(bridge)@
        }),
{
    let index: usize = match vcpu_index_from_handle(backend_vcpu) {
        Ok(index) => index,
        Err(_) => {
            return ;
        },
    };
    let ghost before = bridge@;
    let ghost v = before.vcpu(backend_vcpu);
    let ghost freed = before.with_vcpu(backend_vcpu, BackendVcpu::spec_cleared(v.xcr0));
    assert(before.vcpus[index as int] == v);
    if bridge.vcpus[index].in_use {
        let vm_handle: u64 = bridge.vcpus[index].vm_handle;
        if let Ok(vm_index) = vm_index_from_handle(vm_handle) {
            if bridge.vms[vm_index].in_use && bridge.vms[vm_index].vcpu_count > 0 {
                let mut max_seen: u32 = 0;
                let mut i: usize = 0;
                while i < MAX_VCPUS
                    invariant
                        i <= MAX_VCPUS,
                        index < MAX_VCPUS,
                        index == backend_vcpu - 1,
                        bridge.wf(),
                        bridge@ == before,
                        before.vcpus[index as int] == v,
                        vm_handle == v.vm_handle,
                        freed == before.with_vcpu(backend_vcpu, BackendVcpu::spec_cleared(v.xcr0)),
                        forall|j: int|
                            0 <= j < i && (#[trigger] freed.vcpus[j]).of(vm_handle) ==> freed.vcpus[j].id < max_seen,
                        max_seen > 0 ==> exists|j: int|
                            0 <= j < i && (#[trigger] freed.vcpus[j]).of(vm_handle) && freed.vcpus[j].id + 1 == max_seen,
                    decreases MAX_VCPUS - i,
                {
                    assert(i != index ==> freed.vcpus[i as int] == before.vcpus[i as int]);
                    assert(i == index ==> !freed.vcpus[i as int].in_use);
                    if i != index && bridge.vcpus[i].in_use && bridge.vcpus[i].vm_handle == vm_handle {
                        if bridge.vcpus[i].id + 1 > max_seen {
                            max_seen = bridge.vcpus[i].id + 1;
                            assert(freed.vcpus[i as int].of(vm_handle));
                        }
                    }
                    i += 1;
                }
                proof {
                    lemma_id_bound_unique(freed.vcpus, vm_handle, max_seen as int);
                    let vm = BackendVm { vcpu_count: max_seen, ..before.vm(vm_handle) };
                    assert(before.vms[vm_handle - 1].booted == before.vms[vm_handle - 1].machine);
                    lemma_vm_update_keeps_inv(before, vm_handle, vm);
                }
                bridge.vms[vm_index].vcpu_count = max_seen;
                assert(bridge@.vms =~= before.vms.update(
                    vm_handle - 1,
                    BackendVm { vcpu_count: max_seen, ..before.vm(vm_handle) },
                ));
                assert(bridge@ == before.with_vm(vm_handle, BackendVm { vcpu_count: max_seen, ..before.vm(vm_handle) }));
            }
        }
    }
    reset_vcpu_slot_in_place(bridge, index);
    assert(bridge@ =~= vcpu_destroyed(before, backend_vcpu));
}

/// A VM's count of vCPUs is exact: one more than the largest id that it has.
pub open spec fn vcpu_count_exact(b: BridgeView, vm_handle: u64) -> bool {
    b.vm(vm_handle).vcpu_count == id_bound(b.vcpus, vm_handle)
}

/// Destroying a vCPU keeps an exact count of its VM exact.
pub proof fn destroy_vcpu_keeps_exact_count(b: BridgeView, handle: u64)
    requires
        b.inv(),
        b.vcpu_live(handle),
        b.vm_live(b.vcpu(handle).vm_handle),
        vcpu_count_exact(b, b.vcpu(handle).vm_handle),
    ensures
        vcpu_count_exact(vcpu_destroyed(b, handle), b.vcpu(handle).vm_handle),
{
    let h = b.vcpu(handle).vm_handle;
    lemma_id_bound(b.vcpus, h);
    assert(b.vcpus[handle - 1].of(h));
    let freed = b.with_vcpu(handle, BackendVcpu::spec_cleared(b.vcpu(handle).xcr0));
    lemma_id_bound(freed.vcpus, h);
    if id_bound(freed.vcpus, h) > 0 {
        let i = choose|i: int|
            0 <= i < freed.vcpus.len() && (#[trigger] freed.vcpus[i]).of(h) && freed.vcpus[i].id + 1 == id_bound(
                freed.vcpus,
                h,
            );
        assert(freed.vcpus[i].id < u32::MAX) by {
            assert(i != handle - 1);
            assert(b.vcpus[i] == freed.vcpus[i]);
        }
    }
}

/// Creating a vCPU keeps an exact count of its VM exact.
pub proof fn create_vcpu_keeps_exact_count(b: BridgeView, vm_handle: u64, handle: u64, vcpu_id: u32)
    requires
        b.inv(),
        b.vm_live(vm_handle),
        1 <= handle <= MAX_VCPUS,
        !b.vcpu_live(handle),
        vcpu_id < u32::MAX,
        vcpu_count_exact(b, vm_handle),
    ensures
        ({
            let count = b.vm(vm_handle).vcpu_count;
            let after = b.with_vcpu(
                handle,
                BackendVcpu {
                    in_use: true,
                    vm_handle,
                    id: vcpu_id,
                    ..BackendVcpu::spec_cleared(b.vcpu(handle).xcr0)
                },
            ).with_vm(
                vm_handle,
                BackendVm {
                    vcpu_count: if count > vcpu_id {
                        count
                    } else {
                        (vcpu_id + 1) as u32
                    },
                    ..b.vm(vm_handle)
                },
            );
            vcpu_count_exact(after, vm_handle)
        }),
{
    let fresh = BackendVcpu {
        in_use: true,
        vm_handle,
        id: vcpu_id,
        ..BackendVcpu::spec_cleared(b.vcpu(handle).xcr0)
    };
    let s = b.vcpus.update(handle - 1, fresh);
    let n: int = if b.vm(vm_handle).vcpu_count > vcpu_id {
        b.vm(vm_handle).vcpu_count as int
    } else {
        vcpu_id + 1
    };
    lemma_id_bound(b.vcpus, vm_handle);
    assert forall|i: int| 0 <= i < s.len() && (#[trigger] s[i]).of(vm_handle) implies s[i].id < n by {
        if i != handle - 1 {
            assert(s[i] == b.vcpus[i]);
        }
    }
    if n > vcpu_id + 1 {
        let i = choose|i: int|
            0 <= i < b.vcpus.len() && (#[trigger] b.vcpus[i]).of(vm_handle) && b.vcpus[i].id + 1 == id_bound(
                b.vcpus,
                vm_handle,
            );
        assert(!b.vcpus[handle - 1].in_use);
        assert(s[i] == b.vcpus[i]);
    } else {
        assert(s[handle - 1].of(vm_handle));
    }
    lemma_id_bound_unique(s, vm_handle, n);
}

/// Sets the run state of a vCPU.
pub fn axvisor_kvm_rs_set_vcpu_state(
    bridge: &mut Bridge,
    backend_vcpu: u64,
    _version: u32,
    _arch: u32,
    rip: u64,
    rsp: u64,
    rflags: u64,
    cr0: u64,
    cr3: u64,
    cr4: u64,
    efer: u64,
    apic_base: u64,
    xcr0: u64,
    cpuid_nent: u32,
    nmsrs: u32,
    tsc_khz: u32,
) -> (r: i32)
    requires
        old(bridge).wf(),
    ensures
        final(bridge).wf(),
        !old(bridge)@.vcpu_live(backend_vcpu) ==> r == -EINVAL && final(bridge)@ == old(bridge)@,
        old(bridge)@.vcpu_live(backend_vcpu) ==> r == 0 && final(bridge)@ == old(bridge)@.with_vcpu(
            backend_vcpu,
            (BackendVcpu {
                rip,
                rsp,
                rflags,
                cr0,
                cr3,
                cr4,
                efer,
                apic_base,
                xcr0,
                cpuid_nent,
                nmsrs,
                tsc_khz,
                state_dirty: true,
                ..old(bridge)@.vcpu(backend_vcpu)
            }),
        ),
{
    let index: usize = match vcpu_index_from_handle(backend_vcpu) {
        Ok(index) => index,
        Err(err) => {
            return err;
        },
    };
    if !bridge.vcpus[index].in_use {
        return -EINVAL;
    }
    let ghost before = bridge@;
    bridge.vcpus[index].rip = rip;
    bridge.vcpus[index].rsp = rsp;
    bridge.vcpus[index].rflags = rflags;
    bridge.vcpus[index].cr0 = cr0;
    bridge.vcpus[index].cr3 = cr3;
    bridge.vcpus[index].cr4 = cr4;
    bridge.vcpus[index].efer = efer;
    bridge.vcpus[index].apic_base = apic_base;
    bridge.vcpus[index].xcr0 = xcr0;
    bridge.vcpus[index].cpuid_nent = cpuid_nent;
    bridge.vcpus[index].nmsrs = nmsrs;
    bridge.vcpus[index].tsc_khz = tsc_khz;
    bridge.vcpus[index].state_dirty = true;
    proof {
        let after = BackendVcpu {
            rip,
            rsp,
            rflags,
            cr0,
            cr3,
            cr4,
            efer,
            apic_base,
            xcr0,
            cpuid_nent,
            nmsrs,
            tsc_khz,
            state_dirty: true,
            ..before.vcpu(backend_vcpu)
        };
        assert(before.vcpus[index as int].in_use);
        assert(bridge@ =~= before.with_vcpu(backend_vcpu, after));
        lemma_vcpu_update_keeps_inv(before, index as int, after);
    }
    0
}

/// Stores a vCPU record in place of one that exists.
fn store_vcpu(bridge: &mut Bridge, index: usize, vcpu: BackendVcpu)
    requires
        old(bridge).wf(),
        index < MAX_VCPUS,
        vcpu.in_use ==> 1 <= vcpu.vm_handle <= MAX_VMS && vcpu.id < u32::MAX,
    ensures
        final(bridge).wf(),
        final(bridge)@ == old(bridge)@.with_vcpu_at(index as int, vcpu),
{
    let ghost before = bridge@;
    bridge.vcpus[index] = vcpu;
    proof {
        assert(bridge@ =~= before.with_vcpu_at(index as int, vcpu));
        lemma_vcpu_update_keeps_inv(before, index as int, vcpu);
    }
}

/// Sets the general registers of a vCPU.
pub fn axvisor_kvm_rs_set_vcpu_regs(
    bridge: &mut Bridge,
    backend_vcpu: u64,
    rax: u64,
    rbx: u64,
    rcx: u64,
    rdx: u64,
    rsi: u64,
    rdi: u64,
    rsp: u64,
    rbp: u64,
    r8: u64,
    r9: u64,
    r10: u64,
    r11: u64,
    r12: u64,
    r13: u64,
    r14: u64,
    r15: u64,
    rip: u64,
    rflags: u64,
) -> (r: i32)
    requires
        old(bridge).wf(),
    ensures
        final(bridge).wf(),
        !old(bridge)@.vcpu_live(backend_vcpu) ==> r == -EINVAL && final(bridge)@ == old(bridge)@,
        old(bridge)@.vcpu_live(backend_vcpu) ==> r == 0 && final(bridge)@ == old(bridge)@.with_vcpu(
            backend_vcpu,
            (BackendVcpu {
                regs: BackendRegs {
                    rax,
                    rbx,
                    rcx,
                    rdx,
                    rsi,
                    rdi,
                    rsp,
                    rbp,
                    r8,
                    r9,
                    r10,
                    r11,
                    r12,
                    r13,
                    r14,
                    r15,
                    rip,
                    rflags,
                },
                state_dirty: true,
                ..old(bridge)@.vcpu(backend_vcpu)
            }),
        ),
{
    let index: usize = match vcpu_index_from_handle(backend_vcpu) {
        Ok(index) => index,
        Err(err) => {
            return err;
        },
    };
    let mut vcpu: BackendVcpu = bridge.vcpus[index];
    if !vcpu.in_use {
        return -EINVAL;
    }
    assert(bridge@.vcpus[index as int].in_use);
    vcpu.regs =
    BackendRegs { rax, rbx, rcx, rdx, rsi, rdi, rsp, rbp, r8, r9, r10, r11, r12, r13, r14, r15, rip, rflags };
    vcpu.state_dirty = true;
    store_vcpu(bridge, index, vcpu);
    0
}

/// Sets the control registers of a vCPU.
pub fn axvisor_kvm_rs_set_vcpu_sregs_control(
    bridge: &mut Bridge,
    backend_vcpu: u64,
    cr0: u64,
    cr2: u64,
    cr3: u64,
    cr4: u64,
    cr8: u64,
    efer: u64,
    apic_base: u64,
) -> (r: i32)
    requires
        old(bridge).wf(),
    ensures
        final(bridge).wf(),
        !old(bridge)@.vcpu_live(backend_vcpu) ==> r == -EINVAL && final(bridge)@ == old(bridge)@,
        old(bridge)@.vcpu_live(backend_vcpu) ==> r == 0 && final(bridge)@ == old(bridge)@.with_vcpu(
            backend_vcpu,
            (BackendVcpu {
                sregs: BackendSregs { cr0, cr2, cr3, cr4, cr8, efer, apic_base },
                state_dirty: true,
                ..old(bridge)@.vcpu(backend_vcpu)
            }),
        ),
{
    let index: usize = match vcpu_index_from_handle(backend_vcpu) {
        Ok(index) => index,
        Err(err) => {
            return err;
        },
    };
    let mut vcpu: BackendVcpu = bridge.vcpus[index];
    if !vcpu.in_use {
        return -EINVAL;
    }
    assert(bridge@.vcpus[index as int].in_use);
    vcpu.sregs = BackendSregs { cr0, cr2, cr3, cr4, cr8, efer, apic_base };
    vcpu.state_dirty = true;
    store_vcpu(bridge, index, vcpu);
    0
}

/// Sets one segment register of a vCPU.
pub fn axvisor_kvm_rs_set_vcpu_segment(
    bridge: &mut Bridge,
    backend_vcpu: u64,
    segment_id: u32,
    base: u64,
    limit: u32,
    selector: u32,
    type_: u32,
    present: u32,
    dpl: u32,
    db: u32,
    s: u32,
    l: u32,
    g: u32,
    avl: u32,
    unusable: u32,
) -> (r: i32)
    requires
        old(bridge).wf(),
    ensures
        final(bridge).wf(),
        !(old(bridge)@.vcpu_live(backend_vcpu) && segment_id < NUM_SEGMENTS) ==> r == -EINVAL && final(bridge)@ == old(
            bridge,
        )@,
        old(bridge)@.vcpu_live(backend_vcpu) && segment_id < NUM_SEGMENTS ==> r == 0 && final(bridge)@ == old(
            bridge,
        )@.with_vcpu(
            backend_vcpu,
            (BackendVcpu {
                segments: vstd::array::spec_array_update(
                    old(bridge)@.vcpu(backend_vcpu).segments,
                    segment_id as int,
                    BackendSegment { base, limit, selector, type_, present, dpl, db, s, l, g, avl, unusable },
                ),
                state_dirty: true,
                ..old(bridge)@.vcpu(backend_vcpu)
            }),
        ),
{
    let index: usize = match vcpu_index_from_handle(backend_vcpu) {
        Ok(index) => index,
        Err(err) => {
            return err;
        },
    };
    if segment_id as usize >= NUM_SEGMENTS {
        return -EINVAL;
    }
    let mut vcpu: BackendVcpu = bridge.vcpus[index];
    if !vcpu.in_use {
        return -EINVAL;
    }
    assert(bridge@.vcpus[index as int].in_use);
    vcpu.segments[segment_id as usize] =
    BackendSegment { base, limit, selector, type_, present, dpl, db, s, l, g, avl, unusable };
    vcpu.state_dirty = true;
    store_vcpu(bridge, index, vcpu);
    0
}

/// Sets one descriptor table register of a vCPU.
pub fn axvisor_kvm_rs_set_vcpu_dtable(
    bridge: &mut Bridge,
    backend_vcpu: u64,
    table_id: u32,
    base: u64,
    limit: u32,
) -> (r: i32)
    requires
        old(bridge).wf(),
    ensures
        final(bridge).wf(),
        !(old(bridge)@.vcpu_live(backend_vcpu) && table_id < NUM_DTABLES) ==> r == -EINVAL && final(bridge)@ == old(
            bridge,
        )@,
        old(bridge)@.vcpu_live(backend_vcpu) && table_id < NUM_DTABLES ==> r == 0 && final(bridge)@ == old(
            bridge,
        )@.with_vcpu(
            backend_vcpu,
            (BackendVcpu {
                dtables: vstd::array::spec_array_update(
                    old(bridge)@.vcpu(backend_vcpu).dtables,
                    table_id as int,
                    BackendDtable { base, limit },
                ),
                state_dirty: true,
                ..old(bridge)@.vcpu(backend_vcpu)
            }),
        ),
{
    let index: usize = match vcpu_index_from_handle(backend_vcpu) {
        Ok(index) => index,
        Err(err) => {
            return err;
        },
    };
    if table_id as usize >= NUM_DTABLES {
        return -EINVAL;
    }
    let mut vcpu: BackendVcpu = bridge.vcpus[index];
    if !vcpu.in_use {
        return -EINVAL;
    }
    assert(bridge@.vcpus[index as int].in_use);
    vcpu.dtables[table_id as usize] = BackendDtable { base, limit };
    vcpu.state_dirty = true;
    store_vcpu(bridge, index, vcpu);
    0
}

/// Sets one CPUID entry of a vCPU.
pub fn axvisor_kvm_rs_set_vcpu_cpuid_entry(
    bridge: &mut Bridge,
    backend_vcpu: u64,
    entry_index: u32,
    function: u32,
    index: u32,
    flags: u32,
    eax: u32,
    ebx: u32,
    ecx: u32,
    edx: u32,
) -> (r: i32)
    requires
        old(bridge).wf(),
    ensures
        final(bridge).wf(),
        !(old(bridge)@.vcpu_live(backend_vcpu) && entry_index < MAX_CPUID_ENTRIES) ==> r == -EINVAL && final(bridge)@
            == old(bridge)@,
        old(bridge)@.vcpu_live(backend_vcpu) && entry_index < MAX_CPUID_ENTRIES ==> r == 0 && final(bridge)@ == old(
            bridge,
        )@.with_vcpu(
            backend_vcpu,
            (BackendVcpu {
                cpuid_entries: vstd::array::spec_array_update(
                    old(bridge)@.vcpu(backend_vcpu).cpuid_entries,
                    entry_index as int,
                    CpuidEntry { function, index, flags, eax, ebx, ecx, edx },
                ),
                state_dirty: true,
                ..old(bridge)@.vcpu(backend_vcpu)
            }),
        ),
{
    let slot: usize = match vcpu_index_from_handle(backend_vcpu) {
        Ok(slot) => slot,
        Err(err) => {
            return err;
        },
    };
    if entry_index as usize >= MAX_CPUID_ENTRIES {
        return -EINVAL;
    }
    let mut vcpu: BackendVcpu = bridge.vcpus[slot];
    if !vcpu.in_use {
        return -EINVAL;
    }
    assert(bridge@.vcpus[slot as int].in_use);
    vcpu.cpuid_entries[entry_index as usize] = CpuidEntry { function, index, flags, eax, ebx, ecx, edx };
    vcpu.state_dirty = true;
    store_vcpu(bridge, slot, vcpu);
    0
}

/// Sets one MSR entry of a vCPU.
pub fn axvisor_kvm_rs_set_vcpu_msr_entry(
    bridge: &mut Bridge,
    backend_vcpu: u64,
    entry_index: u32,
    index: u32,
    data: u64,
) -> (r: i32)
    requires
        old(bridge).wf(),
    ensures
        final(bridge).wf(),
        !(old(bridge)@.vcpu_live(backend_vcpu) && entry_index < MAX_MSR_ENTRIES) ==> r == -EINVAL && final(bridge)@
            == old(bridge)@,
        old(bridge)@.vcpu_live(backend_vcpu) && entry_index < MAX_MSR_ENTRIES ==> r == 0 && final(bridge)@ == old(
            bridge,
        )@.with_vcpu(
            backend_vcpu,
            (BackendVcpu {
                msr_entries: vstd::array::spec_array_update(
                    old(bridge)@.vcpu(backend_vcpu).msr_entries,
                    entry_index as int,
                    MsrEntry { index, data },
                ),
                state_dirty: true,
                ..old(bridge)@.vcpu(backend_vcpu)
            }),
        ),
{
    let slot: usize = match vcpu_index_from_handle(backend_vcpu) {
        Ok(slot) => slot,
        Err(err) => {
            return err;
        },
    };
    if entry_index as usize >= MAX_MSR_ENTRIES {
        return -EINVAL;
    }
    let mut vcpu: BackendVcpu = bridge.vcpus[slot];
    if !vcpu.in_use {
        return -EINVAL;
    }
    assert(bridge@.vcpus[slot as int].in_use);
    vcpu.msr_entries[entry_index as usize] = MsrEntry { index, data };
    vcpu.state_dirty = true;
    store_vcpu(bridge, slot, vcpu);
    0
}

/// Only bits that MXCSR has are set: the low sixteen without the sixth.
pub open spec fn mxcsr_valid(mxcsr: u32) -> bool {
    mxcsr < 0x1_0000 && (mxcsr / 0x40) % 2 == 0
}

proof fn lemma_mxcsr_bits(mxcsr: u32)
    by (bit_vector)
    ensures
        (mxcsr & !0x0000_ffbfu32 == 0) == (mxcsr < 0x1_0000 && (mxcsr / 0x40) % 2 == 0),
{
}

/// The save area for FPU registers given one by one.
pub open spec fn fpu_area(
    fcw: u32,
    fsw: u32,
    ftwx: u32,
    last_opcode: u32,
    last_ip: u64,
    last_dp: u64,
    mxcsr: u32,
    fpr: Seq<u8>,
    xmm: Seq<u8>,
) -> Seq<u8> {
    let zero = Seq::new(FXSAVE_SIZE as nat, |i: int| 0u8);
    let s0 = with_default_fxsave_fields(zero);
    let s1 = overwritten(s0, FXSAVE_FCW_OFFSET as int, le_bytes(fcw as int, 2));
    let s2 = overwritten(s1, FXSAVE_FSW_OFFSET as int, le_bytes(fsw as int, 2));
    let s3 = overwritten(s2, FXSAVE_FTW_OFFSET as int, le_bytes(ftwx as int, 1));
    let s4 = overwritten(s3, FXSAVE_FOP_OFFSET as int, le_bytes(last_opcode as int, 2));
    let s5 = overwritten(s4, FXSAVE_RIP_OFFSET as int, le_bytes(last_ip as int, 8));
    let s6 = overwritten(s5, FXSAVE_RDP_OFFSET as int, le_bytes(last_dp as int, 8));
    let s7 = overwritten(s6, FXSAVE_MXCSR_OFFSET as int, le_bytes(mxcsr as int, 4));
    let s8 = overwritten(s7, FXSAVE_ST_OFFSET as int, fpr.take(FXSAVE_ST_SIZE as int));
    overwritten(s8, FXSAVE_XMM_OFFSET as int, xmm.take(FXSAVE_XMM_SIZE as int))
}

pub(crate) proof fn lemma_low_half(v: int)
    requires
        0 <= v,
    ensures
        le_bytes(v % 65536, 2) == le_bytes(v, 2),
        le_bytes(v, 1) == seq![(v % 256) as u8],
{
    reveal_with_fuel(le_bytes, 3);
    assert(v % 65536 % 256 == v % 256);
    assert(v % 65536 / 256 % 256 == v / 256 % 256);
    assert(le_bytes(v % 65536, 2) =~= le_bytes(v, 2));
    assert(le_bytes(v, 1) =~= seq![(v % 256) as u8]);
}

/// Sets the FPU registers of a vCPU. Refused unless the register areas have their
/// sizes and are there, and MXCSR has only bits that it may have.
pub fn axvisor_kvm_rs_set_vcpu_fpu(
    bridge: &mut Bridge,
    backend_vcpu: u64,
    fcw: u32,
    fsw: u32,
    ftwx: u32,
    last_opcode: u32,
    last_ip: u64,
    last_dp: u64,
    mxcsr: u32,
    fpr: Option<&[u8]>,
    fpr_len: u32,
    xmm: Option<&[u8]>,
    xmm_len: u32,
) -> (r: i32)
    requires
        old(bridge).wf(),
        fpr matches Some(bytes) ==> bytes@.len() >= fpr_len,
        xmm matches Some(bytes) ==> bytes@.len() >= xmm_len,
    ensures
        final(bridge).wf(),
        r == (if old(bridge)@.vcpu_live(backend_vcpu) && fpr_len == FXSAVE_ST_SIZE && xmm_len == FXSAVE_XMM_SIZE
            && mxcsr_valid(mxcsr) && fpr is Some && xmm is Some {
            0
        } else {
            -EINVAL
        }),
        r != 0 ==> final(bridge)@ == old(bridge)@,
        r == 0 ==> {
            &&& final(bridge)@ == old(bridge)@.with_vcpu(
                backend_vcpu,
                (BackendVcpu {
                    fxsave: final(bridge)@.vcpu(backend_vcpu).fxsave,
                    fxsave_valid: true,
                    state_dirty: true,
                    ..old(bridge)@.vcpu(backend_vcpu)
                }),
            )
            &&& final(bridge)@.vcpu(backend_vcpu).fxsave.bytes@ == fpu_area(
                fcw,
                fsw,
                ftwx,
                last_opcode,
                last_ip,
                last_dp,
                mxcsr,
                fpr->Some_0@,
                xmm->Some_0@,
            )
        },
{
    let index: usize = match vcpu_index_from_handle(backend_vcpu) {
        Ok(index) => index,
        Err(err) => {
            return err;
        },
    };
    if fpr_len as usize != FXSAVE_ST_SIZE || xmm_len as usize != FXSAVE_XMM_SIZE {
        return -EINVAL;
    }
    proof {
        lemma_mxcsr_bits(mxcsr);
        lemma_low_half(fcw as int);
        lemma_low_half(fsw as int);
        lemma_low_half(ftwx as int);
        lemma_low_half(last_opcode as int);
    }
    if (mxcsr & !X86_MXCSR_VALID_MASK) != 0 {
        return -EINVAL;
    }
    let mut fxsave = X86KvmFxsave::zeroed();
    set_default_fxsave_fields(&mut fxsave);
    write_u16_le(&mut fxsave.bytes, FXSAVE_FCW_OFFSET, (fcw % 65536) as u16);
    write_u16_le(&mut fxsave.bytes, FXSAVE_FSW_OFFSET, (fsw % 65536) as u16);
    let ghost s2 = fxsave.bytes@;
    fxsave.bytes[FXSAVE_FTW_OFFSET] = (ftwx % 256) as u8;
    assert(fxsave.bytes@ =~= overwritten(s2, FXSAVE_FTW_OFFSET as int, le_bytes(ftwx as int, 1)));
    write_u16_le(&mut fxsave.bytes, FXSAVE_FOP_OFFSET, (last_opcode % 65536) as u16);
    write_u64_le(&mut fxsave.bytes, FXSAVE_RIP_OFFSET, last_ip);
    write_u64_le(&mut fxsave.bytes, FXSAVE_RDP_OFFSET, last_dp);
    write_u32_le(&mut fxsave.bytes, FXSAVE_MXCSR_OFFSET, mxcsr);
    if let Err(err) = copy_bytes(&mut fxsave.bytes, FXSAVE_ST_OFFSET, fpr, fpr_len as usize) {
        return err;
    }
    if let Err(err) = copy_bytes(&mut fxsave.bytes, FXSAVE_XMM_OFFSET, xmm, xmm_len as usize) {
        return err;
    }
    let mut vcpu: BackendVcpu = bridge.vcpus[index];
    if !vcpu.in_use {
        return -EINVAL;
    }
    assert(bridge@.vcpus[index as int].in_use);
    vcpu.fxsave = fxsave;
    vcpu.fxsave_valid = true;
    vcpu.state_dirty = true;
    store_vcpu(bridge, index, vcpu);
    0
}

/// The save area taken from the start of an XSAVE region: its MXCSR mask is the
/// default one where the region has none.
pub open spec fn xsave_legacy_area(region: Seq<u8>) -> Seq<u8> {
    let s = region.take(FXSAVE_SIZE as int);
    let mask = s.subrange(FXSAVE_MXCSR_MASK_OFFSET as int, FXSAVE_MXCSR_MASK_OFFSET + 4);
    if mask == seq![0u8, 0u8, 0u8, 0u8] {
        overwritten(s, FXSAVE_MXCSR_MASK_OFFSET as int, le_bytes(X86_MXCSR_VALID_MASK as int, 4))
    } else {
        s
    }
}

/// Sets the FPU registers of a vCPU from an XSAVE region of 32-bit words; the
/// region's bytes are given.
pub fn axvisor_kvm_rs_set_vcpu_xsave_legacy(
    bridge: &mut Bridge,
    backend_vcpu: u64,
    region: Option<&[u8]>,
    region_u32s: u32,
) -> (r: i32)
    requires
        old(bridge).wf(),
        region matches Some(bytes) ==> region_u32s >= FXSAVE_SIZE / 4 ==> bytes@.len() >= FXSAVE_SIZE,
    ensures
        final(bridge).wf(),
        r == (if old(bridge)@.vcpu_live(backend_vcpu) && region is Some && region_u32s >= FXSAVE_SIZE / 4 {
            0
        } else {
            -EINVAL
        }),
        r != 0 ==> final(bridge)@ == old(bridge)@,
        r == 0 ==> {
            &&& final(bridge)@ == old(bridge)@.with_vcpu(
                backend_vcpu,
                (BackendVcpu {
                    fxsave: final(bridge)@.vcpu(backend_vcpu).fxsave,
                    fxsave_valid: true,
                    state_dirty: true,
                    ..old(bridge)@.vcpu(backend_vcpu)
                }),
            )
            &&& final(bridge)@.vcpu(backend_vcpu).fxsave.bytes@ == xsave_legacy_area(region->Some_0@)
        },
{
    let index: usize = match vcpu_index_from_handle(backend_vcpu) {
        Ok(index) => index,
        Err(err) => {
            return err;
        },
    };
    let bytes: &[u8] = match region {
        None => {
            return -EINVAL;
        },
        Some(bytes) => bytes,
    };
    if (region_u32s as usize) < FXSAVE_SIZE / 4 {
        return -EINVAL;
    }
    let mut fxsave = X86KvmFxsave::zeroed();
    let copied = copy_bytes(&mut fxsave.bytes, 0, Some(bytes), FXSAVE_SIZE);
    assert(copied is Ok);
    let ghost s = bytes@.take(FXSAVE_SIZE as int);
    assert(fxsave.bytes@ =~= s);
    let ghost mask = s.subrange(FXSAVE_MXCSR_MASK_OFFSET as int, FXSAVE_MXCSR_MASK_OFFSET + 4);
    let empty_mask: bool = fxsave.bytes[FXSAVE_MXCSR_MASK_OFFSET] == 0 && fxsave.bytes[FXSAVE_MXCSR_MASK_OFFSET + 1]
        == 0 && fxsave.bytes[FXSAVE_MXCSR_MASK_OFFSET + 2] == 0 && fxsave.bytes[FXSAVE_MXCSR_MASK_OFFSET + 3] == 0;
    proof {
        assert(mask[0] == s[FXSAVE_MXCSR_MASK_OFFSET as int]);
        assert(mask[1] == s[FXSAVE_MXCSR_MASK_OFFSET + 1]);
        assert(mask[2] == s[FXSAVE_MXCSR_MASK_OFFSET + 2]);
        assert(mask[3] == s[FXSAVE_MXCSR_MASK_OFFSET + 3]);
        if empty_mask {
            assert(mask =~= seq![0u8, 0u8, 0u8, 0u8]);
        }
    }
    if empty_mask {
        write_u32_le(&mut fxsave.bytes, FXSAVE_MXCSR_MASK_OFFSET, X86_MXCSR_VALID_MASK);
    }
    let mut vcpu: BackendVcpu = bridge.vcpus[index];
    if !vcpu.in_use {
        return -EINVAL;
    }
    assert(bridge@.vcpus[index as int].in_use);
    vcpu.fxsave = fxsave;
    vcpu.fxsave_valid = true;
    vcpu.state_dirty = true;
    store_vcpu(bridge, index, vcpu);
    0
}

/// The position of the first vCPU of a VM with an id.
pub fn find_vcpu_slot_by_id(bridge: &Bridge, vm_handle: u64, vcpu_id: u32) -> (r: Option<usize>)
    requires
        bridge.wf(),
    ensures
        r is None ==> forall|i: int|
            0 <= i < MAX_VCPUS ==> !((#[trigger] bridge@.vcpus[i]).of(vm_handle) && bridge@.vcpus[i].id == vcpu_id),
        r matches Some(slot) ==> {
            &&& slot < MAX_VCPUS
            &&& bridge@.vcpus[slot as int].of(vm_handle)
            &&& bridge@.vcpus[slot as int].id == vcpu_id
            &&& forall|i: int|
                0 <= i < slot ==> !((#[trigger] bridge@.vcpus[i]).of(vm_handle) && bridge@.vcpus[i].id == vcpu_id)
        },
{
    let mut i: usize = 0;
    while i < MAX_VCPUS
        invariant
            i <= MAX_VCPUS,
            bridge.wf(),
            forall|j: int|
                0 <= j < i ==> !((#[trigger] bridge@.vcpus[j]).of(vm_handle) && bridge@.vcpus[j].id == vcpu_id),
        decreases MAX_VCPUS - i,
    {
        if bridge.vcpus[i].in_use && bridge.vcpus[i].vm_handle == vm_handle && bridge.vcpus[i].id == vcpu_id {
            return Some(i);
        }
        i += 1;
    }
    None
}

/// How many vCPUs of a VM compete for host CPUs. One that was created and never
/// started does not.
pub fn vm_active_vcpu_count(bridge: &Bridge, vm_handle: u64) -> (n: usize)
    requires
        bridge.wf(),
    ensures
        n == running_count(bridge@.vcpus, vm_handle),
        n <= MAX_VCPUS,
{
    let mut n: usize = 0;
    let mut i: usize = 0;
    assert(bridge@.vcpus.take(0) =~= Seq::empty());
    while i < MAX_VCPUS
        invariant
            i <= MAX_VCPUS,
            n <= i,
            bridge.wf(),
            n == running_count(bridge@.vcpus.take(i as int), vm_handle),
        decreases MAX_VCPUS - i,
    {
        assert(bridge@.vcpus.take(i + 1).drop_last() =~= bridge@.vcpus.take(i as int));
        if bridge.vcpus[i].in_use && bridge.vcpus[i].vm_handle == vm_handle && (bridge.vcpus[i].id == 0
            || bridge.vcpus[i].sipi_started) {
            n += 1;
        }
        i += 1;
    }
    assert(bridge@.vcpus.take(MAX_VCPUS as int) =~= bridge@.vcpus);
    n
}

/// Bit `k` of a mask is set.
pub open spec fn mask_bit(mask: u64, k: u64) -> bool {
    (mask >> k) & 1 == 1
}

proof fn lemma_mask_set(mask: u64, id: u64, k: u64)
    by (bit_vector)
    requires
        id < 64,
        k < 64,
    ensures
        (((mask | (1u64 << id)) >> k) & 1 == 1) == (k == id || (mask >> k) & 1 == 1),
        (0u64 >> k) & 1 == 0,
{
}

/// The ids of a VM's vCPUs as a mask, for ids that fit in it; nothing for a
/// handle that names no record.
pub fn active_vcpus(bridge: &Bridge, vm_id: u64) -> (r: Option<u64>)
    requires
        bridge.wf(),
    ensures
        r is Some <==> 1 <= vm_id <= MAX_VMS,
        r matches Some(mask) ==> forall|k: u64|
            k < 64 ==> (#[trigger] mask_bit(mask, k) <==> exists|i: int|
                0 <= i < MAX_VCPUS && (#[trigger] bridge@.vcpus[i]).of(vm_id) && bridge@.vcpus[i].id == k),
{
    if vm_index_from_handle(vm_id).is_err() {
        return None;
    }
    let mut mask: u64 = 0;
    let mut i: usize = 0;
    proof {
        assert forall|k: u64| k < 64 implies !#[trigger] mask_bit(mask, k) by {
            lemma_mask_set(mask, 0, k);
        }
    }
    while i < MAX_VCPUS
        invariant
            i <= MAX_VCPUS,
            bridge.wf(),
            forall|k: u64|
                k < 64 ==> (#[trigger] mask_bit(mask, k) <==> exists|j: int|
                    0 <= j < i && (#[trigger] bridge@.vcpus[j]).of(vm_id) && bridge@.vcpus[j].id == k),
        decreases MAX_VCPUS - i,
    {
        let ghost prior = mask;
        let ghost seen = |k: u64, n: int|
            exists|j: int| 0 <= j < n && (#[trigger] bridge@.vcpus[j]).of(vm_id) && bridge@.vcpus[j].id == k;
        if bridge.vcpus[i].in_use && bridge.vcpus[i].vm_handle == vm_id {
            if bridge.vcpus[i].id < 64 {
                mask = mask | (1u64 << (bridge.vcpus[i].id as u64));
            }
        }
        proof {
            let here = bridge@.vcpus[i as int];
            assert forall|k: u64| k < 64 implies (#[trigger] mask_bit(mask, k) <==> exists|j: int|
                0 <= j < i + 1 && (#[trigger] bridge@.vcpus[j]).of(vm_id) && bridge@.vcpus[j].id == k) by {
                if here.of(vm_id) && here.id < 64 {
                    lemma_mask_set(prior, here.id as u64, k);
                }
                assert(mask_bit(prior, k) <==> seen(k, i as int));
                assert(mask_bit(mask, k) <==> (mask_bit(prior, k) || (here.of(vm_id) && here.id == k)));
                if mask_bit(prior, k) {
                    let j = choose|j: int|
                        0 <= j < i && (#[trigger] bridge@.vcpus[j]).of(vm_id) && bridge@.vcpus[j].id == k;
                    assert(bridge@.vcpus[j].of(vm_id));
                }
            }
        }
        i += 1;
    }
    Some(mask)
}

/// Forgets the reads of a vCPU that wait for data.
pub fn clear_vcpu_pending_reads(bridge: &mut Bridge, vcpu_index: usize)
    requires
        old(bridge).wf(),
        vcpu_index < MAX_VCPUS,
    ensures
        final(bridge).wf(),
        final(bridge)@ == old(bridge)@.with_vcpu_at(
            vcpu_index as int,
            old(bridge)@.vcpus[vcpu_index as int].without_pending_reads(),
        ),
{
    let mut vcpu: BackendVcpu = bridge.vcpus[vcpu_index];
    assert(bridge@.vcpus[vcpu_index as int] == vcpu);
    vcpu.pending_mmio_read = PendingMmioRead::empty();
    vcpu.pending_io_read = PendingIoRead::empty();
    store_vcpu(bridge, vcpu_index, vcpu);
}

} // verus!
