//! The backend that keeps state by handle.
use vstd::prelude::*;

use crate::handle_backend::{
    axvisor_kvm_rs_boot_vm, axvisor_kvm_rs_complete_mmio_read, axvisor_kvm_rs_create_vcpu, axvisor_kvm_rs_create_vm,
    axvisor_kvm_rs_destroy_vcpu, axvisor_kvm_rs_destroy_vm, axvisor_kvm_rs_inject_irq, axvisor_kvm_rs_map_page,
    axvisor_kvm_rs_run_vcpu, axvisor_kvm_rs_set_vcpu_cpuid_entry, axvisor_kvm_rs_set_vcpu_dtable,
    axvisor_kvm_rs_set_vcpu_msr_entry, axvisor_kvm_rs_set_vcpu_regs, axvisor_kvm_rs_set_vcpu_segment,
    axvisor_kvm_rs_set_vcpu_sregs_control, axvisor_kvm_rs_set_vcpu_state, axvisor_kvm_rs_set_vm_state,
    axvisor_kvm_rs_unmap_range, other_handle, outside_range, vcpu_from_handle, vcpu_view, vm_from_handle, vm_view,
    HandleBackend, Mapping, VcpuEntry, VcpuView, VmView,
};
use crate::laws::codes::{already_there, invalid, no_memory, unsupported};
use crate::run::BackendExit;
use crate::state::{CpuidEntry, MsrEntry};

verus! {

/// What the VM of a handle holds; handles count the places from one.
pub open spec fn vm_of(b: HandleBackend, handle: u64) -> Option<VmView> {
    if 1 <= handle <= b.vms@.len() {
        match b.vms@[handle - 1] {
            Some(vm) => Some(
                VmView { mappings: vm.mappings@, vcpus: vm.vcpus@, booted: vm.booted, state: vm.state },
            ),
            None => None,
        }
    } else {
        None
    }
}

/// What the vCPU of a handle holds.
pub open spec fn vcpu_of(b: HandleBackend, handle: u64) -> Option<VcpuView> {
    if 1 <= handle <= b.vcpus@.len() {
        match b.vcpus@[handle - 1] {
            Some(v) => Some(
                VcpuView {
                    vm_handle: v.vm_handle,
                    id: v.id,
                    state: v.state,
                    regs: v.regs,
                    sregs: v.sregs,
                    segments: v.segments@,
                    dtables: v.dtables@,
                    cpuid_entries: v.cpuid_entries@,
                    msr_entries: v.msr_entries@,
                },
            ),
            None => None,
        }
    } else {
        None
    }
}

proof fn lemma_held(b: HandleBackend, handle: u64)
    ensures
        vm_of(b, handle) == b@.vm(handle),
        vcpu_of(b, handle) == b@.vcpu(handle),
        b@.vms.len() == b.vms@.len(),
        b@.vcpus.len() == b.vcpus@.len(),
        b.vms@.len() <= usize::MAX,
        b.vcpus@.len() <= usize::MAX,
{
    assert(b.vms.len() == b.vms@.len() && b.vcpus.len() == b.vcpus@.len());
    if 1 <= handle <= b.vms@.len() {
        assert(b@.vms[handle - 1] == vm_view(b.vms@[handle - 1]));
    }
    if 1 <= handle <= b.vcpus@.len() {
        assert(b@.vcpus[handle - 1] == vcpu_view(b.vcpus@[handle - 1]));
    }
}

/// A call that sets something of a vCPU: refused with a code, without a change, for a vCPU
/// that does not exist; else no VM and no other vCPU changed, nor to which VM it belongs.
pub open spec fn sets_vcpu(was: HandleBackend, now: HandleBackend, handle: u64, other: u64) -> bool {
    &&& vm_of(now, other) == vm_of(was, other)
    &&& other != handle || vcpu_of(was, handle) is None ==> vcpu_of(now, other) == vcpu_of(was, other)
    &&& vcpu_of(now, handle) is Some <==> vcpu_of(was, handle) is Some
    &&& (vcpu_of(was, handle) matches Some(v) ==> vcpu_of(now, handle)->0.vm_handle == v.vm_handle && vcpu_of(
        now,
        handle,
    )->0.id == v.id)
}

/// A handle names the place before it, if something is there; a new backend has no places.
pub proof fn handle_names_its_place(
    b: &HandleBackend,
    handle: u64,
    vm: Result<usize, i32>,
    vcpu: Result<usize, i32>,
    fresh: HandleBackend,
)
    requires
        call_ensures(vm_from_handle, (b, handle), vm),
        call_ensures(vcpu_from_handle, (b, handle), vcpu),
        call_ensures(HandleBackend::new, (), fresh),
    ensures
        vm is Ok <==> vm_of(*b, handle) is Some,
        vm matches Ok(i) ==> i + 1 == handle,
        vm matches Err(e) ==> e == invalid(),
        vcpu is Ok <==> vcpu_of(*b, handle) is Some,
        vcpu matches Ok(i) ==> i + 1 == handle,
        vcpu matches Err(e) ==> e == invalid(),
        fresh.vms@.len() == 0 && fresh.vcpus@.len() == 0,
{
    lemma_held(*b, handle);
    lemma_held(fresh, 0);
}

/// A new VM has the next handle and nothing in it; it needs a place for its handle, and
/// memory. The others stay.
pub proof fn created_vm_is_empty(b: &mut HandleBackend, place: &mut Option<u64>, room: bool, r: i32, other: u64)
    requires
        old(b).wf(),
        call_ensures(axvisor_kvm_rs_create_vm, (b, place, room), r),
    ensures
        *old(place) is None ==> r == invalid(),
        *old(place) is Some && !room ==> r == no_memory(),
        *old(place) is Some && room ==> {
            &&& r == 0
            &&& (*final(place) matches Some(h) && h == old(b).vms@.len() + 1 && (vm_of(*final(b), h) matches Some(vm)
                && vm.mappings.len() == 0 && vm.vcpus.len() == 0 && !vm.booted && vm.state.version == 0
                && !vm.state.irqchip_created && !vm.state.pit_created && vm.state.tss_addr == 0))
        },
        r != 0 ==> *final(place) == *old(place),
        r != 0 || other != old(b).vms@.len() + 1 ==> vm_of(*final(b), other) == vm_of(*old(b), other),
        vcpu_of(*final(b), other) == vcpu_of(*old(b), other),
{
    lemma_held(*old(b), other);
    lemma_held(*final(b), other);
    lemma_held(*final(b), (old(b).vms@.len() + 1) as u64);
}

/// A VM that is destroyed is gone; the others stay.
pub proof fn destroyed_vm_is_gone(b: &mut HandleBackend, handle: u64, other: u64)
    requires
        old(b).wf(),
        call_ensures(axvisor_kvm_rs_destroy_vm, (b, handle), ()),
    ensures
        vm_of(*final(b), handle) is None,
        other != handle ==> vm_of(*final(b), other) == vm_of(*old(b), other),
        vcpu_of(*final(b), other) == vcpu_of(*old(b), other),
{
    lemma_held(*old(b), other);
    lemma_held(*final(b), other);
    lemma_held(*old(b), handle);
    lemma_held(*final(b), handle);
}

/// A call that changes a VM: refused for one that does not exist; the others stay.
pub open spec fn sets_vm(was: HandleBackend, now: HandleBackend, handle: u64, r: i32, other: u64) -> bool {
    &&& vm_of(was, handle) is None ==> r == invalid()
    &&& vm_of(now, handle) is Some <==> vm_of(was, handle) is Some
    &&& other != handle || vm_of(was, handle) is None ==> vm_of(now, other) == vm_of(was, other)
    &&& vcpu_of(now, other) == vcpu_of(was, other)
}

/// The state of a VM is held as it was set, each value under its name.
pub proof fn set_vm_state_is_held(
    b: &mut HandleBackend,
    handle: u64,
    version: u32,
    arch: u32,
    irqchip: u32,
    pit: u32,
    pit_flags: u32,
    tss: u32,
    identity: u64,
    chips: u32,
    r: i32,
    other: u64,
)
    requires
        old(b).wf(),
        call_ensures(
            axvisor_kvm_rs_set_vm_state,
            (b, handle, version, arch, irqchip, pit, pit_flags, tss, identity, chips),
            r,
        ),
    ensures
        sets_vm(*old(b), *final(b), handle, r, other),
        vm_of(*old(b), handle) matches Some(was) ==> r == 0 && (vm_of(*final(b), handle) matches Some(now)
            && now.mappings == was.mappings && now.vcpus == was.vcpus && now.booted == was.booted && now.state.version
            == version && now.state.arch == arch && (now.state.irqchip_created <==> irqchip != 0) && (
        now.state.pit_created <==> pit != 0) && now.state.pit_flags == pit_flags && now.state.tss_addr == tss
            && now.state.identity_map_addr == identity && now.state.nr_irqchips == chips),
{
    lemma_held(*old(b), other);
    lemma_held(*final(b), other);
    lemma_held(*old(b), handle);
    lemma_held(*final(b), handle);
}

/// A mapped page is held with its place in the host and its flags, where the guest's page was
/// or at the end; the other pages stay.
pub proof fn mapped_page_is_held(
    b: &mut HandleBackend,
    handle: u64,
    gpa: u64,
    hpa: u64,
    flags: u32,
    room: bool,
    r: i32,
    other: u64,
    m: Mapping,
)
    requires
        old(b).wf(),
        call_ensures(axvisor_kvm_rs_map_page, (b, handle, gpa, hpa, flags, room), r),
    ensures
        sets_vm(*old(b), *final(b), handle, r, other),
        vm_of(*old(b), handle) matches Some(was) ==> (vm_of(*final(b), handle) matches Some(now) && now.vcpus
            == was.vcpus && now.booted == was.booted && now.state == was.state && (r == 0 || r == no_memory()) && (r
            != 0 <==> !room && forall|i: int| 0 <= i < was.mappings.len() ==> (#[trigger] was.mappings[i]).gpa != gpa)
            && (r != 0 ==> now == was) && (r == 0 ==> (now.mappings.contains(m) <==> (if m.gpa == gpa {
            m.hpa == hpa && m.flags == flags
        } else {
            was.mappings.contains(m)
        })))),
{
    lemma_held(*old(b), other);
    lemma_held(*final(b), other);
    lemma_held(*old(b), handle);
    lemma_held(*final(b), handle);
    if let Some(was) = vm_of(*old(b), handle) {
        let now = vm_of(*final(b), handle)->0;
        let page = Mapping { gpa, hpa, flags };
        assert(was.inv()) by {
            assert(old(b)@.vms[handle - 1] matches Some(v) ==> v.inv());
        }
        if r == 0 {
            if was.maps(gpa) {
                let k = choose|k: int|
                    0 <= k < was.mappings.len() && (#[trigger] was.mappings[k]).gpa == gpa && now.mappings
                        == was.mappings.update(k, page);
                assert(now.mappings[k] == page);
                assert forall|i: int| 0 <= i < was.mappings.len() && i != k implies (
                #[trigger] was.mappings[i]).gpa != gpa && now.mappings[i] == was.mappings[i] by {
                    if i < k {
                        assert(was.mappings[i].gpa != was.mappings[k].gpa);
                    } else {
                        assert(was.mappings[k].gpa != was.mappings[i].gpa);
                    }
                }
                if now.mappings.contains(m) {
                    let i = choose|i: int| 0 <= i < now.mappings.len() && now.mappings[i] == m;
                    if i != k {
                        assert(was.mappings[i] == m);
                    }
                }
                if was.mappings.contains(m) && m.gpa != gpa {
                    let i = choose|i: int| 0 <= i < was.mappings.len() && was.mappings[i] == m;
                    assert(now.mappings[i] == m);
                }
            } else {
                let n = was.mappings.len() as int;
                assert(now.mappings == was.mappings.push(page));
                assert(now.mappings[n] == page);
                if now.mappings.contains(m) {
                    let i = choose|i: int| 0 <= i < now.mappings.len() && now.mappings[i] == m;
                    if i != n {
                        assert(was.mappings[i] == m);
                    }
                }
                if was.mappings.contains(m) {
                    let i = choose|i: int| 0 <= i < was.mappings.len() && was.mappings[i] == m;
                    assert(now.mappings[i] == m);
                }
            }
        }
    }
}

/// The pages of a range are unmapped, and no others; a range that runs over the end of the
/// addresses stops there.
pub proof fn unmapped_range_is_gone(
    b: &mut HandleBackend,
    handle: u64,
    gpa: u64,
    size: u64,
    r: i32,
    other: u64,
    m: Mapping,
)
    requires
        old(b).wf(),
        call_ensures(axvisor_kvm_rs_unmap_range, (b, handle, gpa, size), r),
    ensures
        sets_vm(*old(b), *final(b), handle, r, other),
        vm_of(*old(b), handle) matches Some(was) ==> (vm_of(*final(b), handle) matches Some(now) && r == 0 && now.vcpus
            == was.vcpus && now.booted == was.booted && now.state == was.state && (m.gpa < u64::MAX ==> (
        now.mappings.contains(m) <==> was.mappings.contains(m) && !(gpa <= m.gpa < gpa + size)))),
{
    lemma_held(*old(b), other);
    lemma_held(*final(b), other);
    lemma_held(*old(b), handle);
    lemma_held(*final(b), handle);
    if let Some(was) = vm_of(*old(b), handle) {
        let keep = outside_range(gpa, size);
        lemma_kept(was.mappings, keep, m);
    }
}

proof fn lemma_kept<T>(s: Seq<T>, keep: spec_fn(T) -> bool, m: T)
    ensures
        s.filter(keep).contains(m) <==> s.contains(m) && keep(m),
    decreases s.len(),
{
    reveal(Seq::filter);
    if s.len() > 0 {
        let rest = s.drop_last();
        let last = s.last();
        lemma_kept(rest, keep, m);
        assert(s =~= rest.push(last));
        lemma_pushed(rest, last, m);
        if keep(last) {
            lemma_pushed(rest.filter(keep), last, m);
        }
    }
}

proof fn lemma_pushed<T>(s: Seq<T>, new: T, m: T)
    ensures
        s.push(new).contains(m) <==> s.contains(m) || m == new,
{
    let more = s.push(new);
    assert(more[s.len() as int] == new);
    if s.contains(m) {
        let i = choose|i: int| 0 <= i < s.len() && s[i] == m;
        assert(more[i] == m);
    }
    if more.contains(m) {
        let i = choose|i: int| 0 <= i < more.len() && more[i] == m;
        if i < s.len() {
            assert(s[i] == m);
        }
    }
}

/// A new vCPU has the next handle, belongs to the VM that was named, which lists it, and has
/// nothing set. An id that the VM has is refused.
pub proof fn created_vcpu_belongs_to_its_vm(
    b: &mut HandleBackend,
    vm: u64,
    id: u32,
    place: &mut Option<u64>,
    room: bool,
    list_room: bool,
    r: i32,
    other: u64,
)
    requires
        old(b).wf(),
        call_ensures(axvisor_kvm_rs_create_vcpu, (b, vm, id, place, room, list_room), r),
    ensures
        *old(place) is None || vm_of(*old(b), vm) is None ==> r == invalid(),
        *old(place) is Some ==> (vm_of(*old(b), vm) matches Some(was) ==> {
            let taken = exists|i: int| 0 <= i < was.vcpus.len() && (#[trigger] was.vcpus[i]).id == id;
            &&& taken ==> r == already_there()
            &&& !taken && !(room && list_room) ==> r == no_memory()
            &&& !taken && room && list_room ==> {
                let h = (old(b).vcpus@.len() + 1) as u64;
                &&& r == 0
                &&& *final(place) == Some(h)
                &&& (vcpu_of(*final(b), h) matches Some(v) && v.vm_handle == vm && v.id == id && v.cpuid_entries.len()
                    == 0 && v.msr_entries.len() == 0 && v.segments.len() == 8 && v.dtables.len() == 2 && v.regs.rip == 0
                    && v.sregs.cr0 == 0 && v.state.rip == 0)
                &&& (vm_of(*final(b), vm) matches Some(now) && now.mappings == was.mappings && now.booted == was.booted
                    && now.state == was.state && now.vcpus == was.vcpus.push(VcpuEntry { id, handle: h }))
            }
        }),
        r != 0 ==> *final(place) == *old(place),
        r != 0 || other != vm ==> vm_of(*final(b), other) == vm_of(*old(b), other),
        r != 0 || other != old(b).vcpus@.len() + 1 ==> vcpu_of(*final(b), other) == vcpu_of(*old(b), other),
{
    lemma_held(*old(b), other);
    lemma_held(*final(b), other);
    lemma_held(*old(b), vm);
    lemma_held(*final(b), vm);
    lemma_held(*final(b), (old(b).vcpus@.len() + 1) as u64);
}

/// A vCPU that is destroyed is gone, and its VM lists it no more; other vCPUs stay.
pub proof fn destroyed_vcpu_is_gone(b: &mut HandleBackend, handle: u64, other: u64, e: VcpuEntry)
    requires
        old(b).wf(),
        call_ensures(axvisor_kvm_rs_destroy_vcpu, (b, handle), ()),
    ensures
        vcpu_of(*final(b), handle) is None,
        other != handle ==> vcpu_of(*final(b), other) == vcpu_of(*old(b), other),
        vcpu_of(*old(b), handle) is None ==> vm_of(*final(b), other) == vm_of(*old(b), other),
        vcpu_of(*old(b), handle) matches Some(v) ==> {
            &&& other != v.vm_handle ==> vm_of(*final(b), other) == vm_of(*old(b), other)
            &&& (vm_of(*old(b), v.vm_handle) matches Some(was) ==> (vm_of(*final(b), v.vm_handle) matches Some(now)
                && now.mappings == was.mappings && now.booted == was.booted && now.state == was.state && (
            now.vcpus.contains(e) <==> was.vcpus.contains(e) && e.handle != handle)))
        },
{
    lemma_held(*old(b), other);
    lemma_held(*final(b), other);
    lemma_held(*old(b), handle);
    lemma_held(*final(b), handle);
    if let Some(v) = vcpu_of(*old(b), handle) {
        lemma_held(*old(b), v.vm_handle);
        lemma_held(*final(b), v.vm_handle);
        if let Some(was) = vm_of(*old(b), v.vm_handle) {
            lemma_kept(was.vcpus, other_handle(handle), e);
        }
    }
}

/// The run state of a vCPU is held as it was set, each value under its name.
pub proof fn set_run_state_is_held(
    b: &mut HandleBackend,
    handle: u64,
    version: u32,
    arch: u32,
    rip: u64,
    rsp: u64,
    rflags: u64,
    cr0: u64,
    cr3: u64,
    cr4: u64,
    efer: u64,
    apic_base: u64,
    cpuid_nent: u32,
    nmsrs: u32,
    tsc_khz: u32,
    r: i32,
    other: u64,
)
    requires
        old(b).wf(),
        call_ensures(
            axvisor_kvm_rs_set_vcpu_state,
            (b, handle, version, arch, rip, rsp, rflags, cr0, cr3, cr4, efer, apic_base, cpuid_nent, nmsrs, tsc_khz),
            r,
        ),
    ensures
        sets_vcpu(*old(b), *final(b), handle, other),
        vcpu_of(*old(b), handle) is None ==> r == invalid() && vcpu_of(*final(b), handle) == vcpu_of(*old(b), handle),
        vcpu_of(*old(b), handle) is Some ==> {
            let was = vcpu_of(*old(b), handle)->0;
            let now = vcpu_of(*final(b), handle)->0;
            &&& r == 0
            &&& now.state.version == version
            &&& now.state.arch == arch
            &&& now.state.rip == rip
            &&& now.state.rsp == rsp
            &&& now.state.rflags == rflags
            &&& now.state.cr0 == cr0
            &&& now.state.cr3 == cr3
            &&& now.state.cr4 == cr4
            &&& now.state.efer == efer
            &&& now.state.apic_base == apic_base
            &&& now.state.cpuid_nent == cpuid_nent
            &&& now.state.nmsrs == nmsrs
            &&& now.state.tsc_khz == tsc_khz
            &&& now.regs == was.regs
            &&& now.sregs == was.sregs
            &&& now.segments == was.segments
            &&& now.dtables == was.dtables
            &&& now.cpuid_entries == was.cpuid_entries
            &&& now.msr_entries == was.msr_entries
        },
{
    lemma_held(*old(b), other);
    lemma_held(*final(b), other);
    lemma_held(*old(b), handle);
    lemma_held(*final(b), handle);
}

/// The registers of a vCPU are held as they were set, each under its name.
pub proof fn set_registers_are_held(
    b: &mut HandleBackend,
    handle: u64,
    rax: u64,
    rbx: u64,
    rcx: u64,
    rdx: u64,
    rsi: u64,
    rdi: u64,
    rsp: u64,
    rbp: u64,
    r8: u64,
    r9: u64,
    r10: u64,
    r11: u64,
    r12: u64,
    r13: u64,
    r14: u64,
    r15: u64,
    rip: u64,
    rflags: u64,
    r: i32,
    other: u64,
)
    requires
        old(b).wf(),
        call_ensures(
            axvisor_kvm_rs_set_vcpu_regs,
            (b, handle, rax, rbx, rcx, rdx, rsi, rdi, rsp, rbp, r8, r9, r10, r11, r12, r13, r14, r15, rip, rflags),
            r,
        ),
    ensures
        sets_vcpu(*old(b), *final(b), handle, other),
        vcpu_of(*old(b), handle) is None ==> r == invalid() && vcpu_of(*final(b), handle) == vcpu_of(*old(b), handle),
        vcpu_of(*old(b), handle) is Some ==> {
            let was = vcpu_of(*old(b), handle)->0;
            let now = vcpu_of(*final(b), handle)->0;
            &&& r == 0
            &&& now.regs.rax == rax
            &&& now.regs.rbx == rbx
            &&& now.regs.rcx == rcx
            &&& now.regs.rdx == rdx
            &&& now.regs.rsi == rsi
            &&& now.regs.rdi == rdi
            &&& now.regs.rsp == rsp
            &&& now.regs.rbp == rbp
            &&& now.regs.r8 == r8
            &&& now.regs.r9 == r9
            &&& now.regs.r10 == r10
            &&& now.regs.r11 == r11
            &&& now.regs.r12 == r12
            &&& now.regs.r13 == r13
            &&& now.regs.r14 == r14
            &&& now.regs.r15 == r15
            &&& now.regs.rip == rip
            &&& now.regs.rflags == rflags
            &&& now.state == was.state
            &&& now.sregs == was.sregs
            &&& now.segments == was.segments
            &&& now.dtables == was.dtables
            &&& now.cpuid_entries == was.cpuid_entries
            &&& now.msr_entries == was.msr_entries
        },
{
    lemma_held(*old(b), other);
    lemma_held(*final(b), other);
    lemma_held(*old(b), handle);
    lemma_held(*final(b), handle);
}

/// The control registers of a vCPU are held as they were set, each under its name.
pub proof fn set_control_registers_are_held(
    b: &mut HandleBackend,
    handle: u64,
    cr0: u64,
    cr2: u64,
    cr3: u64,
    cr4: u64,
    cr8: u64,
    efer: u64,
    apic_base: u64,
    r: i32,
    other: u64,
)
    requires
        old(b).wf(),
        call_ensures(
            axvisor_kvm_rs_set_vcpu_sregs_control,
            (b, handle, cr0, cr2, cr3, cr4, cr8, efer, apic_base),
            r,
        ),
    ensures
        sets_vcpu(*old(b), *final(b), handle, other),
        vcpu_of(*old(b), handle) is None ==> r == invalid() && vcpu_of(*final(b), handle) == vcpu_of(*old(b), handle),
        vcpu_of(*old(b), handle) is Some ==> {
            let was = vcpu_of(*old(b), handle)->0;
            let now = vcpu_of(*final(b), handle)->0;
            &&& r == 0
            &&& now.sregs.cr0 == cr0
            &&& now.sregs.cr2 == cr2
            &&& now.sregs.cr3 == cr3
            &&& now.sregs.cr4 == cr4
            &&& now.sregs.cr8 == cr8
            &&& now.sregs.efer == efer
            &&& now.sregs.apic_base == apic_base
            &&& now.state == was.state
            &&& now.regs == was.regs
            &&& now.segments == was.segments
            &&& now.dtables == was.dtables
            &&& now.cpuid_entries == was.cpuid_entries
            &&& now.msr_entries == was.msr_entries
        },
{
    lemma_held(*old(b), other);
    lemma_held(*final(b), other);
    lemma_held(*old(b), handle);
    lemma_held(*final(b), handle);
}

/// A segment register of a vCPU, one of eight, is held as it was set; the others stay.
pub proof fn set_segment_is_held(
    b: &mut HandleBackend,
    handle: u64,
    place: u32,
    base: u64,
    limit: u32,
    selector: u32,
    type_: u32,
    present: u32,
    dpl: u32,
    db: u32,
    s: u32,
    l: u32,
    g: u32,
    avl: u32,
    unusable: u32,
    r: i32,
    other: u64,
)
    requires
        old(b).wf(),
        call_ensures(
            axvisor_kvm_rs_set_vcpu_segment,
            (b, handle, place, base, limit, selector, type_, present, dpl, db, s, l, g, avl, unusable),
            r,
        ),
    ensures
        sets_vcpu(*old(b), *final(b), handle, other),
        vcpu_of(*old(b), handle) is None || !(place < 8) ==> r == invalid() && vcpu_of(*final(b), handle) == vcpu_of(*old(b), handle),
        vcpu_of(*old(b), handle) is Some && place < 8 ==> {
            let was = vcpu_of(*old(b), handle)->0;
            let now = vcpu_of(*final(b), handle)->0;
            &&& r == 0
            &&& now.segments[place as int].base == base
            &&& now.segments[place as int].limit == limit
            &&& now.segments[place as int].selector == selector
            &&& now.segments[place as int].type_ == type_
            &&& now.segments[place as int].present == present
            &&& now.segments[place as int].dpl == dpl
            &&& now.segments[place as int].db == db
            &&& now.segments[place as int].s == s
            &&& now.segments[place as int].l == l
            &&& now.segments[place as int].g == g
            &&& now.segments[place as int].avl == avl
            &&& now.segments[place as int].unusable == unusable
            &&& now.segments.len() == was.segments.len()
            &&& forall|i: int| 0 <= i < 8 && i != place ==> #[trigger] now.segments[i] == was.segments[i]
            &&& now.state == was.state
            &&& now.regs == was.regs
            &&& now.sregs == was.sregs
            &&& now.dtables == was.dtables
            &&& now.cpuid_entries == was.cpuid_entries
            &&& now.msr_entries == was.msr_entries
        },
{
    lemma_held(*old(b), other);
    lemma_held(*final(b), other);
    lemma_held(*old(b), handle);
    lemma_held(*final(b), handle);
}

/// A table register of a vCPU, one of two, is held as it was set; the other stays.
pub proof fn set_table_is_held(
    b: &mut HandleBackend,
    handle: u64,
    place: u32,
    base: u64,
    limit: u32,
    r: i32,
    other: u64,
)
    requires
        old(b).wf(),
        call_ensures(axvisor_kvm_rs_set_vcpu_dtable, (b, handle, place, base, limit), r),
    ensures
        sets_vcpu(*old(b), *final(b), handle, other),
        vcpu_of(*old(b), handle) is None || !(place < 2) ==> r == invalid() && vcpu_of(*final(b), handle) == vcpu_of(*old(b), handle),
        vcpu_of(*old(b), handle) is Some && place < 2 ==> {
            let was = vcpu_of(*old(b), handle)->0;
            let now = vcpu_of(*final(b), handle)->0;
            &&& r == 0
            &&& now.dtables[place as int].base == base
            &&& now.dtables[place as int].limit == limit
            &&& forall|i: int| 0 <= i < 2 && i != place ==> #[trigger] now.dtables[i] == was.dtables[i]
            &&& now.state == was.state
            &&& now.regs == was.regs
            &&& now.sregs == was.sregs
            &&& now.segments == was.segments
            &&& now.cpuid_entries == was.cpuid_entries
            &&& now.msr_entries == was.msr_entries
        },
{
    lemma_held(*old(b), other);
    lemma_held(*final(b), other);
    lemma_held(*old(b), handle);
    lemma_held(*final(b), handle);
}

/// An entry of zeros.
pub open spec fn no_cpuid(e: CpuidEntry) -> bool {
    e.function == 0 && e.index == 0 && e.flags == 0 && e.eax == 0 && e.ebx == 0 && e.ecx == 0 && e.edx == 0
}

/// An entry of zeros.
pub open spec fn no_msr(e: MsrEntry) -> bool {
    e.index == 0 && e.data == 0
}

/// A CPUID entry of a vCPU is held at its place as it was set; the entries that were there
/// stay, and zeros fill a gap. Without memory for all of it the list is filled as far as it
/// goes.
pub proof fn set_cpuid_entry_is_held(
    b: &mut HandleBackend,
    handle: u64,
    place: u32,
    function: u32,
    index: u32,
    flags: u32,
    eax: u32,
    ebx: u32,
    ecx: u32,
    edx: u32,
    granted: usize,
    r: i32,
    other: u64,
)
    requires
        old(b).wf(),
        call_ensures(
            axvisor_kvm_rs_set_vcpu_cpuid_entry,
            (b, handle, place, function, index, flags, eax, ebx, ecx, edx, granted),
            r,
        ),
    ensures
        sets_vcpu(*old(b), *final(b), handle, other),
        vcpu_of(*old(b), handle) is None || !(place < 256) ==> r == invalid() && vcpu_of(*final(b), handle) == vcpu_of(*old(b), handle),
        vcpu_of(*old(b), handle) is Some && place < 256 ==> {
            let was = vcpu_of(*old(b), handle)->0;
            let now = vcpu_of(*final(b), handle)->0;
            let n = was.cpuid_entries.len() as int;
            &&& r == (if place < n || granted > place - n {
                0
            } else {
                no_memory()
            })
            &&& forall|i: int| 0 <= i < n && i != place ==> #[trigger] now.cpuid_entries[i] == was.cpuid_entries[i]
            &&& r == 0 ==> {
                &&& now.cpuid_entries.len() == (if place < n {
                    n
                } else {
                    place + 1
                })
                &&& now.cpuid_entries[place as int].function == function
                &&& now.cpuid_entries[place as int].index == index
                &&& now.cpuid_entries[place as int].flags == flags
                &&& now.cpuid_entries[place as int].eax == eax
                &&& now.cpuid_entries[place as int].ebx == ebx
                &&& now.cpuid_entries[place as int].ecx == ecx
                &&& now.cpuid_entries[place as int].edx == edx
                &&& forall|i: int| n <= i < place ==> no_cpuid(#[trigger] now.cpuid_entries[i])
            }
            &&& r != 0 ==> now.cpuid_entries.len() == n + granted
            &&& r != 0 ==> forall|i: int| n <= i < n + granted ==> no_cpuid(#[trigger] now.cpuid_entries[i])
            &&& now.state == was.state
            &&& now.regs == was.regs
            &&& now.sregs == was.sregs
            &&& now.segments == was.segments
            &&& now.dtables == was.dtables
            &&& now.msr_entries == was.msr_entries
        },
{
    lemma_held(*old(b), other);
    lemma_held(*final(b), other);
    lemma_held(*old(b), handle);
    lemma_held(*final(b), handle);
}

/// An MSR entry of a vCPU is held at its place as it was set; the entries that were there
/// stay, and zeros fill a gap. Without memory for all of it the list is filled as far as it
/// goes.
pub proof fn set_msr_entry_is_held(
    b: &mut HandleBackend,
    handle: u64,
    place: u32,
    index: u32,
    data: u64,
    granted: usize,
    r: i32,
    other: u64,
)
    requires
        old(b).wf(),
        call_ensures(axvisor_kvm_rs_set_vcpu_msr_entry, (b, handle, place, index, data, granted), r),
    ensures
        sets_vcpu(*old(b), *final(b), handle, other),
        vcpu_of(*old(b), handle) is None || !(place < 256) ==> r == invalid() && vcpu_of(*final(b), handle) == vcpu_of(*old(b), handle),
        vcpu_of(*old(b), handle) is Some && place < 256 ==> {
            let was = vcpu_of(*old(b), handle)->0;
            let now = vcpu_of(*final(b), handle)->0;
            let n = was.msr_entries.len() as int;
            &&& r == (if place < n || granted > place - n {
                0
            } else {
                no_memory()
            })
            &&& forall|i: int| 0 <= i < n && i != place ==> #[trigger] now.msr_entries[i] == was.msr_entries[i]
            &&& r == 0 ==> {
                &&& now.msr_entries.len() == (if place < n {
                    n
                } else {
                    place + 1
                })
                &&& now.msr_entries[place as int].index == index
                &&& now.msr_entries[place as int].data == data
                &&& forall|i: int| n <= i < place ==> no_msr(#[trigger] now.msr_entries[i])
            }
            &&& r != 0 ==> now.msr_entries.len() == n + granted
            &&& r != 0 ==> forall|i: int| n <= i < n + granted ==> no_msr(#[trigger] now.msr_entries[i])
            &&& now.state == was.state
            &&& now.regs == was.regs
            &&& now.sregs == was.sregs
            &&& now.segments == was.segments
            &&& now.dtables == was.dtables
            &&& now.cpuid_entries == was.cpuid_entries
        },
{
    lemma_held(*old(b), other);
    lemma_held(*final(b), other);
    lemma_held(*old(b), handle);
    lemma_held(*final(b), handle);
}

/// A VM that is booted is marked; nothing runs here, and what would need it is refused.
pub proof fn nothing_runs_here(
    b: &mut HandleBackend,
    handle: u64,
    r: i32,
    other: u64,
    c: &HandleBackend,
    outputs: bool,
    run: (i32, Option<BackendExit>),
    read: i32,
    injected: i32,
)
    requires
        old(b).wf(),
        call_ensures(axvisor_kvm_rs_boot_vm, (b, handle), r),
        call_ensures(axvisor_kvm_rs_run_vcpu, (c, handle, outputs), run),
        call_ensures(axvisor_kvm_rs_complete_mmio_read, (), read),
        call_ensures(axvisor_kvm_rs_inject_irq, (), injected),
    ensures
        sets_vm(*old(b), *final(b), handle, r, other),
        vm_of(*old(b), handle) matches Some(was) ==> r == 0 && (vm_of(*final(b), handle) matches Some(now) && now.booted
            && now.mappings == was.mappings && now.vcpus == was.vcpus && now.state == was.state),
        vcpu_of(*c, handle) is None || !outputs ==> run.0 == invalid() && run.1 is None,
        vcpu_of(*c, handle) is Some && outputs ==> run.0 == unsupported() && run.1 is Some,
        read == unsupported(),
        injected == unsupported(),
{
    lemma_held(*old(b), other);
    lemma_held(*final(b), other);
    lemma_held(*old(b), handle);
    lemma_held(*final(b), handle);
    lemma_held(*c, handle);
}

} // verus!
