//! A backend that keeps the state of VMs and vCPUs by handle and runs nothing.
//!
//! What the host's allocator grants is an argument of the calls that allocate.
use vstd::prelude::*;

use crate::errno::{EEXIST, EINVAL, ENOMEM, EOPNOTSUPP};
use crate::run::{reset_backend_exit_outputs, BackendExit};
use crate::state::{
    BackendDtable, BackendRegs, BackendSegment, BackendSregs, CpuidEntry, MsrEntry, MAX_CPUID_ENTRIES, MAX_MSR_ENTRIES,
    NUM_DTABLES, NUM_SEGMENTS,
};
use crate::vm::range_end;

verus! {

/// A guest page.
#[derive(Clone, Copy, Debug, PartialEq, Eq, Structural)]
pub struct Mapping {
    pub gpa: u64,
    pub hpa: u64,
    pub flags: u32,
}

/// A vCPU of a VM: its id and its handle.
#[derive(Clone, Copy, Debug, PartialEq, Eq, Structural)]
pub struct VcpuEntry {
    pub id: u32,
    pub handle: u64,
}

/// The state of a VM that the KVM caller sets.
#[derive(Clone, Copy, Debug, PartialEq, Eq, Structural)]
pub struct BackendVmState {
    pub version: u32,
    pub arch: u32,
    pub irqchip_created: bool,
    pub pit_created: bool,
    pub pit_flags: u32,
    pub tss_addr: u32,
    pub identity_map_addr: u64,
    pub nr_irqchips: u32,
}

impl BackendVmState {
    /// Nothing set.
    pub open spec fn spec_empty() -> BackendVmState {
        BackendVmState {
            version: 0,
            arch: 0,
            irqchip_created: false,
            pit_created: false,
            pit_flags: 0,
            tss_addr: 0,
            identity_map_addr: 0,
            nr_irqchips: 0,
        }
    }

    /// Nothing set.
    pub fn empty() -> (r: BackendVmState)
        ensures
            r == Self::spec_empty(),
    {
        BackendVmState {
            version: 0,
            arch: 0,
            irqchip_created: false,
            pit_created: false,
            pit_flags: 0,
            tss_addr: 0,
            identity_map_addr: 0,
            nr_irqchips: 0,
        }
    }
}

/// The run state of a vCPU that the KVM caller sets.
#[derive(Clone, Copy, Debug, PartialEq, Eq, Structural)]
pub struct BackendVcpuState {
    pub version: u32,
    pub arch: u32,
    pub rip: u64,
    pub rsp: u64,
    pub rflags: u64,
    pub cr0: u64,
    pub cr3: u64,
    pub cr4: u64,
    pub efer: u64,
    pub apic_base: u64,
    pub cpuid_nent: u32,
    pub nmsrs: u32,
    pub tsc_khz: u32,
}

impl BackendVcpuState {
    /// Nothing set.
    pub open spec fn spec_empty() -> BackendVcpuState {
        BackendVcpuState {
            version: 0,
            arch: 0,
            rip: 0,
            rsp: 0,
            rflags: 0,
            cr0: 0,
            cr3: 0,
            cr4: 0,
            efer: 0,
            apic_base: 0,
            cpuid_nent: 0,
            nmsrs: 0,
            tsc_khz: 0,
        }
    }

    /// Nothing set.
    pub fn empty() -> (r: BackendVcpuState)
        ensures
            r == Self::spec_empty(),
    {
        BackendVcpuState {
            version: 0,
            arch: 0,
            rip: 0,
            rsp: 0,
            rflags: 0,
            cr0: 0,
            cr3: 0,
            cr4: 0,
            efer: 0,
            apic_base: 0,
            cpuid_nent: 0,
            nmsrs: 0,
            tsc_khz: 0,
        }
    }
}

/// A VM.
pub struct HandleVm {
    pub mappings: Vec<Mapping>,
    pub vcpus: Vec<VcpuEntry>,
    pub booted: bool,
    pub state: BackendVmState,
}

/// What a VM holds.
#[verifier::ext_equal]
pub struct VmView {
    pub mappings: Seq<Mapping>,
    pub vcpus: Seq<VcpuEntry>,
    pub booted: bool,
    pub state: BackendVmState,
}

impl View for HandleVm {
    type V = VmView;

    open spec fn view(&self) -> VmView {
        VmView { mappings: self.mappings@, vcpus: self.vcpus@, booted: self.booted, state: self.state }
    }
}

impl VmView {
    /// A VM that nothing was set of.
    pub open spec fn fresh() -> VmView {
        VmView { mappings: seq![], vcpus: seq![], booted: false, state: BackendVmState::spec_empty() }
    }

    /// A guest page is mapped.
    pub open spec fn maps(self, gpa: u64) -> bool {
        exists|i: int| 0 <= i < self.mappings.len() && (#[trigger] self.mappings[i]).gpa == gpa
    }

    /// A vCPU with an id exists.
    pub open spec fn has_vcpu(self, id: u32) -> bool {
        exists|i: int| 0 <= i < self.vcpus.len() && (#[trigger] self.vcpus[i]).id == id
    }

    /// No guest page is mapped twice, and no id used twice.
    pub open spec fn inv(self) -> bool {
        &&& forall|i: int, j: int|
            0 <= i < j < self.mappings.len() ==> (#[trigger] self.mappings[i]).gpa != (#[trigger] self.mappings[j]).gpa
        &&& forall|i: int, j: int|
            0 <= i < j < self.vcpus.len() ==> (#[trigger] self.vcpus[i]).id != (#[trigger] self.vcpus[j]).id
    }
}

/// A vCPU.
pub struct HandleVcpu {
    pub vm_handle: u64,
    pub id: u32,
    pub state: BackendVcpuState,
    pub regs: BackendRegs,
    pub sregs: BackendSregs,
    pub segments: [BackendSegment; NUM_SEGMENTS],
    pub dtables: [BackendDtable; NUM_DTABLES],
    pub cpuid_entries: Vec<CpuidEntry>,
    pub msr_entries: Vec<MsrEntry>,
}

/// What a vCPU holds.
#[verifier::ext_equal]
pub struct VcpuView {
    pub vm_handle: u64,
    pub id: u32,
    pub state: BackendVcpuState,
    pub regs: BackendRegs,
    pub sregs: BackendSregs,
    pub segments: Seq<BackendSegment>,
    pub dtables: Seq<BackendDtable>,
    pub cpuid_entries: Seq<CpuidEntry>,
    pub msr_entries: Seq<MsrEntry>,
}

impl View for HandleVcpu {
    type V = VcpuView;

    open spec fn view(&self) -> VcpuView {
        VcpuView {
            vm_handle: self.vm_handle,
            id: self.id,
            state: self.state,
            regs: self.regs,
            sregs: self.sregs,
            segments: self.segments@,
            dtables: self.dtables@,
            cpuid_entries: self.cpuid_entries@,
            msr_entries: self.msr_entries@,
        }
    }
}

impl VcpuView {
    /// A vCPU that nothing was set of.
    pub open spec fn fresh(vm_handle: u64, id: u32) -> VcpuView {
        VcpuView {
            vm_handle,
            id,
            state: BackendVcpuState::spec_empty(),
            regs: BackendRegs::spec_empty(),
            sregs: BackendSregs::spec_empty(),
            segments: Seq::new(NUM_SEGMENTS as nat, |i: int| BackendSegment::spec_empty()),
            dtables: Seq::new(NUM_DTABLES as nat, |i: int| BackendDtable::spec_empty()),
            cpuid_entries: seq![],
            msr_entries: seq![],
        }
    }
}

/// All VMs and vCPUs, by handle: the handle is one more than the position, and a
/// position is never used again.
pub struct HandleBackend {
    pub vms: Vec<Option<HandleVm>>,
    pub vcpus: Vec<Option<HandleVcpu>>,
}

/// What the backend holds.
#[verifier::ext_equal]
pub struct HandleView {
    pub vms: Seq<Option<VmView>>,
    pub vcpus: Seq<Option<VcpuView>>,
}

/// The view of a VM that may be gone.
pub open spec fn vm_view(vm: Option<HandleVm>) -> Option<VmView> {
    match vm {
        Some(vm) => Some(vm@),
        None => None,
    }
}

/// The view of a vCPU that may be gone.
pub open spec fn vcpu_view(vcpu: Option<HandleVcpu>) -> Option<VcpuView> {
    match vcpu {
        Some(vcpu) => Some(vcpu@),
        None => None,
    }
}

impl View for HandleBackend {
    type V = HandleView;

    open spec fn view(&self) -> HandleView {
        HandleView {
            vms: Seq::new(self.vms@.len(), |i: int| vm_view(self.vms@[i])),
            vcpus: Seq::new(self.vcpus@.len(), |i: int| vcpu_view(self.vcpus@[i])),
        }
    }
}

impl HandleView {
    /// The VM of a handle.
    pub open spec fn vm(self, h: u64) -> Option<VmView> {
        if 1 <= h <= self.vms.len() {
            self.vms[h - 1]
        } else {
            None
        }
    }

    /// The vCPU of a handle.
    pub open spec fn vcpu(self, h: u64) -> Option<VcpuView> {
        if 1 <= h <= self.vcpus.len() {
            self.vcpus[h - 1]
        } else {
            None
        }
    }

    /// With the VM of a handle replaced.
    pub open spec fn with_vm(self, h: u64, vm: Option<VmView>) -> HandleView {
        HandleView { vms: self.vms.update(h - 1, vm), ..self }
    }

    /// With the vCPU of a handle replaced.
    pub open spec fn with_vcpu(self, h: u64, vcpu: Option<VcpuView>) -> HandleView {
        HandleView { vcpus: self.vcpus.update(h - 1, vcpu), ..self }
    }

    /// Every VM maps a page once and has an id once.
    pub open spec fn inv(self) -> bool {
        forall|i: int| 0 <= i < self.vms.len() ==> ((#[trigger] self.vms[i]) matches Some(vm) ==> vm.inv())
    }
}

/// The position of a handle of a live VM.
pub fn vm_from_handle(backend: &HandleBackend, handle: u64) -> (r: Result<usize, i32>)
    ensures
        backend@.vm(handle) is Some ==> r is Ok && r->Ok_0 == handle - 1,
        backend@.vm(handle) is None ==> r == Err::<usize, i32>((-EINVAL) as i32),
        r matches Ok(i) ==> i < backend.vms@.len() && backend.vms@[i as int] is Some,
{
    if handle == 0 || handle > backend.vms.len() as u64 {
        return Err(-EINVAL);
    }
    let i: usize = (handle - 1) as usize;
    assert(backend@.vms[i as int] == vm_view(backend.vms@[i as int]));
    if backend.vms[i].is_none() {
        return Err(-EINVAL);
    }
    Ok(i)
}

/// The position of a handle of a live vCPU.
pub fn vcpu_from_handle(backend: &HandleBackend, handle: u64) -> (r: Result<usize, i32>)
    ensures
        backend@.vcpu(handle) is Some ==> r is Ok && r->Ok_0 == handle - 1,
        backend@.vcpu(handle) is None ==> r == Err::<usize, i32>((-EINVAL) as i32),
        r matches Ok(i) ==> i < backend.vcpus@.len() && backend.vcpus@[i as int] is Some,
{
    if handle == 0 || handle > backend.vcpus.len() as u64 {
        return Err(-EINVAL);
    }
    let i: usize = (handle - 1) as usize;
    assert(backend@.vcpus[i as int] == vcpu_view(backend.vcpus@[i as int]));
    if backend.vcpus[i].is_none() {
        return Err(-EINVAL);
    }
    Ok(i)
}

impl HandleBackend {
    /// What every call keeps.
    pub open spec fn wf(&self) -> bool {
        self@.inv()
    }

    /// Without VMs.
    pub fn new() -> (b: HandleBackend)
        ensures
            b.wf(),
            b@ == (HandleView { vms: seq![], vcpus: seq![] }),
    {
        let b = HandleBackend { vms: Vec::new(), vcpus: Vec::new() };
        assert(b@ =~= (HandleView { vms: seq![], vcpus: seq![] }));
        b
    }

    fn put_vm(&mut self, i: usize, vm: Option<HandleVm>)
        requires
            old(self).wf(),
            i < old(self).vms@.len(),
            vm matches Some(v) ==> v@.inv(),
        ensures
            final(self).wf(),
            final(self).vcpus == old(self).vcpus,
            final(self)@ == (HandleView { vms: old(self)@.vms.update(i as int, vm_view(vm)), ..old(self)@ }),
    {
        let ghost before = self@;
        self.vms[i] = vm;
        proof {
            assert(self@.vms =~= before.vms.update(i as int, vm_view(vm)));
            assert forall|j: int| 0 <= j < self@.vms.len() implies ((#[trigger] self@.vms[j]) matches Some(v)
                ==> v.inv()) by {
                assert(before.vms[j] matches Some(v) ==> v.inv());
            }
        }
    }

    fn take_vm(&mut self, i: usize) -> (vm: HandleVm)
        requires
            old(self).wf(),
            i < old(self).vms@.len(),
            old(self).vms@[i as int] is Some,
        ensures
            final(self).wf(),
            vm@ == old(self)@.vms[i as int]->Some_0,
            vm@.inv(),
            final(self).vms@.len() == old(self).vms@.len(),
            final(self).vcpus == old(self).vcpus,
            final(self)@ == (HandleView { vms: old(self)@.vms.update(i as int, None), ..old(self)@ }),
    {
        let ghost before = self@;
        assert(before.vms[i as int] == vm_view(self.vms@[i as int]));
        let taken = self.vms[i].take();
        proof {
            assert(self@.vms =~= before.vms.update(i as int, None));
            assert forall|j: int| 0 <= j < self@.vms.len() implies ((#[trigger] self@.vms[j]) matches Some(v)
                ==> v.inv()) by {
                assert(before.vms[j] matches Some(v) ==> v.inv());
            }
        }
        taken.unwrap()
    }

    fn put_vcpu(&mut self, i: usize, vcpu: Option<HandleVcpu>)
        requires
            old(self).wf(),
            i < old(self).vcpus@.len(),
        ensures
            final(self).wf(),
            final(self).vms == old(self).vms,
            final(self)@ == (HandleView { vcpus: old(self)@.vcpus.update(i as int, vcpu_view(vcpu)), ..old(self)@ }),
    {
        let ghost before = self@;
        self.vcpus[i] = vcpu;
        proof {
            assert(self@.vcpus =~= before.vcpus.update(i as int, vcpu_view(vcpu)));
            assert(self@.vms =~= before.vms);
        }
    }

    fn take_vcpu(&mut self, i: usize) -> (vcpu: HandleVcpu)
        requires
            old(self).wf(),
            i < old(self).vcpus@.len(),
            old(self).vcpus@[i as int] is Some,
        ensures
            final(self).wf(),
            vcpu@ == old(self)@.vcpus[i as int]->Some_0,
            final(self).vcpus@.len() == old(self).vcpus@.len(),
            final(self).vms == old(self).vms,
            final(self)@ == (HandleView { vcpus: old(self)@.vcpus.update(i as int, None), ..old(self)@ }),
    {
        let ghost before = self@;
        assert(before.vcpus[i as int] == vcpu_view(self.vcpus@[i as int]));
        let taken = self.vcpus[i].take();
        proof {
            assert(self@.vcpus =~= before.vcpus.update(i as int, None));
            assert(self@.vms =~= before.vms);
        }
        taken.unwrap()
    }
}

/// Brings the backend up: there is nothing to do.
pub fn axvisor_kvm_rs_backend_init() -> (r: i32)
    ensures
        r == 0,
{
    0
}

/// Takes the backend down: there is nothing to do, and nothing to say of it.
pub fn axvisor_kvm_rs_backend_exit() {
}

/// Creates a VM and stores its handle; refused without a place for the handle, or
/// without memory.
pub fn axvisor_kvm_rs_create_vm(backend: &mut HandleBackend, backend_vm: &mut Option<u64>, room: bool) -> (r: i32)
    requires
        old(backend).wf(),
    ensures
        final(backend).wf(),
        r == (if *old(backend_vm) is None {
            -EINVAL
        } else if !room {
            -ENOMEM
        } else {
            0
        }),
        r != 0 ==> final(backend)@ == old(backend)@ && *final(backend_vm) == *old(backend_vm),
        r == 0 ==> {
            &&& *final(backend_vm) == Some((old(backend)@.vms.len() + 1) as u64)
            &&& final(backend)@ == (HandleView { vms: old(backend)@.vms.push(Some(VmView::fresh())), ..old(backend)@ })
        },
{
    if backend_vm.is_none() {
        return -EINVAL;
    }
    if !room {
        return -ENOMEM;
    }
    let ghost before = backend@;
    let vm = HandleVm { mappings: Vec::new(), vcpus: Vec::new(), booted: false, state: BackendVmState::empty() };
    assert(vm@ =~= VmView::fresh());
    backend.vms.push(Some(vm));
    *backend_vm = Some(backend.vms.len() as u64);
    proof {
        assert(backend@.vms =~= before.vms.push(Some(VmView::fresh())));
        assert(backend@.vcpus =~= before.vcpus);
        assert forall|j: int| 0 <= j < backend@.vms.len() implies ((#[trigger] backend@.vms[j]) matches Some(v)
            ==> v.inv()) by {
            if j < before.vms.len() {
                assert(before.vms[j] matches Some(v) ==> v.inv());
            }
        }
    }
    0
}

/// Destroys a VM; a handle of none does nothing.
pub fn axvisor_kvm_rs_destroy_vm(backend: &mut HandleBackend, backend_vm: u64)
    requires
        old(backend).wf(),
    ensures
        final(backend).wf(),
        final(backend)@ == (if old(backend)@.vm(backend_vm) is Some {
            old(backend)@.with_vm(backend_vm, None)
        } else {
            old(backend)@
        }),
{
    if let Ok(i) = vm_from_handle(backend, backend_vm) {
        backend.put_vm(i, None);
    }
}

/// Sets the state of a VM.
pub fn axvisor_kvm_rs_set_vm_state(
    backend: &mut HandleBackend,
    backend_vm: u64,
    version: u32,
    arch: u32,
    irqchip_created: u32,
    pit_created: u32,
    pit_flags: u32,
    tss_addr: u32,
    identity_map_addr: u64,
    nr_irqchips: u32,
) -> (r: i32)
    requires
        old(backend).wf(),
    ensures
        final(backend).wf(),
        old(backend)@.vm(backend_vm) is None ==> r == -EINVAL && final(backend)@ == old(backend)@,
        old(backend)@.vm(backend_vm) matches Some(vm) ==> r == 0 && final(backend)@ == old(backend)@.with_vm(
            backend_vm,
            Some(
                VmView {
                    state: BackendVmState {
                        version,
                        arch,
                        irqchip_created: irqchip_created != 0,
                        pit_created: pit_created != 0,
                        pit_flags,
                        tss_addr,
                        identity_map_addr,
                        nr_irqchips,
                    },
                    ..vm
                },
            ),
        ),
{
    let i: usize = match vm_from_handle(backend, backend_vm) {
        Ok(i) => i,
        Err(err) => {
            return err;
        },
    };
    let mut vm = backend.take_vm(i);
    vm.state = BackendVmState {
        version,
        arch,
        irqchip_created: irqchip_created != 0,
        pit_created: pit_created != 0,
        pit_flags,
        tss_addr,
        identity_map_addr,
        nr_irqchips,
    };
    backend.put_vm(i, Some(vm));
    assert(backend@ =~= old(backend)@.with_vm(backend_vm, Some(vm@)));
    0
}

/// The pages of a VM after one was mapped: overwritten where it was mapped, else
/// added at the end.
pub open spec fn page_mapped(s: Seq<Mapping>, gpa: u64, hpa: u64, flags: u32, after: Seq<Mapping>) -> bool {
    let page = Mapping { gpa, hpa, flags };
    if exists|i: int| 0 <= i < s.len() && (#[trigger] s[i]).gpa == gpa {
        exists|i: int| 0 <= i < s.len() && (#[trigger] s[i]).gpa == gpa && after == s.update(i, page)
    } else {
        after == s.push(page)
    }
}

/// Maps a guest page of a VM; a page that is new needs memory.
pub fn axvisor_kvm_rs_map_page(backend: &mut HandleBackend, backend_vm: u64, gpa: u64, hpa: u64, flags: u32, room: bool) -> (r:
    i32)
    requires
        old(backend).wf(),
    ensures
        final(backend).wf(),
        old(backend)@.vm(backend_vm) is None ==> r == -EINVAL && final(backend)@ == old(backend)@,
        old(backend)@.vm(backend_vm) matches Some(vm) ==> {
            if vm.maps(gpa) || room {
                &&& r == 0
                &&& final(backend)@.vm(backend_vm) matches Some(after)
                &&& page_mapped(vm.mappings, gpa, hpa, flags, after.mappings)
                &&& final(backend)@ == old(backend)@.with_vm(
                    backend_vm,
                    Some(VmView { mappings: after.mappings, ..vm }),
                )
            } else {
                r == -ENOMEM && final(backend)@ == old(backend)@
            }
        },
{
    let i: usize = match vm_from_handle(backend, backend_vm) {
        Ok(i) => i,
        Err(err) => {
            return err;
        },
    };
    let ghost before = backend@;
    let ghost vm0 = before.vms[i as int]->Some_0;
    let mut vm = backend.take_vm(i);
    let mut k: usize = 0;
    while k < vm.mappings.len()
        invariant
            k <= vm.mappings@.len(),
            vm@ == vm0,
            vm0.inv(),
            before == old(backend)@,
            before.vm(backend_vm) == Some(vm0),
            i == backend_vm - 1,
            i < before.vms.len(),
            before.vms[i as int] == Some(vm0),
            backend.wf(),
            backend.vms@.len() == before.vms.len(),
            backend@ == (HandleView { vms: before.vms.update(i as int, None), ..before }),
            forall|j: int| 0 <= j < k ==> (#[trigger] vm0.mappings[j]).gpa != gpa,
        decreases vm.mappings@.len() - k,
    {
        if vm.mappings[k].gpa == gpa {
            vm.mappings[k].hpa = hpa;
            vm.mappings[k].flags = flags;
            proof {
                assert(vm0.mappings[k as int].gpa == gpa);
                assert(vm@.mappings =~= vm0.mappings.update(k as int, Mapping { gpa, hpa, flags }));
                assert forall|a: int, b: int| 0 <= a < b < vm@.mappings.len() implies (
                #[trigger] vm@.mappings[a]).gpa != (#[trigger] vm@.mappings[b]).gpa by {
                    assert(vm0.mappings[a].gpa != vm0.mappings[b].gpa);
                }
                assert(vm@ =~= VmView { mappings: vm@.mappings, ..vm0 });
            }
            backend.put_vm(i, Some(vm));
            assert(backend@ =~= before.with_vm(backend_vm, Some(vm@)));
            return 0;
        }
        k += 1;
    }
    assert(!vm0.maps(gpa));
    if !room {
        backend.put_vm(i, Some(vm));
        assert(backend@ =~= before);
        return -ENOMEM;
    }
    vm.mappings.push(Mapping { gpa, hpa, flags });
    proof {
        assert(vm@ =~= VmView { mappings: vm0.mappings.push(Mapping { gpa, hpa, flags }), ..vm0 });
    }
    backend.put_vm(i, Some(vm));
    assert(backend@ =~= before.with_vm(backend_vm, Some(vm@)));
    0
}

/// The pages that lie outside a range.
pub open spec fn outside_range(gpa: u64, size: u64) -> spec_fn(Mapping) -> bool {
    |m: Mapping| m.gpa < gpa || m.gpa >= range_end(gpa, size)
}

proof fn lemma_filter_keeps_distinct_pages(s: Seq<Mapping>, keep: spec_fn(Mapping) -> bool)
    requires
        forall|i: int, j: int| 0 <= i < j < s.len() ==> (#[trigger] s[i]).gpa != (#[trigger] s[j]).gpa,
    ensures
        forall|i: int, j: int|
            0 <= i < j < s.filter(keep).len() ==> (#[trigger] s.filter(keep)[i]).gpa != (
            #[trigger] s.filter(keep)[j]).gpa,
        forall|i: int|
            0 <= i < s.filter(keep).len() ==> exists|k: int|
                0 <= k < s.len() && #[trigger] s[k] == #[trigger] s.filter(keep)[i],
    decreases s.len(),
{
    reveal(Seq::filter);
    if s.len() > 0 {
        let t = s.drop_last();
        assert forall|i: int, j: int| 0 <= i < j < t.len() implies (#[trigger] t[i]).gpa != (#[trigger] t[j]).gpa by {
            assert(s[i].gpa != s[j].gpa);
        }
        lemma_filter_keeps_distinct_pages(t, keep);
        let f = t.filter(keep);
        assert forall|i: int| 0 <= i < s.filter(keep).len() implies exists|k: int|
            0 <= k < s.len() && #[trigger] s[k] == #[trigger] s.filter(keep)[i] by {
            if i < f.len() {
                let k = choose|k: int| 0 <= k < t.len() && #[trigger] t[k] == f[i];
                assert(s[k] == s.filter(keep)[i]);
            } else {
                assert(s[s.len() - 1] == s.filter(keep)[i]);
            }
        }
        assert forall|i: int, j: int| 0 <= i < j < s.filter(keep).len() implies (#[trigger] s.filter(keep)[i]).gpa != (
        #[trigger] s.filter(keep)[j]).gpa by {
            if j < f.len() {
                assert(f[i].gpa != f[j].gpa);
            } else {
                let k = choose|k: int| 0 <= k < t.len() && #[trigger] t[k] == f[i];
                assert(s[k].gpa != s[s.len() - 1].gpa);
            }
        }
    }
}

/// Unmaps the guest pages of a range; pages outside keep their order.
pub fn axvisor_kvm_rs_unmap_range(backend: &mut HandleBackend, backend_vm: u64, gpa: u64, size: u64) -> (r: i32)
    requires
        old(backend).wf(),
    ensures
        final(backend).wf(),
        old(backend)@.vm(backend_vm) is None ==> r == -EINVAL && final(backend)@ == old(backend)@,
        old(backend)@.vm(backend_vm) matches Some(vm) ==> r == 0 && final(backend)@ == old(backend)@.with_vm(
            backend_vm,
            Some(VmView { mappings: vm.mappings.filter(outside_range(gpa, size)), ..vm }),
        ),
{
    let i: usize = match vm_from_handle(backend, backend_vm) {
        Ok(i) => i,
        Err(err) => {
            return err;
        },
    };
    let ghost before = backend@;
    let ghost vm0 = before.vms[i as int]->Some_0;
    let ghost keep = outside_range(gpa, size);
    let mut vm = backend.take_vm(i);
    let end: u64 = gpa.saturating_add(size);
    let mut kept: Vec<Mapping> = Vec::new();
    let mut k: usize = 0;
    proof {
        reveal(Seq::filter);
        assert(vm0.mappings.take(0) =~= seq![]);
    }
    while k < vm.mappings.len()
        invariant
            k <= vm.mappings@.len(),
            vm@ == vm0,
            keep == outside_range(gpa, size),
            end == range_end(gpa, size),
            kept@ == vm0.mappings.take(k as int).filter(keep),
        decreases vm.mappings@.len() - k,
    {
        let m: Mapping = vm.mappings[k];
        proof {
            reveal(Seq::filter);
            assert(vm0.mappings.take(k + 1).drop_last() =~= vm0.mappings.take(k as int));
        }
        if m.gpa < gpa || m.gpa >= end {
            kept.push(m);
        }
        k += 1;
    }
    proof {
        assert(vm0.mappings.take(vm0.mappings.len() as int) =~= vm0.mappings);
        lemma_filter_keeps_distinct_pages(vm0.mappings, keep);
    }
    vm.mappings = kept;
    assert(vm@ =~= VmView { mappings: vm0.mappings.filter(keep), ..vm0 });
    backend.put_vm(i, Some(vm));
    assert(backend@ =~= before.with_vm(backend_vm, Some(vm@)));
    0
}

/// Creates a vCPU of a VM and stores its handle; refused without a place for the
/// handle, for a VM that does not exist or has the id, or without memory, for the
/// vCPU or for the VM's list of them.
pub fn axvisor_kvm_rs_create_vcpu(
    backend: &mut HandleBackend,
    backend_vm: u64,
    vcpu_id: u32,
    backend_vcpu: &mut Option<u64>,
    room: bool,
    list_room: bool,
) -> (r: i32)
    requires
        old(backend).wf(),
    ensures
        final(backend).wf(),
        r == (if *old(backend_vcpu) is None || old(backend)@.vm(backend_vm) is None {
            -EINVAL
        } else if old(backend)@.vm(backend_vm)->Some_0.has_vcpu(vcpu_id) {
            -EEXIST
        } else if !room || !list_room {
            -ENOMEM
        } else {
            0
        }),
        r != 0 ==> final(backend)@ == old(backend)@ && *final(backend_vcpu) == *old(backend_vcpu),
        r == 0 ==> {
            let handle = (old(backend)@.vcpus.len() + 1) as u64;
            let vm = old(backend)@.vm(backend_vm)->Some_0;
            &&& *final(backend_vcpu) == Some(handle)
            &&& final(backend)@ == (HandleView {
                vcpus: old(backend)@.vcpus.push(Some(VcpuView::fresh(backend_vm, vcpu_id))),
                ..old(backend)@
            }).with_vm(
                backend_vm,
                Some(VmView { vcpus: vm.vcpus.push(VcpuEntry { id: vcpu_id, handle }), ..vm }),
            )
        },
{
    if backend_vcpu.is_none() {
        return -EINVAL;
    }
    let i: usize = match vm_from_handle(backend, backend_vm) {
        Ok(i) => i,
        Err(err) => {
            return err;
        },
    };
    let ghost before = backend@;
    let ghost vm0 = before.vms[i as int]->Some_0;
    let mut vm = backend.take_vm(i);
    let mut exists_already: bool = false;
    let mut k: usize = 0;
    while k < vm.vcpus.len()
        invariant
            k <= vm.vcpus@.len(),
            vm@ == vm0,
            exists_already == (exists|j: int| 0 <= j < k && (#[trigger] vm0.vcpus[j]).id == vcpu_id),
        decreases vm.vcpus@.len() - k,
    {
        if vm.vcpus[k].id == vcpu_id {
            exists_already = true;
            assert(vm0.vcpus[k as int].id == vcpu_id);
        }
        k += 1;
    }
    if exists_already || !room || !list_room {
        backend.put_vm(i, Some(vm));
        assert(backend@ =~= before);
        return if exists_already {
            -EEXIST
        } else {
            -ENOMEM
        };
    }
    let vcpu = HandleVcpu {
        vm_handle: backend_vm,
        id: vcpu_id,
        state: BackendVcpuState::empty(),
        regs: BackendRegs::empty(),
        sregs: BackendSregs::empty(),
        segments: [BackendSegment::empty(); NUM_SEGMENTS],
        dtables: [BackendDtable::empty(); NUM_DTABLES],
        cpuid_entries: Vec::new(),
        msr_entries: Vec::new(),
    };
    assert(vcpu@ =~= VcpuView::fresh(backend_vm, vcpu_id));
    let ghost taken = backend@;
    backend.vcpus.push(Some(vcpu));
    let handle: u64 = backend.vcpus.len() as u64;
    proof {
        assert(backend@.vcpus =~= taken.vcpus.push(Some(VcpuView::fresh(backend_vm, vcpu_id))));
        assert(backend@.vms =~= taken.vms);
    }
    vm.vcpus.push(VcpuEntry { id: vcpu_id, handle });
    proof {
        assert(vm@ =~= VmView { vcpus: vm0.vcpus.push(VcpuEntry { id: vcpu_id, handle }), ..vm0 });
        assert forall|a: int, b: int| 0 <= a < b < vm@.vcpus.len() implies (#[trigger] vm@.vcpus[a]).id != (
        #[trigger] vm@.vcpus[b]).id by {
            if b < vm0.vcpus.len() {
                assert(vm0.vcpus[a].id != vm0.vcpus[b].id);
            }
        }
    }
    backend.put_vm(i, Some(vm));
    *backend_vcpu = Some(handle);
    assert(backend@ =~= (HandleView {
        vcpus: before.vcpus.push(Some(VcpuView::fresh(backend_vm, vcpu_id))),
        ..before
    }).with_vm(backend_vm, Some(vm@)));
    0
}

/// The vCPUs with another handle.
pub open spec fn other_handle(handle: u64) -> spec_fn(VcpuEntry) -> bool {
    |e: VcpuEntry| e.handle != handle
}

proof fn lemma_filter_keeps_distinct_ids(s: Seq<VcpuEntry>, keep: spec_fn(VcpuEntry) -> bool)
    requires
        forall|i: int, j: int| 0 <= i < j < s.len() ==> (#[trigger] s[i]).id != (#[trigger] s[j]).id,
    ensures
        forall|i: int, j: int|
            0 <= i < j < s.filter(keep).len() ==> (#[trigger] s.filter(keep)[i]).id != (#[trigger] s.filter(
                keep,
            )[j]).id,
        forall|i: int|
            0 <= i < s.filter(keep).len() ==> exists|k: int|
                0 <= k < s.len() && #[trigger] s[k] == #[trigger] s.filter(keep)[i],
    decreases s.len(),
{
    reveal(Seq::filter);
    if s.len() > 0 {
        let t = s.drop_last();
        assert forall|i: int, j: int| 0 <= i < j < t.len() implies (#[trigger] t[i]).id != (#[trigger] t[j]).id by {
            assert(s[i].id != s[j].id);
        }
        lemma_filter_keeps_distinct_ids(t, keep);
        let f = t.filter(keep);
        assert forall|i: int| 0 <= i < s.filter(keep).len() implies exists|k: int|
            0 <= k < s.len() && #[trigger] s[k] == #[trigger] s.filter(keep)[i] by {
            if i < f.len() {
                let k = choose|k: int| 0 <= k < t.len() && #[trigger] t[k] == f[i];
                assert(s[k] == s.filter(keep)[i]);
            } else {
                assert(s[s.len() - 1] == s.filter(keep)[i]);
            }
        }
        assert forall|i: int, j: int| 0 <= i < j < s.filter(keep).len() implies (#[trigger] s.filter(keep)[i]).id != (
        #[trigger] s.filter(keep)[j]).id by {
            if j < f.len() {
                assert(f[i].id != f[j].id);
            } else {
                let k = choose|k: int| 0 <= k < t.len() && #[trigger] t[k] == f[i];
                assert(s[k].id != s[s.len() - 1].id);
            }
        }
    }
}

/// Destroys a vCPU and takes it off its VM's list; a handle of none does nothing.
pub fn axvisor_kvm_rs_destroy_vcpu(backend: &mut HandleBackend, backend_vcpu: u64)
    requires
        old(backend).wf(),
    ensures
        final(backend).wf(),
        final(backend)@ == (match old(backend)@.vcpu(backend_vcpu) {
            None => old(backend)@,
            Some(vcpu) => {
                let freed = old(backend)@.with_vcpu(backend_vcpu, None);
                match old(backend)@.vm(vcpu.vm_handle) {
                    Some(vm) => freed.with_vm(
                        vcpu.vm_handle,
                        Some(VmView { vcpus: vm.vcpus.filter(other_handle(backend_vcpu)), ..vm }),
                    ),
                    None => freed,
                }
            },
        }),
{
    let slot: usize = match vcpu_from_handle(backend, backend_vcpu) {
        Ok(slot) => slot,
        Err(_) => {
            return ;
        },
    };
    let ghost before = backend@;
    let vcpu = backend.take_vcpu(slot);
    let ghost freed = backend@;
    assert(freed =~= before.with_vcpu(backend_vcpu, None));
    if let Ok(i) = vm_from_handle(backend, vcpu.vm_handle) {
        let ghost vm0 = before.vms[i as int]->Some_0;
        let ghost keep = other_handle(backend_vcpu);
        let mut vm = backend.take_vm(i);
        let mut kept: Vec<VcpuEntry> = Vec::new();
        let mut k: usize = 0;
        proof {
            reveal(Seq::filter);
            assert(vm0.vcpus.take(0) =~= seq![]);
        }
        while k < vm.vcpus.len()
            invariant
                k <= vm.vcpus@.len(),
                vm@ == vm0,
                keep == other_handle(backend_vcpu),
                kept@ == vm0.vcpus.take(k as int).filter(keep),
            decreases vm.vcpus@.len() - k,
        {
            let e: VcpuEntry = vm.vcpus[k];
            proof {
                reveal(Seq::filter);
                assert(vm0.vcpus.take(k + 1).drop_last() =~= vm0.vcpus.take(k as int));
            }
            if e.handle != backend_vcpu {
                kept.push(e);
            }
            k += 1;
        }
        proof {
            assert(vm0.vcpus.take(vm0.vcpus.len() as int) =~= vm0.vcpus);
            lemma_filter_keeps_distinct_ids(vm0.vcpus, keep);
        }
        vm.vcpus = kept;
        assert(vm@ =~= VmView { vcpus: vm0.vcpus.filter(keep), ..vm0 });
        backend.put_vm(i, Some(vm));
        assert(backend@ =~= freed.with_vm(vcpu.vm_handle, Some(vm@)));
    }
}

/// Sets the run state of a vCPU.
pub fn axvisor_kvm_rs_set_vcpu_state(
    backend: &mut HandleBackend,
    backend_vcpu: u64,
    version: u32,
    arch: u32,
    rip: u64,
    rsp: u64,
    rflags: u64,
    cr0: u64,
    cr3: u64,
    cr4: u64,
    efer: u64,
    apic_base: u64,
    cpuid_nent: u32,
    nmsrs: u32,
    tsc_khz: u32,
) -> (r: i32)
    requires
        old(backend).wf(),
    ensures
        final(backend).wf(),
        old(backend)@.vcpu(backend_vcpu) is None ==> r == -EINVAL && final(backend)@ == old(backend)@,
        old(backend)@.vcpu(backend_vcpu) matches Some(v) ==> r == 0 && final(backend)@ == old(backend)@.with_vcpu(
            backend_vcpu,
            Some(
                VcpuView {
                    state: BackendVcpuState {
                        version,
                        arch,
                        rip,
                        rsp,
                        rflags,
                        cr0,
                        cr3,
                        cr4,
                        efer,
                        apic_base,
                        cpuid_nent,
                        nmsrs,
                        tsc_khz,
                    },
                    ..v
                },
            ),
        ),
{
    let i: usize = match vcpu_from_handle(backend, backend_vcpu) {
        Ok(i) => i,
        Err(err) => {
            return err;
        },
    };
    let mut vcpu = backend.take_vcpu(i);
    vcpu.state = BackendVcpuState {
        version,
        arch,
        rip,
        rsp,
        rflags,
        cr0,
        cr3,
        cr4,
        efer,
        apic_base,
        cpuid_nent,
        nmsrs,
        tsc_khz,
    };
    backend.put_vcpu(i, Some(vcpu));
    assert(backend@ =~= old(backend)@.with_vcpu(backend_vcpu, Some(vcpu@)));
    0
}

/// Sets the general registers of a vCPU.
pub fn axvisor_kvm_rs_set_vcpu_regs(
    backend: &mut HandleBackend,
    backend_vcpu: u64,
    rax: u64,
    rbx: u64,
    rcx: u64,
    rdx: u64,
    rsi: u64,
    rdi: u64,
    rsp: u64,
    rbp: u64,
    r8: u64,
    r9: u64,
    r10: u64,
    r11: u64,
    r12: u64,
    r13: u64,
    r14: u64,
    r15: u64,
    rip: u64,
    rflags: u64,
) -> (r: i32)
    requires
        old(backend).wf(),
    ensures
        final(backend).wf(),
        old(backend)@.vcpu(backend_vcpu) is None ==> r == -EINVAL && final(backend)@ == old(backend)@,
        old(backend)@.vcpu(backend_vcpu) matches Some(v) ==> r == 0 && final(backend)@ == old(backend)@.with_vcpu(
            backend_vcpu,
            Some(
                VcpuView {
                    regs: BackendRegs {
                        rax,
                        rbx,
                        rcx,
                        rdx,
                        rsi,
                        rdi,
                        rsp,
                        rbp,
                        r8,
                        r9,
                        r10,
                        r11,
                        r12,
                        r13,
                        r14,
                        r15,
                        rip,
                        rflags,
                    },
                    ..v
                },
            ),
        ),
{
    let i: usize = match vcpu_from_handle(backend, backend_vcpu) {
        Ok(i) => i,
        Err(err) => {
            return err;
        },
    };
    let mut vcpu = backend.take_vcpu(i);
    vcpu.regs =
    BackendRegs { rax, rbx, rcx, rdx, rsi, rdi, rsp, rbp, r8, r9, r10, r11, r12, r13, r14, r15, rip, rflags };
    backend.put_vcpu(i, Some(vcpu));
    assert(backend@ =~= old(backend)@.with_vcpu(backend_vcpu, Some(vcpu@)));
    0
}

/// Sets the control registers of a vCPU.
pub fn axvisor_kvm_rs_set_vcpu_sregs_control(
    backend: &mut HandleBackend,
    backend_vcpu: u64,
    cr0: u64,
    cr2: u64,
    cr3: u64,
    cr4: u64,
    cr8: u64,
    efer: u64,
    apic_base: u64,
) -> (r: i32)
    requires
        old(backend).wf(),
    ensures
        final(backend).wf(),
        old(backend)@.vcpu(backend_vcpu) is None ==> r == -EINVAL && final(backend)@ == old(backend)@,
        old(backend)@.vcpu(backend_vcpu) matches Some(v) ==> r == 0 && final(backend)@ == old(backend)@.with_vcpu(
            backend_vcpu,
            Some(VcpuView { sregs: BackendSregs { cr0, cr2, cr3, cr4, cr8, efer, apic_base }, ..v }),
        ),
{
    let i: usize = match vcpu_from_handle(backend, backend_vcpu) {
        Ok(i) => i,
        Err(err) => {
            return err;
        },
    };
    let mut vcpu = backend.take_vcpu(i);
    vcpu.sregs = BackendSregs { cr0, cr2, cr3, cr4, cr8, efer, apic_base };
    backend.put_vcpu(i, Some(vcpu));
    assert(backend@ =~= old(backend)@.with_vcpu(backend_vcpu, Some(vcpu@)));
    0
}

/// Sets one segment register of a vCPU.
pub fn axvisor_kvm_rs_set_vcpu_segment(
    backend: &mut HandleBackend,
    backend_vcpu: u64,
    segment_id: u32,
    base: u64,
    limit: u32,
    selector: u32,
    type_: u32,
    present: u32,
    dpl: u32,
    db: u32,
    s: u32,
    l: u32,
    g: u32,
    avl: u32,
    unusable: u32,
) -> (r: i32)
    requires
        old(backend).wf(),
    ensures
        final(backend).wf(),
        old(backend)@.vcpu(backend_vcpu) is None || segment_id >= NUM_SEGMENTS ==> r == -EINVAL && final(backend)@
            == old(backend)@,
        old(backend)@.vcpu(backend_vcpu) matches Some(v) ==> segment_id < NUM_SEGMENTS ==> r == 0 && final(backend)@
            == old(backend)@.with_vcpu(
            backend_vcpu,
            Some(
                VcpuView {
                    segments: v.segments.update(
                        segment_id as int,
                        BackendSegment { base, limit, selector, type_, present, dpl, db, s, l, g, avl, unusable },
                    ),
                    ..v
                },
            ),
        ),
{
    let i: usize = match vcpu_from_handle(backend, backend_vcpu) {
        Ok(i) => i,
        Err(err) => {
            return err;
        },
    };
    if segment_id as usize >= NUM_SEGMENTS {
        return -EINVAL;
    }
    let mut vcpu = backend.take_vcpu(i);
    vcpu.segments[segment_id as usize] =
    BackendSegment { base, limit, selector, type_, present, dpl, db, s, l, g, avl, unusable };
    backend.put_vcpu(i, Some(vcpu));
    assert(backend@ =~= old(backend)@.with_vcpu(backend_vcpu, Some(vcpu@)));
    0
}

/// Sets one descriptor table register of a vCPU.
pub fn axvisor_kvm_rs_set_vcpu_dtable(
    backend: &mut HandleBackend,
    backend_vcpu: u64,
    table_id: u32,
    base: u64,
    limit: u32,
) -> (r: i32)
    requires
        old(backend).wf(),
    ensures
        final(backend).wf(),
        old(backend)@.vcpu(backend_vcpu) is None || table_id >= NUM_DTABLES ==> r == -EINVAL && final(backend)@ == old(backend)@,
        old(backend)@.vcpu(backend_vcpu) matches Some(v) ==> table_id < NUM_DTABLES ==> r == 0 && final(backend)@
            == old(backend)@.with_vcpu(
            backend_vcpu,
            Some(VcpuView { dtables: v.dtables.update(table_id as int, BackendDtable { base, limit }), ..v }),
        ),
{
    let i: usize = match vcpu_from_handle(backend, backend_vcpu) {
        Ok(i) => i,
        Err(err) => {
            return err;
        },
    };
    if table_id as usize >= NUM_DTABLES {
        return -EINVAL;
    }
    let mut vcpu = backend.take_vcpu(i);
    vcpu.dtables[table_id as usize] = BackendDtable { base, limit };
    backend.put_vcpu(i, Some(vcpu));
    assert(backend@ =~= old(backend)@.with_vcpu(backend_vcpu, Some(vcpu@)));
    0
}

/// A list after an entry was stored at a position: in place where the list reaches
/// that far; else the list is filled up to the position first. The allocator grants
/// `granted` new entries; where these do not suffice the list stays filled up as
/// far as they go.
pub open spec fn entry_stored<T>(s: Seq<T>, at: int, entry: T, filler: T, granted: int) -> Seq<T> {
    if at < s.len() {
        s.update(at, entry)
    } else if granted > at - s.len() {
        (s + Seq::new((at - s.len()) as nat, |i: int| filler)).push(entry)
    } else {
        s + Seq::new(granted as nat, |i: int| filler)
    }
}

/// Whether an entry can be stored.
pub open spec fn entry_fits<T>(s: Seq<T>, at: int, granted: int) -> bool {
    at < s.len() || granted > at - s.len()
}

fn store_entry<T: Copy>(list: &mut Vec<T>, at: usize, entry: T, filler: T, granted: usize) -> (r: i32)
    ensures
        final(list)@ == entry_stored(old(list)@, at as int, entry, filler, granted as int),
        r == (if entry_fits(old(list)@, at as int, granted as int) {
            0
        } else {
            -ENOMEM
        }),
{
    if at < list.len() {
        list[at] = entry;
        return 0;
    }
    let ghost s = list@;
    let mut left: usize = granted;
    while list.len() < at
        invariant
            s == old(list)@,
            s.len() <= list@.len() <= at,
            left + (list@.len() - s.len()) == granted,
            list@ == s + Seq::new((list@.len() - s.len()) as nat, |i: int| filler),
        decreases at - list@.len(),
    {
        if left == 0 {
            return -ENOMEM;
        }
        left -= 1;
        list.push(filler);
        assert(list@ =~= s + Seq::new((list@.len() - s.len()) as nat, |i: int| filler));
    }
    if left == 0 {
        return -ENOMEM;
    }
    list.push(entry);
    0
}

/// Sets one CPUID entry of a vCPU; the allocator grants `granted` new entries.
pub fn axvisor_kvm_rs_set_vcpu_cpuid_entry(
    backend: &mut HandleBackend,
    backend_vcpu: u64,
    entry_index: u32,
    function: u32,
    index: u32,
    flags: u32,
    eax: u32,
    ebx: u32,
    ecx: u32,
    edx: u32,
    granted: usize,
) -> (r: i32)
    requires
        old(backend).wf(),
    ensures
        final(backend).wf(),
        old(backend)@.vcpu(backend_vcpu) is None || entry_index >= MAX_CPUID_ENTRIES ==> r == -EINVAL && final(backend)@ == old(backend)@,
        old(backend)@.vcpu(backend_vcpu) matches Some(v) ==> entry_index < MAX_CPUID_ENTRIES ==> {
            &&& r == (if entry_fits(v.cpuid_entries, entry_index as int, granted as int) {
                0
            } else {
                -ENOMEM
            })
            &&& final(backend)@ == old(backend)@.with_vcpu(
                backend_vcpu,
                Some(
                    VcpuView {
                        cpuid_entries: entry_stored(
                            v.cpuid_entries,
                            entry_index as int,
                            CpuidEntry { function, index, flags, eax, ebx, ecx, edx },
                            CpuidEntry::spec_empty(),
                            granted as int,
                        ),
                        ..v
                    },
                ),
            )
        },
{
    let i: usize = match vcpu_from_handle(backend, backend_vcpu) {
        Ok(i) => i,
        Err(err) => {
            return err;
        },
    };
    if entry_index as usize >= MAX_CPUID_ENTRIES {
        return -EINVAL;
    }
    let mut vcpu = backend.take_vcpu(i);
    let entry = CpuidEntry { function, index, flags, eax, ebx, ecx, edx };
    let r: i32 = store_entry(&mut vcpu.cpuid_entries, entry_index as usize, entry, CpuidEntry::empty(), granted);
    backend.put_vcpu(i, Some(vcpu));
    assert(backend@ =~= old(backend)@.with_vcpu(backend_vcpu, Some(vcpu@)));
    r
}

/// Sets one MSR entry of a vCPU; the allocator grants `granted` new entries.
pub fn axvisor_kvm_rs_set_vcpu_msr_entry(
    backend: &mut HandleBackend,
    backend_vcpu: u64,
    entry_index: u32,
    index: u32,
    data: u64,
    granted: usize,
) -> (r: i32)
    requires
        old(backend).wf(),
    ensures
        final(backend).wf(),
        old(backend)@.vcpu(backend_vcpu) is None || entry_index >= MAX_MSR_ENTRIES ==> r == -EINVAL && final(backend)@
            == old(backend)@,
        old(backend)@.vcpu(backend_vcpu) matches Some(v) ==> entry_index < MAX_MSR_ENTRIES ==> {
            &&& r == (if entry_fits(v.msr_entries, entry_index as int, granted as int) {
                0
            } else {
                -ENOMEM
            })
            &&& final(backend)@ == old(backend)@.with_vcpu(
                backend_vcpu,
                Some(
                    VcpuView {
                        msr_entries: entry_stored(
                            v.msr_entries,
                            entry_index as int,
                            MsrEntry { index, data },
                            MsrEntry::spec_empty(),
                            granted as int,
                        ),
                        ..v
                    },
                ),
            )
        },
{
    let i: usize = match vcpu_from_handle(backend, backend_vcpu) {
        Ok(i) => i,
        Err(err) => {
            return err;
        },
    };
    if entry_index as usize >= MAX_MSR_ENTRIES {
        return -EINVAL;
    }
    let mut vcpu = backend.take_vcpu(i);
    let entry = MsrEntry { index, data };
    let r: i32 = store_entry(&mut vcpu.msr_entries, entry_index as usize, entry, MsrEntry::empty(), granted);
    backend.put_vcpu(i, Some(vcpu));
    assert(backend@ =~= old(backend)@.with_vcpu(backend_vcpu, Some(vcpu@)));
    r
}

/// Marks a VM as booted.
pub fn axvisor_kvm_rs_boot_vm(backend: &mut HandleBackend, backend_vm: u64) -> (r: i32)
    requires
        old(backend).wf(),
    ensures
        final(backend).wf(),
        old(backend)@.vm(backend_vm) is None ==> r == -EINVAL && final(backend)@ == old(backend)@,
        old(backend)@.vm(backend_vm) matches Some(vm) ==> r == 0 && final(backend)@ == old(backend)@.with_vm(
            backend_vm,
            Some(VmView { booted: true, ..vm }),
        ),
{
    let i: usize = match vm_from_handle(backend, backend_vm) {
        Ok(i) => i,
        Err(err) => {
            return err;
        },
    };
    let mut vm = backend.take_vm(i);
    vm.booted = true;
    backend.put_vm(i, Some(vm));
    assert(backend@ =~= old(backend)@.with_vm(backend_vm, Some(vm@)));
    0
}

/// Refuses to run a vCPU: nothing runs here. The caller's outputs, where it has a
/// place for all of them, say that the entry failed.
pub fn axvisor_kvm_rs_run_vcpu(backend: &HandleBackend, backend_vcpu: u64, outputs: bool) -> (r: (
    i32,
    Option<BackendExit>,
))
    ensures
        r == (if backend@.vcpu(backend_vcpu) is None || !outputs {
            ((-EINVAL) as i32, None::<BackendExit>)
        } else {
            ((-EOPNOTSUPP) as i32, Some(BackendExit::spec_reset()))
        }),
{
    if let Err(err) = vcpu_from_handle(backend, backend_vcpu) {
        return (err, None);
    }
    if !outputs {
        return (-EINVAL, None);
    }
    (-EOPNOTSUPP, Some(reset_backend_exit_outputs()))
}

/// Refuses to complete a read: no read ever waits here.
pub fn axvisor_kvm_rs_complete_mmio_read() -> (r: i32)
    ensures
        r == -EOPNOTSUPP,
{
    -EOPNOTSUPP
}

/// Refuses to inject an interrupt: nothing runs here.
pub fn axvisor_kvm_rs_inject_irq() -> (r: i32)
    ensures
        r == -EOPNOTSUPP,
{
    -EOPNOTSUPP
}

/// Storing an entry with enough memory makes it readable at its position, keeps
/// every entry that was there, and fills the gap with empty ones.
pub proof fn stored_entry_is_found<T>(s: Seq<T>, at: int, entry: T, filler: T, granted: int)
    requires
        0 <= at,
        0 <= granted,
        entry_fits(s, at, granted),
    ensures
        ({
            let after = entry_stored(s, at, entry, filler, granted);
            &&& at < after.len()
            &&& after[at] == entry
            &&& forall|i: int| 0 <= i < s.len() && i != at ==> after[i] == s[i]
            &&& forall|i: int| s.len() <= i < at ==> after[i] == filler
        }),
{
}

} // verus!
