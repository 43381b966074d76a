//! The backend's VM and vCPU records and the tables that hold them.
use vstd::prelude::*;

use crate::access::AccessWidth;
use crate::bytes::X86KvmFxsave;
use crate::errno::EINVAL;

verus! {

/// Most VMs at a time.
pub const MAX_VMS: usize = 16;

/// Most vCPUs at a time, over all VMs.
pub const MAX_VCPUS: usize = 64;

/// Most CPUID entries of a vCPU.
pub const MAX_CPUID_ENTRIES: usize = 256;

/// Most MSR entries of a vCPU.
pub const MAX_MSR_ENTRIES: usize = 256;

/// Most recorded guest page mappings, over all VMs.
pub const MAX_PAGE_MAPPINGS: usize = 262_144;

/// Pins of the I/O APIC.
pub const KVM_IOAPIC_NUM_PINS: usize = 24;

/// Segment registers of a vCPU.
pub const NUM_SEGMENTS: usize = 8;

/// Descriptor table registers of a vCPU.
pub const NUM_DTABLES: usize = 2;

/// General registers as the KVM caller set them.
#[derive(Clone, Copy, Debug, PartialEq, Eq, Structural)]
pub struct BackendRegs {
    pub rax: u64,
    pub rbx: u64,
    pub rcx: u64,
    pub rdx: u64,
    pub rsi: u64,
    pub rdi: u64,
    pub rsp: u64,
    pub rbp: u64,
    pub r8: u64,
    pub r9: u64,
    pub r10: u64,
    pub r11: u64,
    pub r12: u64,
    pub r13: u64,
    pub r14: u64,
    pub r15: u64,
    pub rip: u64,
    pub rflags: u64,
}

impl BackendRegs {
    /// Every register zero.
    pub open spec fn spec_empty() -> BackendRegs {
        BackendRegs {
            rax: 0,
            rbx: 0,
            rcx: 0,
            rdx: 0,
            rsi: 0,
            rdi: 0,
            rsp: 0,
            rbp: 0,
            r8: 0,
            r9: 0,
            r10: 0,
            r11: 0,
            r12: 0,
            r13: 0,
            r14: 0,
            r15: 0,
            rip: 0,
            rflags: 0,
        }
    }

    /// Every register zero.
    pub fn empty() -> (r: BackendRegs)
        ensures
            r == Self::spec_empty(),
    {
        BackendRegs {
            rax: 0,
            rbx: 0,
            rcx: 0,
            rdx: 0,
            rsi: 0,
            rdi: 0,
            rsp: 0,
            rbp: 0,
            r8: 0,
            r9: 0,
            r10: 0,
            r11: 0,
            r12: 0,
            r13: 0,
            r14: 0,
            r15: 0,
            rip: 0,
            rflags: 0,
        }
    }
}

/// Control registers as the KVM caller set them.
#[derive(Clone, Copy, Debug, PartialEq, Eq, Structural)]
pub struct BackendSregs {
    pub cr0: u64,
    pub cr2: u64,
    pub cr3: u64,
    pub cr4: u64,
    pub cr8: u64,
    pub efer: u64,
    pub apic_base: u64,
}

impl BackendSregs {
    /// Every register zero.
    pub open spec fn spec_empty() -> BackendSregs {
        BackendSregs { cr0: 0, cr2: 0, cr3: 0, cr4: 0, cr8: 0, efer: 0, apic_base: 0 }
    }

    /// Every register zero.
    pub fn empty() -> (r: BackendSregs)
        ensures
            r == Self::spec_empty(),
    {
        BackendSregs { cr0: 0, cr2: 0, cr3: 0, cr4: 0, cr8: 0, efer: 0, apic_base: 0 }
    }
}

/// A segment register as the KVM caller set it.
#[derive(Clone, Copy, Debug, PartialEq, Eq, Structural)]
pub struct BackendSegment {
    pub base: u64,
    pub limit: u32,
    pub selector: u32,
    pub type_: u32,
    pub present: u32,
    pub dpl: u32,
    pub db: u32,
    pub s: u32,
    pub l: u32,
    pub g: u32,
    pub avl: u32,
    pub unusable: u32,
}

impl BackendSegment {
    /// Every field zero.
    pub open spec fn spec_empty() -> BackendSegment {
        BackendSegment {
            base: 0,
            limit: 0,
            selector: 0,
            type_: 0,
            present: 0,
            dpl: 0,
            db: 0,
            s: 0,
            l: 0,
            g: 0,
            avl: 0,
            unusable: 0,
        }
    }

    /// Every field zero.
    pub fn empty() -> (r: BackendSegment)
        ensures
            r == Self::spec_empty(),
    {
        BackendSegment {
            base: 0,
            limit: 0,
            selector: 0,
            type_: 0,
            present: 0,
            dpl: 0,
            db: 0,
            s: 0,
            l: 0,
            g: 0,
            avl: 0,
            unusable: 0,
        }
    }
}

/// A descriptor table register as the KVM caller set it.
#[derive(Clone, Copy, Debug, PartialEq, Eq, Structural)]
pub struct BackendDtable {
    pub base: u64,
    pub limit: u32,
}

impl BackendDtable {
    /// Every field zero.
    pub open spec fn spec_empty() -> BackendDtable {
        BackendDtable { base: 0, limit: 0 }
    }

    /// Every field zero.
    pub fn empty() -> (r: BackendDtable)
        ensures
            r == Self::spec_empty(),
    {
        BackendDtable { base: 0, limit: 0 }
    }
}

/// One CPUID leaf.
#[derive(Clone, Copy, Debug, PartialEq, Eq, Structural)]
pub struct CpuidEntry {
    pub function: u32,
    pub index: u32,
    pub flags: u32,
    pub eax: u32,
    pub ebx: u32,
    pub ecx: u32,
    pub edx: u32,
}

impl CpuidEntry {
    /// Every field zero.
    pub open spec fn spec_empty() -> CpuidEntry {
        CpuidEntry { function: 0, index: 0, flags: 0, eax: 0, ebx: 0, ecx: 0, edx: 0 }
    }

    /// Every field zero.
    pub fn empty() -> (r: CpuidEntry)
        ensures
            r == Self::spec_empty(),
    {
        CpuidEntry { function: 0, index: 0, flags: 0, eax: 0, ebx: 0, ecx: 0, edx: 0 }
    }
}

/// One model-specific register.
#[derive(Clone, Copy, Debug, PartialEq, Eq, Structural)]
pub struct MsrEntry {
    pub index: u32,
    pub data: u64,
}

impl MsrEntry {
    /// Every field zero.
    pub open spec fn spec_empty() -> MsrEntry {
        MsrEntry { index: 0, data: 0 }
    }

    /// Every field zero.
    pub fn empty() -> (r: MsrEntry)
        ensures
            r == Self::spec_empty(),
    {
        MsrEntry { index: 0, data: 0 }
    }
}

/// A memory-mapped read that waits for its data.
#[derive(Clone, Copy, Debug, PartialEq, Eq, Structural)]
pub struct PendingMmioRead {
    pub active: bool,
    pub reg: usize,
    pub width: AccessWidth,
    pub reg_width: AccessWidth,
    pub signed_ext: bool,
}

impl PendingMmioRead {
    /// Nothing pending.
    pub open spec fn spec_empty() -> PendingMmioRead {
        PendingMmioRead {
            active: false,
            reg: 0,
            width: AccessWidth::Byte,
            reg_width: AccessWidth::Byte,
            signed_ext: false,
        }
    }

    /// Nothing pending.
    pub fn empty() -> (r: PendingMmioRead)
        ensures
            r == Self::spec_empty(),
    {
        PendingMmioRead {
            active: false,
            reg: 0,
            width: AccessWidth::Byte,
            reg_width: AccessWidth::Byte,
            signed_ext: false,
        }
    }
}

/// A port read that waits for its data.
#[derive(Clone, Copy, Debug, PartialEq, Eq, Structural)]
pub struct PendingIoRead {
    pub active: bool,
    pub width: AccessWidth,
}

impl PendingIoRead {
    /// Nothing pending.
    pub open spec fn spec_empty() -> PendingIoRead {
        PendingIoRead { active: false, width: AccessWidth::Byte }
    }

    /// Nothing pending.
    pub fn empty() -> (r: PendingIoRead)
        ensures
            r == Self::spec_empty(),
    {
        PendingIoRead { active: false, width: AccessWidth::Byte }
    }
}

/// The record of one vCPU.
#[derive(Clone, Copy)]
pub struct BackendVcpu {
    pub in_use: bool,
    pub vm_handle: u64,
    pub id: u32,
    pub rip: u64,
    pub rsp: u64,
    pub rflags: u64,
    pub cr0: u64,
    pub cr3: u64,
    pub cr4: u64,
    pub efer: u64,
    pub apic_base: u64,
    pub xcr0: u64,
    pub cpuid_nent: u32,
    pub nmsrs: u32,
    pub tsc_khz: u32,
    pub regs: BackendRegs,
    pub sregs: BackendSregs,
    pub segments: [BackendSegment; NUM_SEGMENTS],
    pub dtables: [BackendDtable; NUM_DTABLES],
    pub cpuid_entries: [CpuidEntry; MAX_CPUID_ENTRIES],
    pub msr_entries: [MsrEntry; MAX_MSR_ENTRIES],
    pub fxsave_valid: bool,
    pub fxsave: X86KvmFxsave,
    pub pending_mmio_read: PendingMmioRead,
    pub pending_io_read: PendingIoRead,
    pub state_dirty: bool,
    pub sipi_started: bool,
}

impl BackendVcpu {
    /// A free record; `xcr0` is the one field that it may keep from an earlier use.
    pub open spec fn spec_cleared(xcr0: u64) -> BackendVcpu {
        BackendVcpu {
            in_use: false,
            vm_handle: 0,
            id: 0,
            rip: 0,
            rsp: 0,
            rflags: 0,
            cr0: 0,
            cr3: 0,
            cr4: 0,
            efer: 0,
            apic_base: 0,
            xcr0,
            cpuid_nent: 0,
            nmsrs: 0,
            tsc_khz: 0,
            regs: BackendRegs::spec_empty(),
            sregs: BackendSregs::spec_empty(),
            segments: [BackendSegment::spec_empty(); NUM_SEGMENTS],
            dtables: [BackendDtable::spec_empty(); NUM_DTABLES],
            cpuid_entries: [CpuidEntry::spec_empty(); MAX_CPUID_ENTRIES],
            msr_entries: [MsrEntry::spec_empty(); MAX_MSR_ENTRIES],
            fxsave_valid: false,
            fxsave: X86KvmFxsave::spec_zeroed(),
            pending_mmio_read: PendingMmioRead::spec_empty(),
            pending_io_read: PendingIoRead::spec_empty(),
            state_dirty: false,
            sipi_started: false,
        }
    }

    /// A record that was never used: `xcr0` has its reset value.
    pub open spec fn spec_empty() -> BackendVcpu {
        Self::spec_cleared(1)
    }

    /// A record that was never used.
    pub fn empty() -> (r: BackendVcpu)
        ensures
            r == Self::spec_empty(),
    {
        BackendVcpu {
            in_use: false,
            vm_handle: 0,
            id: 0,
            rip: 0,
            rsp: 0,
            rflags: 0,
            cr0: 0,
            cr3: 0,
            cr4: 0,
            efer: 0,
            apic_base: 0,
            xcr0: 1,
            cpuid_nent: 0,
            nmsrs: 0,
            tsc_khz: 0,
            regs: BackendRegs::empty(),
            sregs: BackendSregs::empty(),
            segments: [BackendSegment::empty(); NUM_SEGMENTS],
            dtables: [BackendDtable::empty(); NUM_DTABLES],
            cpuid_entries: [CpuidEntry::empty(); MAX_CPUID_ENTRIES],
            msr_entries: [MsrEntry::empty(); MAX_MSR_ENTRIES],
            fxsave_valid: false,
            fxsave: X86KvmFxsave::zeroed(),
            pending_mmio_read: PendingMmioRead::empty(),
            pending_io_read: PendingIoRead::empty(),
            state_dirty: false,
            sipi_started: false,
        }
    }
}

/// The record of one VM. `machine` says whether the monitor holds a machine for it.
#[derive(Clone, Copy)]
pub struct BackendVm {
    pub in_use: bool,
    pub booted: bool,
    pub machine: bool,
    pub vcpu_count: u32,
    pub page_mapping_count: usize,
    pub version: u32,
    pub arch: u32,
    pub irqchip_created: bool,
    pub pit_created: bool,
    pub pit_flags: u32,
    pub tss_addr: u32,
    pub identity_map_addr: u64,
    pub nr_irqchips: u32,
    pub ioapic_redirtbl: [u64; KVM_IOAPIC_NUM_PINS],
    pub ioapic_redirtbl_count: u32,
}

impl BackendVm {
    /// A free record.
    pub open spec fn spec_empty() -> BackendVm {
        BackendVm {
            in_use: false,
            booted: false,
            machine: false,
            vcpu_count: 0,
            page_mapping_count: 0,
            version: 0,
            arch: 0,
            irqchip_created: false,
            pit_created: false,
            pit_flags: 0,
            tss_addr: 0,
            identity_map_addr: 0,
            nr_irqchips: 0,
            ioapic_redirtbl: [0u64; KVM_IOAPIC_NUM_PINS],
            ioapic_redirtbl_count: 0,
        }
    }

    /// A free record.
    pub fn empty() -> (r: BackendVm)
        ensures
            r == Self::spec_empty(),
    {
        BackendVm {
            in_use: false,
            booted: false,
            machine: false,
            vcpu_count: 0,
            page_mapping_count: 0,
            version: 0,
            arch: 0,
            irqchip_created: false,
            pit_created: false,
            pit_flags: 0,
            tss_addr: 0,
            identity_map_addr: 0,
            nr_irqchips: 0,
            ioapic_redirtbl: [0u64; KVM_IOAPIC_NUM_PINS],
            ioapic_redirtbl_count: 0,
        }
    }
}

/// One recorded guest page.
#[derive(Clone, Copy, Debug, PartialEq, Eq, Structural)]
pub struct PageMapping {
    pub in_use: bool,
    pub vm_handle: u64,
    pub gpa: u64,
    pub hpa: u64,
    pub flags: u32,
}

impl PageMapping {
    /// A free record.
    pub open spec fn spec_empty() -> PageMapping {
        PageMapping { in_use: false, vm_handle: 0, gpa: 0, hpa: 0, flags: 0 }
    }

    /// A free record.
    pub fn empty() -> (r: PageMapping)
        ensures
            r == Self::spec_empty(),
    {
        PageMapping { in_use: false, vm_handle: 0, gpa: 0, hpa: 0, flags: 0 }
    }

    /// Whether this record belongs to a VM.
    pub open spec fn of(self, vm_handle: u64) -> bool {
        self.in_use && self.vm_handle == vm_handle
    }
}

/// The tables of the backend.
pub struct Bridge {
    pub vms: Vec<BackendVm>,
    pub vcpus: Vec<BackendVcpu>,
    pub mappings: Vec<PageMapping>,
}

/// The contents of the tables.
#[verifier::ext_equal]
pub struct BridgeView {
    pub vms: Seq<BackendVm>,
    pub vcpus: Seq<BackendVcpu>,
    pub mappings: Seq<PageMapping>,
}

impl View for Bridge {
    type V = BridgeView;

    open spec fn view(&self) -> BridgeView {
        BridgeView { vms: self.vms@, vcpus: self.vcpus@, mappings: self.mappings@ }
    }
}

/// How many records in `s` belong to a VM.
pub open spec fn mapping_count(s: Seq<PageMapping>, vm_handle: u64) -> nat
    decreases s.len(),
{
    if s.len() == 0 {
        0
    } else {
        mapping_count(s.drop_last(), vm_handle) + (if s.last().of(vm_handle) {
            1nat
        } else {
            0
        })
    }
}

impl BridgeView {
    /// The handle names a VM record, in use or not.
    pub open spec fn vm_handle_ok(self, handle: u64) -> bool {
        1 <= handle <= MAX_VMS
    }

    /// The handle names a VM that exists.
    pub open spec fn vm_live(self, handle: u64) -> bool {
        1 <= handle <= MAX_VMS && self.vms[handle - 1].in_use
    }

    /// The handle names a vCPU that exists.
    pub open spec fn vcpu_live(self, handle: u64) -> bool {
        1 <= handle <= MAX_VCPUS && self.vcpus[handle - 1].in_use
    }

    /// The VM record of a handle.
    pub open spec fn vm(self, handle: u64) -> BackendVm {
        self.vms[handle - 1]
    }

    /// The vCPU record of a handle.
    pub open spec fn vcpu(self, handle: u64) -> BackendVcpu {
        self.vcpus[handle - 1]
    }

    /// The tables with one VM record replaced.
    pub open spec fn with_vm(self, handle: u64, vm: BackendVm) -> BridgeView {
        BridgeView { vms: self.vms.update(handle - 1, vm), ..self }
    }

    /// The tables with one vCPU record replaced, by its position.
    pub open spec fn with_vcpu_at(self, index: int, vcpu: BackendVcpu) -> BridgeView {
        BridgeView { vcpus: self.vcpus.update(index, vcpu), ..self }
    }

    /// The tables with one vCPU record replaced.
    pub open spec fn with_vcpu(self, handle: u64, vcpu: BackendVcpu) -> BridgeView {
        self.with_vcpu_at(handle - 1, vcpu)
    }

    /// The tables with one mapping record replaced, by its position.
    pub open spec fn with_mapping_at(self, index: int, mapping: PageMapping) -> BridgeView {
        BridgeView { mappings: self.mappings.update(index, mapping), ..self }
    }

    /// The tables have their fixed sizes.
    pub open spec fn shaped(self) -> bool {
        &&& self.vms.len() == MAX_VMS
        &&& self.vcpus.len() == MAX_VCPUS
        &&& self.mappings.len() == MAX_PAGE_MAPPINGS
    }

    /// A VM has a machine exactly when it is booted.
    pub open spec fn vms_ok(self) -> bool {
        forall|i: int| 0 <= i < self.vms.len() ==> (#[trigger] self.vms[i]).booted == self.vms[i].machine
    }

    /// A vCPU that exists names a VM record, and its id leaves room for the count.
    pub open spec fn vcpus_ok(self) -> bool {
        forall|i: int|
            0 <= i < self.vcpus.len() && (#[trigger] self.vcpus[i]).in_use ==> {
                &&& 1 <= self.vcpus[i].vm_handle <= MAX_VMS
                &&& self.vcpus[i].id < u32::MAX
            }
    }

    /// A recorded page belongs to a VM that exists.
    pub open spec fn mappings_owned(self) -> bool {
        forall|i: int|
            0 <= i < self.mappings.len() && (#[trigger] self.mappings[i]).in_use ==> self.vm_live(
                self.mappings[i].vm_handle,
            )
    }

    /// A guest page of a VM is recorded at most once.
    pub open spec fn mappings_unique(self) -> bool {
        forall|i: int, j: int|
            0 <= i < self.mappings.len() && 0 <= j < self.mappings.len() && i != j && (
            #[trigger] self.mappings[i]).in_use && (#[trigger] self.mappings[j]).in_use && self.mappings[i].vm_handle
                == self.mappings[j].vm_handle ==> self.mappings[i].gpa != self.mappings[j].gpa
    }

    /// Every VM record counts its recorded pages.
    pub open spec fn mappings_counted(self) -> bool {
        forall|h: u64|
            1 <= h <= MAX_VMS ==> (#[trigger] self.vm(h)).page_mapping_count == mapping_count(self.mappings, h)
    }

    /// What holds of the tables between calls.
    pub open spec fn inv(self) -> bool {
        &&& self.shaped()
        &&& self.vms_ok()
        &&& self.vcpus_ok()
        &&& self.mappings_owned()
        &&& self.mappings_unique()
        &&& self.mappings_counted()
    }
}

impl Bridge {
    /// The tables satisfy what every call keeps.
    pub open spec fn wf(&self) -> bool {
        self@.inv()
    }

    /// Tables with nothing in them.
    pub fn new() -> (b: Bridge)
        ensures
            b.wf(),
            b@.vms == Seq::new(MAX_VMS as nat, |i: int| BackendVm::spec_empty()),
            b@.vcpus == Seq::new(MAX_VCPUS as nat, |i: int| BackendVcpu::spec_empty()),
            b@.mappings == Seq::new(MAX_PAGE_MAPPINGS as nat, |i: int| PageMapping::spec_empty()),
    {
        let mut vms: Vec<BackendVm> = Vec::new();
        let mut i: usize = 0;
        while i < MAX_VMS
            invariant
                i <= MAX_VMS,
                vms@ == Seq::new(i as nat, |j: int| BackendVm::spec_empty()),
            decreases MAX_VMS - i,
        {
            vms.push(BackendVm::empty());
            i += 1;
        }
        let mut vcpus: Vec<BackendVcpu> = Vec::new();
        i = 0;
        while i < MAX_VCPUS
            invariant
                i <= MAX_VCPUS,
                vcpus@ == Seq::new(i as nat, |j: int| BackendVcpu::spec_empty()),
            decreases MAX_VCPUS - i,
        {
            vcpus.push(BackendVcpu::empty());
            i += 1;
        }
        let mut mappings: Vec<PageMapping> = Vec::new();
        i = 0;
        while i < MAX_PAGE_MAPPINGS
            invariant
                i <= MAX_PAGE_MAPPINGS,
                mappings@ == Seq::new(i as nat, |j: int| PageMapping::spec_empty()),
            decreases MAX_PAGE_MAPPINGS - i,
        {
            mappings.push(PageMapping::empty());
            i += 1;
        }
        proof {
            assert forall|h: u64| mapping_count(mappings@, h) == 0 by {
                lemma_no_mapping_counts_zero(mappings@, h);
            }
        }
        Bridge { vms, vcpus, mappings }
    }
}

/// A sequence without records of a VM counts none.
pub(crate) proof fn lemma_no_mapping_counts_zero(s: Seq<PageMapping>, h: u64)
    requires
        forall|i: int| 0 <= i < s.len() ==> !(#[trigger] s[i]).of(h),
    ensures
        mapping_count(s, h) == 0,
    decreases s.len(),
{
    if s.len() > 0 {
        assert forall|i: int| 0 <= i < s.drop_last().len() implies !(#[trigger] s.drop_last()[i]).of(h) by {
            assert(s[i] == s.drop_last()[i]);
        }
        assert(!s[s.len() - 1].of(h));
        lemma_no_mapping_counts_zero(s.drop_last(), h);
    }
}

/// Replacing one record changes the count by that record alone.
pub(crate) proof fn lemma_mapping_count_update(s: Seq<PageMapping>, i: int, m: PageMapping, h: u64)
    requires
        0 <= i < s.len(),
    ensures
        mapping_count(s.update(i, m), h) == mapping_count(s, h) - (if s[i].of(h) {
            1int
        } else {
            0
        }) + (if m.of(h) {
            1int
        } else {
            0
        }),
    decreases s.len(),
{
    let t = s.update(i, m);
    if i == s.len() - 1 {
        assert(t.drop_last() =~= s.drop_last());
    } else {
        assert(t.drop_last() =~= s.drop_last().update(i, m));
        assert(t.last() == s.last());
        assert(s.drop_last()[i] == s[i]);
        lemma_mapping_count_update(s.drop_last(), i, m, h);
    }
}

/// No more records are counted than there are.
pub(crate) proof fn lemma_mapping_count_bounded(s: Seq<PageMapping>, h: u64)
    ensures
        mapping_count(s, h) <= s.len(),
    decreases s.len(),
{
    if s.len() > 0 {
        lemma_mapping_count_bounded(s.drop_last(), h);
    }
}

/// The position of the VM record that a handle names.
pub fn vm_index_from_handle(handle: u64) -> (r: Result<usize, i32>)
    ensures
        1 <= handle <= MAX_VMS ==> r == Ok::<usize, i32>((handle - 1) as usize),
        !(1 <= handle <= MAX_VMS) ==> r == Err::<usize, i32>((-EINVAL) as i32),
{
    if handle == 0 || handle > MAX_VMS as u64 {
        return Err(-EINVAL);
    }
    Ok(handle as usize - 1)
}

/// The position of the vCPU record that a handle names.
pub fn vcpu_index_from_handle(handle: u64) -> (r: Result<usize, i32>)
    ensures
        1 <= handle <= MAX_VCPUS ==> r == Ok::<usize, i32>((handle - 1) as usize),
        !(1 <= handle <= MAX_VCPUS) ==> r == Err::<usize, i32>((-EINVAL) as i32),
{
    if handle == 0 || handle > MAX_VCPUS as u64 {
        return Err(-EINVAL);
    }
    Ok(handle as usize - 1)
}

} // verus!
