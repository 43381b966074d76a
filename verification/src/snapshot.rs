//! The architectural state that the machine takes over from a vCPU record.
use vstd::prelude::*;

use crate::bytes::X86KvmFxsave;
use crate::state::{
    BackendDtable, BackendSegment, BackendVcpu, CpuidEntry, MsrEntry, MAX_CPUID_ENTRIES, MAX_MSR_ENTRIES, NUM_DTABLES,
    NUM_SEGMENTS,
};

verus! {

/// Most CPUID entries that the machine takes.
pub const X86_KVM_MAX_CPUID_ENTRIES: usize = 256;

/// Most MSR entries that the machine takes.
pub const X86_KVM_MAX_MSR_ENTRIES: usize = 256;

/// The general registers of the machine, without the stack pointer.
#[derive(Clone, Copy, Debug, PartialEq, Eq, Structural)]
pub struct GeneralRegisters {
    pub rax: u64,
    pub rbx: u64,
    pub rcx: u64,
    pub rdx: u64,
    pub rsi: u64,
    pub rdi: u64,
    pub rbp: u64,
    pub r8: u64,
    pub r9: u64,
    pub r10: u64,
    pub r11: u64,
    pub r12: u64,
    pub r13: u64,
    pub r14: u64,
    pub r15: u64,
}

/// A segment register of the machine.
#[derive(Clone, Copy, Debug, PartialEq, Eq, Structural)]
pub struct X86KvmSegment {
    pub base: u64,
    pub limit: u32,
    pub selector: u16,
    pub type_: u8,
    pub present: bool,
    pub dpl: u8,
    pub db: bool,
    pub s: bool,
    pub l: bool,
    pub g: bool,
    pub avl: bool,
    pub unusable: bool,
}

/// A descriptor table register of the machine.
#[derive(Clone, Copy, Debug, PartialEq, Eq, Structural)]
pub struct X86KvmDtable {
    pub base: u64,
    pub limit: u16,
}

/// The state that the machine takes over.
#[derive(Clone, Copy)]
pub struct X86KvmVcpuState {
    pub regs: GeneralRegisters,
    pub rip: u64,
    pub rsp: u64,
    pub rflags: u64,
    pub cr0: u64,
    pub cr2: u64,
    pub cr3: u64,
    pub cr4: u64,
    pub cr8: u64,
    pub efer: u64,
    pub apic_base: u64,
    pub xcr0: u64,
    pub fxsave_valid: bool,
    pub fxsave: X86KvmFxsave,
    pub segments: [X86KvmSegment; NUM_SEGMENTS],
    pub dtables: [X86KvmDtable; NUM_DTABLES],
    pub cpuid_entries: [CpuidEntry; X86_KVM_MAX_CPUID_ENTRIES],
    pub cpuid_nent: usize,
    pub msr_entries: [MsrEntry; X86_KVM_MAX_MSR_ENTRIES],
    pub nmsrs: usize,
}

/// A segment register as the machine holds it: the selector, type and privilege
/// level cut to their widths, every other attribute a flag.
pub open spec fn machine_segment(s: BackendSegment) -> X86KvmSegment {
    X86KvmSegment {
        base: s.base,
        limit: s.limit,
        selector: (s.selector % 0x1_0000) as u16,
        type_: (s.type_ % 0x100) as u8,
        present: s.present != 0,
        dpl: (s.dpl % 0x100) as u8,
        db: s.db != 0,
        s: s.s != 0,
        l: s.l != 0,
        g: s.g != 0,
        avl: s.avl != 0,
        unusable: s.unusable != 0,
    }
}

/// A descriptor table register as the machine holds it.
pub open spec fn machine_dtable(d: BackendDtable) -> X86KvmDtable {
    X86KvmDtable { base: d.base, limit: (d.limit % 0x1_0000) as u16 }
}

/// A segment register as the machine holds it.
pub fn convert_segment(segment: BackendSegment) -> (r: X86KvmSegment)
    ensures
        r == machine_segment(segment),
{
    X86KvmSegment {
        base: segment.base,
        limit: segment.limit,
        selector: (segment.selector % 0x1_0000) as u16,
        type_: (segment.type_ % 0x100) as u8,
        present: segment.present != 0,
        dpl: (segment.dpl % 0x100) as u8,
        db: segment.db != 0,
        s: segment.s != 0,
        l: segment.l != 0,
        g: segment.g != 0,
        avl: segment.avl != 0,
        unusable: segment.unusable != 0,
    }
}

/// A descriptor table register as the machine holds it.
pub fn convert_dtable(dtable: BackendDtable) -> (r: X86KvmDtable)
    ensures
        r == machine_dtable(dtable),
{
    X86KvmDtable { base: dtable.base, limit: (dtable.limit % 0x1_0000) as u16 }
}

/// At most as many entries as the machine takes.
pub open spec fn capped(n: u32, most: usize) -> usize {
    if n < most {
        n as usize
    } else {
        most
    }
}

/// The state that the machine takes over from a vCPU record: the registers that
/// the KVM caller set, the segments and tables converted, and the CPUID and MSR
/// entries that count, with empty ones after them.
pub open spec fn state_of(v: BackendVcpu, s: X86KvmVcpuState) -> bool {
    &&& s.regs == (GeneralRegisters {
        rax: v.regs.rax,
        rbx: v.regs.rbx,
        rcx: v.regs.rcx,
        rdx: v.regs.rdx,
        rsi: v.regs.rsi,
        rdi: v.regs.rdi,
        rbp: v.regs.rbp,
        r8: v.regs.r8,
        r9: v.regs.r9,
        r10: v.regs.r10,
        r11: v.regs.r11,
        r12: v.regs.r12,
        r13: v.regs.r13,
        r14: v.regs.r14,
        r15: v.regs.r15,
    })
    &&& s.rip == v.regs.rip
    &&& s.rsp == v.regs.rsp
    &&& s.rflags == v.regs.rflags
    &&& s.cr0 == v.sregs.cr0
    &&& s.cr2 == v.sregs.cr2
    &&& s.cr3 == v.sregs.cr3
    &&& s.cr4 == v.sregs.cr4
    &&& s.cr8 == v.sregs.cr8
    &&& s.efer == v.sregs.efer
    &&& s.apic_base == v.sregs.apic_base
    &&& s.xcr0 == v.xcr0
    &&& s.fxsave_valid == v.fxsave_valid
    &&& s.fxsave == v.fxsave
    &&& s.segments@ == Seq::new(NUM_SEGMENTS as nat, |i: int| machine_segment(v.segments@[i]))
    &&& s.dtables@ == Seq::new(NUM_DTABLES as nat, |i: int| machine_dtable(v.dtables@[i]))
    &&& s.cpuid_nent == capped(v.cpuid_nent, X86_KVM_MAX_CPUID_ENTRIES)
    &&& s.cpuid_entries@ == Seq::new(
        X86_KVM_MAX_CPUID_ENTRIES as nat,
        |i: int|
            if i < s.cpuid_nent {
                v.cpuid_entries@[i]
            } else {
                CpuidEntry::spec_empty()
            },
    )
    &&& s.nmsrs == capped(v.nmsrs, X86_KVM_MAX_MSR_ENTRIES)
    &&& s.msr_entries@ == Seq::new(
        X86_KVM_MAX_MSR_ENTRIES as nat,
        |i: int|
            if i < s.nmsrs {
                v.msr_entries@[i]
            } else {
                MsrEntry::spec_empty()
            },
    )
}

/// The state that the machine takes over from a vCPU record.
pub fn build_kvm_vcpu_state_box(vcpu: &BackendVcpu) -> (state: Box<X86KvmVcpuState>)
    ensures
        state_of(*vcpu, *state),
{
    let cpuid_nent: usize = if (vcpu.cpuid_nent as usize) < X86_KVM_MAX_CPUID_ENTRIES {
        vcpu.cpuid_nent as usize
    } else {
        X86_KVM_MAX_CPUID_ENTRIES
    };
    let nmsrs: usize = if (vcpu.nmsrs as usize) < X86_KVM_MAX_MSR_ENTRIES {
        vcpu.nmsrs as usize
    } else {
        X86_KVM_MAX_MSR_ENTRIES
    };
    let mut segments: [X86KvmSegment; NUM_SEGMENTS] = [convert_segment(vcpu.segments[0]); NUM_SEGMENTS];
    let mut i: usize = 0;
    while i < NUM_SEGMENTS
        invariant
            i <= NUM_SEGMENTS,
            forall|j: int| 0 <= j < i ==> #[trigger] segments@[j] == machine_segment(vcpu.segments@[j]),
        decreases NUM_SEGMENTS - i,
    {
        segments[i] = convert_segment(vcpu.segments[i]);
        i += 1;
    }
    let mut dtables: [X86KvmDtable; NUM_DTABLES] = [convert_dtable(vcpu.dtables[0]); NUM_DTABLES];
    i = 0;
    while i < NUM_DTABLES
        invariant
            i <= NUM_DTABLES,
            forall|j: int| 0 <= j < i ==> #[trigger] dtables@[j] == machine_dtable(vcpu.dtables@[j]),
        decreases NUM_DTABLES - i,
    {
        dtables[i] = convert_dtable(vcpu.dtables[i]);
        i += 1;
    }
    let mut cpuid_entries: [CpuidEntry; X86_KVM_MAX_CPUID_ENTRIES] = [CpuidEntry::empty(); X86_KVM_MAX_CPUID_ENTRIES];
    i = 0;
    while i < cpuid_nent
        invariant
            i <= cpuid_nent <= MAX_CPUID_ENTRIES,
            forall|j: int|
                0 <= j < X86_KVM_MAX_CPUID_ENTRIES ==> #[trigger] cpuid_entries@[j] == (if j < i {
                    vcpu.cpuid_entries@[j]
                } else {
                    CpuidEntry::spec_empty()
                }),
        decreases cpuid_nent - i,
    {
        cpuid_entries[i] = vcpu.cpuid_entries[i];
        i += 1;
    }
    let mut msr_entries: [MsrEntry; X86_KVM_MAX_MSR_ENTRIES] = [MsrEntry::empty(); X86_KVM_MAX_MSR_ENTRIES];
    i = 0;
    while i < nmsrs
        invariant
            i <= nmsrs <= MAX_MSR_ENTRIES,
            forall|j: int|
                0 <= j < X86_KVM_MAX_MSR_ENTRIES ==> #[trigger] msr_entries@[j] == (if j < i {
                    vcpu.msr_entries@[j]
                } else {
                    MsrEntry::spec_empty()
                }),
        decreases nmsrs - i,
    {
        msr_entries[i] = vcpu.msr_entries[i];
        i += 1;
    }
    let state = X86KvmVcpuState {
        regs: GeneralRegisters {
            rax: vcpu.regs.rax,
            rbx: vcpu.regs.rbx,
            rcx: vcpu.regs.rcx,
            rdx: vcpu.regs.rdx,
            rsi: vcpu.regs.rsi,
            rdi: vcpu.regs.rdi,
            rbp: vcpu.regs.rbp,
            r8: vcpu.regs.r8,
            r9: vcpu.regs.r9,
            r10: vcpu.regs.r10,
            r11: vcpu.regs.r11,
            r12: vcpu.regs.r12,
            r13: vcpu.regs.r13,
            r14: vcpu.regs.r14,
            r15: vcpu.regs.r15,
        },
        rip: vcpu.regs.rip,
        rsp: vcpu.regs.rsp,
        rflags: vcpu.regs.rflags,
        cr0: vcpu.sregs.cr0,
        cr2: vcpu.sregs.cr2,
        cr3: vcpu.sregs.cr3,
        cr4: vcpu.sregs.cr4,
        cr8: vcpu.sregs.cr8,
        efer: vcpu.sregs.efer,
        apic_base: vcpu.sregs.apic_base,
        xcr0: vcpu.xcr0,
        fxsave_valid: vcpu.fxsave_valid,
        fxsave: vcpu.fxsave,
        segments,
        dtables,
        cpuid_entries,
        cpuid_nent,
        msr_entries,
        nmsrs,
    };
    proof {
        assert(state.segments@ =~= Seq::new(NUM_SEGMENTS as nat, |k: int| machine_segment(vcpu.segments@[k])));
        assert(state.dtables@ =~= Seq::new(NUM_DTABLES as nat, |k: int| machine_dtable(vcpu.dtables@[k])));
        assert(state.cpuid_entries@ =~= Seq::new(
            X86_KVM_MAX_CPUID_ENTRIES as nat,
            |k: int|
                if k < state.cpuid_nent {
                    vcpu.cpuid_entries@[k]
                } else {
                    CpuidEntry::spec_empty()
                },
        ));
        assert(state.msr_entries@ =~= Seq::new(
            X86_KVM_MAX_MSR_ENTRIES as nat,
            |k: int|
                if k < state.nmsrs {
                    vcpu.msr_entries@[k]
                } else {
                    MsrEntry::spec_empty()
                },
        ));
    }
    Box::new(state)
}

} // verus!
