//! The state that the machine takes over from a vCPU record.
use vstd::prelude::*;

use crate::snapshot::{build_kvm_vcpu_state_box, convert_dtable, convert_segment, X86KvmDtable, X86KvmSegment, X86KvmVcpuState};
use crate::state::{BackendDtable, BackendSegment, BackendVcpu};

verus! {

/// A field that was narrowed: the value itself where it fits, else what is left of
/// it below the field's range.
pub open spec fn narrowed(wide: u32, range: int, narrow: int) -> bool {
    &&& wide < range ==> narrow == wide
    &&& 0 <= narrow < range
    &&& (wide - narrow) % range == 0
}

/// A segment that the machine holds for one that was set: base and limit in full,
/// the selector, type and privilege level narrowed, and every attribute set exactly
/// where its number is not zero.
pub open spec fn same_segment(was: BackendSegment, now: X86KvmSegment) -> bool {
    &&& now.base == was.base
    &&& now.limit == was.limit
    &&& narrowed(was.selector, 0x1_0000, now.selector as int)
    &&& narrowed(was.type_, 0x100, now.type_ as int)
    &&& narrowed(was.dpl, 0x100, now.dpl as int)
    &&& now.present <==> was.present > 0
    &&& now.db <==> was.db > 0
    &&& now.s <==> was.s > 0
    &&& now.l <==> was.l > 0
    &&& now.g <==> was.g > 0
    &&& now.avl <==> was.avl > 0
    &&& now.unusable <==> was.unusable > 0
}

/// A descriptor table that the machine holds for one that was set.
pub open spec fn same_dtable(was: BackendDtable, now: X86KvmDtable) -> bool {
    &&& now.base == was.base
    &&& narrowed(was.limit, 0x1_0000, now.limit as int)
}

/// The machine's segment keeps the base and the full limit of the segment that was
/// set; only the selector, the type and the privilege level are narrowed, and a
/// value that fits is unchanged.
pub proof fn segment_keeps_base_and_limit(segment: BackendSegment, r: X86KvmSegment)
    requires
        call_ensures(convert_segment, (segment,), r),
    ensures
        same_segment(segment, r),
{
}

/// The machine's descriptor table keeps its base, and a limit of sixteen bits.
pub proof fn dtable_keeps_base_and_limit(dtable: BackendDtable, r: X86KvmDtable)
    requires
        call_ensures(convert_dtable, (dtable,), r),
    ensures
        same_dtable(dtable, r),
{
}

/// Each register of the machine is that of the record under the same name.
pub proof fn machine_takes_each_register(vcpu: &BackendVcpu, state: Box<X86KvmVcpuState>)
    requires
        call_ensures(build_kvm_vcpu_state_box, (vcpu,), state),
    ensures
        state.regs.rax == vcpu.regs.rax && state.regs.rbx == vcpu.regs.rbx,
        state.regs.rcx == vcpu.regs.rcx && state.regs.rdx == vcpu.regs.rdx,
        state.regs.rsi == vcpu.regs.rsi && state.regs.rdi == vcpu.regs.rdi,
        state.regs.rbp == vcpu.regs.rbp && state.rsp == vcpu.regs.rsp,
        state.regs.r8 == vcpu.regs.r8 && state.regs.r9 == vcpu.regs.r9,
        state.regs.r10 == vcpu.regs.r10 && state.regs.r11 == vcpu.regs.r11,
        state.regs.r12 == vcpu.regs.r12 && state.regs.r13 == vcpu.regs.r13,
        state.regs.r14 == vcpu.regs.r14 && state.regs.r15 == vcpu.regs.r15,
        state.rip == vcpu.regs.rip && state.rflags == vcpu.regs.rflags,
        state.cr0 == vcpu.sregs.cr0 && state.cr2 == vcpu.sregs.cr2,
        state.cr3 == vcpu.sregs.cr3 && state.cr4 == vcpu.sregs.cr4,
        state.cr8 == vcpu.sregs.cr8 && state.efer == vcpu.sregs.efer,
        state.apic_base == vcpu.sregs.apic_base && state.xcr0 == vcpu.xcr0,
        state.fxsave_valid == vcpu.fxsave_valid,
        state.fxsave.bytes@ == vcpu.fxsave.bytes@,
{
}

/// Every segment and every descriptor table of the machine is that of the record at
/// the same position.
pub proof fn machine_takes_each_segment(vcpu: &BackendVcpu, state: Box<X86KvmVcpuState>, i: int)
    requires
        call_ensures(build_kvm_vcpu_state_box, (vcpu,), state),
    ensures
        0 <= i < 8 ==> same_segment(vcpu.segments@[i], state.segments@[i]),
        0 <= i < 2 ==> same_dtable(vcpu.dtables@[i], state.dtables@[i]),
{
    if 0 <= i < 8 {
        let s = state.segments@[i];
    }
    if 0 <= i < 2 {
        let d = state.dtables@[i];
    }
}

/// The machine takes the CPUID and MSR entries that the record counts, in place, up
/// to the room it has, and no entry beyond them.
pub proof fn machine_takes_the_counted_entries(vcpu: &BackendVcpu, state: Box<X86KvmVcpuState>, i: int)
    requires
        call_ensures(build_kvm_vcpu_state_box, (vcpu,), state),
        0 <= i < 256,
    ensures
        state.cpuid_nent <= 256 && state.nmsrs <= 256,
        vcpu.cpuid_nent <= 256 ==> state.cpuid_nent == vcpu.cpuid_nent,
        vcpu.cpuid_nent > 256 ==> state.cpuid_nent == 256,
        vcpu.nmsrs <= 256 ==> state.nmsrs == vcpu.nmsrs,
        vcpu.nmsrs > 256 ==> state.nmsrs == 256,
        i < vcpu.cpuid_nent ==> state.cpuid_entries@[i] == vcpu.cpuid_entries@[i],
        i < vcpu.nmsrs ==> state.msr_entries@[i] == vcpu.msr_entries@[i],
        i >= vcpu.cpuid_nent ==> {
            let c = state.cpuid_entries@[i];
            c.function == 0 && c.index == 0 && c.flags == 0 && c.eax == 0 && c.ebx == 0 && c.ecx == 0 && c.edx == 0
        },
        i >= vcpu.nmsrs ==> state.msr_entries@[i].index == 0 && state.msr_entries@[i].data == 0,
{
    let c = state.cpuid_entries@[i];
    let m = state.msr_entries@[i];
}

} // verus!
