//! Records and tables before anything is set.
use vstd::prelude::*;

use crate::access::AccessWidth;
use crate::bytes::X86KvmFxsave;
use crate::context::RunContext;
use crate::emerg::EmergBuffer;
use crate::env::{axvisor_kvm_rs_backend_init, Backend};
use crate::handle_backend::{BackendVcpuState, BackendVmState};
use crate::inkernel::vcpu_runnable;
use crate::irq::IrqLine;
use crate::laws::vcpu::is_clear;
use crate::percpu::{leave_percpu, PercpuTable};
use crate::soft_ple::SoftPle;
use crate::state::{
    BackendDtable, BackendRegs, BackendSegment, BackendSregs, BackendVcpu, BackendVm, Bridge, CpuidEntry, MsrEntry,
    PageMapping, PendingIoRead, PendingMmioRead,
};
use crate::tasks::TaskRegistry;
use crate::timers::{KvmTimerEntry, VcpuTimerTable};
use crate::wait_queue::LinuxSyncAdapter;

verus! {

/// A VM record that is free, with nothing set.
pub open spec fn is_free_vm(vm: BackendVm) -> bool {
    &&& !vm.in_use && !vm.booted && !vm.machine && !vm.irqchip_created && !vm.pit_created
    &&& vm.vcpu_count == 0 && vm.page_mapping_count == 0 && vm.version == 0 && vm.arch == 0 && vm.pit_flags == 0
    &&& vm.tss_addr == 0 && vm.identity_map_addr == 0 && vm.nr_irqchips == 0 && vm.ioapic_redirtbl_count == 0
    &&& forall|i: int| 0 <= i < 24 ==> #[trigger] vm.ioapic_redirtbl@[i] == 0
}

/// A page record that is free.
pub open spec fn is_free_page(m: PageMapping) -> bool {
    !m.in_use && m.vm_handle == 0 && m.gpa == 0 && m.hpa == 0 && m.flags == 0
}

/// A vCPU record that was never used.
pub open spec fn is_free_vcpu(v: BackendVcpu) -> bool {
    !v.in_use && is_clear(v) && v.xcr0 == 1
}

/// Tables of 16 VMs, 64 vCPUs and 262144 pages are all free at first; no task has a context, no
/// CPU is set up and no vCPU is seen spinning.
pub proof fn all_records_are_free_at_first(b: Backend, bridge: Bridge, i: int)
    requires
        call_ensures(Backend::new, (), b),
        call_ensures(Bridge::new, (), bridge),
    ensures
        b.bridge.vms@.len() == 16 && b.bridge.vcpus@.len() == 64 && b.bridge.mappings@.len() == 262_144,
        0 <= i < 16 ==> is_free_vm(b.bridge.vms@[i]),
        0 <= i < 64 ==> is_free_vcpu(b.bridge.vcpus@[i]),
        0 <= i < 262_144 ==> is_free_page(b.bridge.mappings@[i]),
        bridge.vms@.len() == 16 && bridge.vcpus@.len() == 64 && bridge.mappings@.len() == 262_144,
        0 <= i < 16 ==> is_free_vm(bridge.vms@[i]),
        0 <= i < 64 ==> is_free_vcpu(bridge.vcpus@[i]),
        0 <= i < 262_144 ==> is_free_page(bridge.mappings@[i]),
        b@.contexts.slots.len() == 128 && b@.contexts.fallback_vm_id == 0 && b@.contexts.fallback_vcpu_id == 0,
        0 <= i < 128 ==> b@.contexts.slots[i].task_id == 0,
        b@.percpu.len() == 256,
        0 <= i < 256 ==> !b@.percpu[i],
        b@.soft_ple.len() == 64,
        0 <= i < 64 ==> b@.soft_ple[i].streak == 0 && b@.soft_ple[i].last_rip == u64::MAX && b@.soft_ple[i].last_rip2
            == u64::MAX,
{
    assert(b.bridge@ == b@.bridge);
    assert(b.bridge@.vms == b.bridge.vms@ && b.bridge@.vcpus == b.bridge.vcpus@);
    assert(b.bridge@.mappings == b.bridge.mappings@);
    assert(bridge@.vms == bridge.vms@ && bridge@.vcpus == bridge.vcpus@ && bridge@.mappings == bridge.mappings@);
}

/// New tables of other kinds are empty too.
pub proof fn new_tables_are_empty(
    percpu: PercpuTable,
    spins: SoftPle,
    log: EmergBuffer,
    tasks: TaskRegistry,
    queues: LinuxSyncAdapter,
    i: int,
)
    requires
        call_ensures(PercpuTable::new, (), percpu),
        call_ensures(SoftPle::new, (), spins),
        call_ensures(EmergBuffer::new, (), log),
        call_ensures(TaskRegistry::new, (), tasks),
        call_ensures(LinuxSyncAdapter::new, (), queues),
    ensures
        percpu@.len() == 256 && (0 <= i < 256 ==> !percpu@[i]),
        spins@.len() == 64 && (0 <= i < 64 ==> spins@[i].streak == 0 && spins@[i].last_rip == u64::MAX
            && spins@[i].last_rip2 == u64::MAX),
        log.line@.len() == 0,
        tasks.entries@.len() == 0,
        queues.entries@.len() == 0 && queues.next_id == 1,
{
    assert(log.line@ == log@ && tasks.entries@ == tasks@);
    assert(queues.entries@.len() == queues@.entries.len() && queues.next_id == queues@.next_id);
}

/// A vCPU that nothing was set of has zeros in every register.
pub proof fn empty_registers_are_zero(
    regs: BackendRegs,
    sregs: BackendSregs,
    seg: BackendSegment,
    table: BackendDtable,
    leaf: CpuidEntry,
    msr: MsrEntry,
    fpu: X86KvmFxsave,
    i: int,
)
    requires
        call_ensures(BackendRegs::empty, (), regs),
        call_ensures(BackendSregs::empty, (), sregs),
        call_ensures(BackendSegment::empty, (), seg),
        call_ensures(BackendDtable::empty, (), table),
        call_ensures(CpuidEntry::empty, (), leaf),
        call_ensures(MsrEntry::empty, (), msr),
        call_ensures(X86KvmFxsave::zeroed, (), fpu),
        0 <= i < 512,
    ensures
        regs.rax == 0 && regs.rbx == 0 && regs.rcx == 0 && regs.rdx == 0 && regs.rsi == 0 && regs.rdi == 0,
        regs.rsp == 0 && regs.rbp == 0 && regs.r8 == 0 && regs.r9 == 0 && regs.r10 == 0 && regs.r11 == 0,
        regs.r12 == 0 && regs.r13 == 0 && regs.r14 == 0 && regs.r15 == 0 && regs.rip == 0 && regs.rflags == 0,
        sregs.cr0 == 0 && sregs.cr2 == 0 && sregs.cr3 == 0 && sregs.cr4 == 0 && sregs.cr8 == 0,
        sregs.efer == 0 && sregs.apic_base == 0,
        seg.base == 0 && seg.limit == 0 && seg.selector == 0 && seg.type_ == 0 && seg.present == 0 && seg.dpl == 0,
        seg.db == 0 && seg.s == 0 && seg.l == 0 && seg.g == 0 && seg.avl == 0 && seg.unusable == 0,
        table.base == 0 && table.limit == 0,
        leaf.function == 0 && leaf.index == 0 && leaf.flags == 0 && leaf.eax == 0 && leaf.ebx == 0,
        leaf.ecx == 0 && leaf.edx == 0,
        msr.index == 0 && msr.data == 0,
        fpu.bytes@.len() == 512 && fpu.bytes@[i] == 0,
{
}

/// An empty record is free, and no read waits in it.
pub proof fn empty_records_are_free(
    vcpu: BackendVcpu,
    vm: BackendVm,
    page: PageMapping,
    mmio: PendingMmioRead,
    io: PendingIoRead,
    context: RunContext,
    vm_state: BackendVmState,
    state: BackendVcpuState,
)
    requires
        call_ensures(BackendVcpu::empty, (), vcpu),
        call_ensures(BackendVm::empty, (), vm),
        call_ensures(PageMapping::empty, (), page),
        call_ensures(PendingMmioRead::empty, (), mmio),
        call_ensures(PendingIoRead::empty, (), io),
        call_ensures(RunContext::empty, (), context),
        call_ensures(BackendVmState::empty, (), vm_state),
        call_ensures(BackendVcpuState::empty, (), state),
    ensures
        is_free_vcpu(vcpu),
        is_free_vm(vm),
        is_free_page(page),
        !mmio.active && mmio.reg == 0 && mmio.width == AccessWidth::Byte && mmio.reg_width == AccessWidth::Byte
            && !mmio.signed_ext,
        !io.active && io.width == AccessWidth::Byte,
        context.task_id == 0 && context.vm_id == 0 && context.vcpu_id == 0,
        vm_state.version == 0 && vm_state.arch == 0 && !vm_state.irqchip_created && !vm_state.pit_created,
        vm_state.pit_flags == 0 && vm_state.tss_addr == 0 && vm_state.identity_map_addr == 0 && vm_state.nr_irqchips
            == 0,
        state.version == 0 && state.arch == 0 && state.rip == 0 && state.rsp == 0 && state.rflags == 0,
        state.cr0 == 0 && state.cr3 == 0 && state.cr4 == 0 && state.efer == 0 && state.apic_base == 0,
        state.cpuid_nent == 0 && state.nmsrs == 0 && state.tsc_khz == 0,
{
}

/// A timer slot is free at first, and each table has 64.
pub proof fn empty_slots_hold_no_timer<C>(entry: KvmTimerEntry<C>, table: VcpuTimerTable<C>, i: int)
    requires
        call_ensures(KvmTimerEntry::<C>::empty, (), entry),
        call_ensures(VcpuTimerTable::<C>::empty, (), table),
        0 <= i < 64,
    ensures
        !entry.in_use && entry.token == 0 && entry.vm_id == 0 && entry.deadline == 0 && entry.callback is None,
        table.entries@.len() == 64 && !table.entries@[i].in_use && table.entries@[i].callback is None,
{
}

/// A vCPU is to run if it exists, its VM exists, and that was booted; devices have the lines
/// of a PC; bringing the backend up and leaving a CPU succeed.
pub proof fn vcpu_runs_in_a_booted_vm(bridge: &Bridge, slot: usize, r: bool, line: IrqLine, irq: u8, up: i32, left: i32)
    requires
        bridge.wf(),
        slot < 64,
        call_ensures(vcpu_runnable, (bridge, slot), r),
        call_ensures(IrqLine::irq, (line,), irq),
        call_ensures(axvisor_kvm_rs_backend_init, (), up),
        call_ensures(leave_percpu, (), left),
    ensures
        ({
            let v = bridge.vcpus@[slot as int];
            r <==> v.in_use && 1 <= v.vm_handle <= 16 && bridge.vms@[v.vm_handle - 1].in_use && bridge.vms@[v.vm_handle
                - 1].booted
        }),
        line is Pit ==> irq == 0,
        line is Serial ==> irq == 4,
        up == 0 && left == 0,
{
    assert(bridge@.vcpus == bridge.vcpus@ && bridge@.vms == bridge.vms@);
}

} // verus!
