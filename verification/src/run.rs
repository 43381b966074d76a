//! Running a vCPU: guest entries, the exits that are handled in between, and the
//! exits that end the run.
use vstd::prelude::*;

use crate::access::{port_number, width_bytes, AccessWidth, GuestPhysAddr, Port};
use crate::env::{Backend, BackendView};
use crate::errno::{EINVAL, EOPNOTSUPP};
use crate::host::{exit_logged, should_log_raw_exit, HostReply, VcpuExit, VcpuRef};
use crate::inkernel::{
    handle_x86_inkernel_io_read, handle_x86_inkernel_io_write, handle_x86_inkernel_mmio_read,
    handle_x86_inkernel_mmio_write, inkernel_next, inkernel_resume, port_device, vcpu_runnable, InKernelStep, MmioRead,
};
use crate::access::{inkernel_port, truncated};
use crate::irq::{
    complete_x86_external_eoi, eoi_next, eoi_resume, progress_x86_virtual_irqs, virq_next, virq_resume, virq_start,
    EoiStep, VirqStep,
};
use crate::percpu::{
    enter_next, enter_percpu, enter_percpu_resume, enter_error_set,
    entering_pins_exactly_on_success, pinned_after, pinned_at, EnterStep,
};
use crate::progress::{
    make_internal_run_progress, progress_next, progress_resume, progress_tables, vcpu_ref, vcpu_ref_at, ProgressStep,
};
use crate::soft_ple::{boot_controller, is_oversubscribed, oversubscribed, spin_step, SpinAction};
use crate::state::{
    vcpu_index_from_handle, vm_index_from_handle, BackendVcpu, Bridge, BridgeView, PendingIoRead, PendingMmioRead,
    MAX_VCPUS,
};
use crate::timers::arm_x86_idle_wakeup_timer;
use crate::vcpu::{clear_vcpu_pending_reads, find_vcpu_slot_by_id, lemma_vcpu_update_keeps_inv};

verus! {

pub const AXKVM_BACKEND_EXIT_MMIO_READ: u32 = 1;

pub const AXKVM_BACKEND_EXIT_MMIO_WRITE: u32 = 2;

pub const AXKVM_BACKEND_EXIT_IO_READ: u32 = 3;

pub const AXKVM_BACKEND_EXIT_IO_WRITE: u32 = 4;

pub const AXKVM_BACKEND_EXIT_HLT: u32 = 5;

pub const AXKVM_BACKEND_EXIT_SHUTDOWN: u32 = 6;

pub const AXKVM_BACKEND_EXIT_FAIL_ENTRY: u32 = 7;

pub const AXKVM_BACKEND_EXIT_INTERNAL_ERROR: u32 = 8;

pub const AXKVM_BACKEND_EXIT_CPU_UP: u32 = 9;

/// What a guest gets for a paravirtual call: the negated number of an unknown
/// call, 1000.
pub const HYPERCALL_ENOSYS: u64 = 0xffff_ffff_ffff_fc18;

/// Why a run ended, for the KVM caller.
#[derive(Clone, Copy, Debug, PartialEq, Eq, Structural)]
pub struct BackendExit {
    pub reason: u32,
    pub width: u32,
    pub addr: u64,
    pub data: u64,
    pub hardware_entry_failure_reason: u64,
}

impl BackendExit {
    /// What the caller sees of a run that did not get to an exit.
    pub open spec fn spec_reset() -> BackendExit {
        BackendExit {
            reason: AXKVM_BACKEND_EXIT_FAIL_ENTRY,
            width: 0,
            addr: 0,
            data: 0,
            hardware_entry_failure_reason: 0,
        }
    }
}

/// What the caller sees of a run that did not get to an exit.
pub fn reset_backend_exit_outputs() -> (exit: BackendExit)
    ensures
        exit == BackendExit::spec_reset(),
{
    BackendExit {
        reason: AXKVM_BACKEND_EXIT_FAIL_ENTRY,
        width: 0,
        addr: 0,
        data: 0,
        hardware_entry_failure_reason: 0,
    }
}

/// Ends a run for a memory-mapped read from outside: the read waits for its data.
pub fn prepare_userspace_mmio_read_exit(
    bridge: &mut Bridge,
    slot: usize,
    exit: &mut BackendExit,
    mmio_addr: GuestPhysAddr,
    access_width: AccessWidth,
    reg: usize,
    reg_width: AccessWidth,
    signed_ext: bool,
)
    requires
        old(bridge).wf(),
        slot < MAX_VCPUS,
    ensures
        final(bridge).wf(),
        *final(exit) == (BackendExit {
            reason: AXKVM_BACKEND_EXIT_MMIO_READ,
            width: access_width.bytes(),
            addr: mmio_addr.0,
            ..*old(exit)
        }),
        final(bridge)@ == old(bridge)@.with_vcpu_at(
            slot as int,
            (BackendVcpu {
                pending_mmio_read: PendingMmioRead {
                    active: true,
                    reg,
                    width: access_width,
                    reg_width,
                    signed_ext,
                },
                pending_io_read: PendingIoRead::spec_empty(),
                ..old(bridge)@.vcpus[slot as int]
            }),
        ),
{
    let ghost before = bridge@;
    exit.reason = AXKVM_BACKEND_EXIT_MMIO_READ;
    exit.width = width_bytes(access_width);
    exit.addr = mmio_addr.0;
    bridge.vcpus[slot].pending_mmio_read =
    PendingMmioRead { active: true, reg, width: access_width, reg_width, signed_ext };
    bridge.vcpus[slot].pending_io_read = PendingIoRead::empty();
    proof {
        let v = BackendVcpu {
            pending_mmio_read: PendingMmioRead { active: true, reg, width: access_width, reg_width, signed_ext },
            pending_io_read: PendingIoRead::spec_empty(),
            ..before.vcpus[slot as int]
        };
        assert(bridge@ =~= before.with_vcpu_at(slot as int, v));
        lemma_vcpu_update_keeps_inv(before, slot as int, v);
    }
}

/// Ends a run for a memory-mapped write to outside.
pub fn prepare_userspace_mmio_write_exit(
    bridge: &mut Bridge,
    slot: usize,
    exit: &mut BackendExit,
    mmio_addr: GuestPhysAddr,
    access_width: AccessWidth,
    mmio_data: u64,
)
    requires
        old(bridge).wf(),
        slot < MAX_VCPUS,
    ensures
        final(bridge).wf(),
        *final(exit) == (BackendExit {
            reason: AXKVM_BACKEND_EXIT_MMIO_WRITE,
            width: access_width.bytes(),
            addr: mmio_addr.0,
            data: mmio_data,
            ..*old(exit)
        }),
        final(bridge)@ == old(bridge)@.with_vcpu_at(
            slot as int,
            old(bridge)@.vcpus[slot as int].without_pending_reads(),
        ),
{
    clear_vcpu_pending_reads(bridge, slot);
    exit.reason = AXKVM_BACKEND_EXIT_MMIO_WRITE;
    exit.width = width_bytes(access_width);
    exit.addr = mmio_addr.0;
    exit.data = mmio_data;
}

/// Ends a run for a port read from outside: the read waits for its data.
pub fn prepare_userspace_io_read_exit(
    bridge: &mut Bridge,
    slot: usize,
    exit: &mut BackendExit,
    port: Port,
    access_width: AccessWidth,
)
    requires
        old(bridge).wf(),
        slot < MAX_VCPUS,
    ensures
        final(bridge).wf(),
        *final(exit) == (BackendExit {
            reason: AXKVM_BACKEND_EXIT_IO_READ,
            width: access_width.bytes(),
            addr: port.0 as u64,
            ..*old(exit)
        }),
        final(bridge)@ == old(bridge)@.with_vcpu_at(
            slot as int,
            (BackendVcpu {
                pending_mmio_read: PendingMmioRead::spec_empty(),
                pending_io_read: PendingIoRead { active: true, width: access_width },
                ..old(bridge)@.vcpus[slot as int]
            }),
        ),
{
    let ghost before = bridge@;
    bridge.vcpus[slot].pending_mmio_read = PendingMmioRead::empty();
    bridge.vcpus[slot].pending_io_read = PendingIoRead { active: true, width: access_width };
    exit.reason = AXKVM_BACKEND_EXIT_IO_READ;
    exit.width = width_bytes(access_width);
    exit.addr = port_number(port);
    proof {
        let v = BackendVcpu {
            pending_mmio_read: PendingMmioRead::spec_empty(),
            pending_io_read: PendingIoRead { active: true, width: access_width },
            ..before.vcpus[slot as int]
        };
        assert(bridge@ =~= before.with_vcpu_at(slot as int, v));
        lemma_vcpu_update_keeps_inv(before, slot as int, v);
    }
}

/// Ends a run for a port write to outside.
pub fn prepare_userspace_io_write_exit(
    bridge: &mut Bridge,
    slot: usize,
    exit: &mut BackendExit,
    port: Port,
    access_width: AccessWidth,
    io_data: u64,
)
    requires
        old(bridge).wf(),
        slot < MAX_VCPUS,
    ensures
        final(bridge).wf(),
        *final(exit) == (BackendExit {
            reason: AXKVM_BACKEND_EXIT_IO_WRITE,
            width: access_width.bytes(),
            addr: port.0 as u64,
            data: io_data,
            ..*old(exit)
        }),
        final(bridge)@ == old(bridge)@.with_vcpu_at(
            slot as int,
            old(bridge)@.vcpus[slot as int].without_pending_reads(),
        ),
{
    clear_vcpu_pending_reads(bridge, slot);
    exit.reason = AXKVM_BACKEND_EXIT_IO_WRITE;
    exit.width = width_bytes(access_width);
    exit.addr = port_number(port);
    exit.data = io_data;
}

/// What becomes of a vCPU's changed state before a run.
#[derive(Clone, Copy, Debug, PartialEq, Eq, Structural)]
pub enum ApplyStep {
    /// Hand the machine the state of a vCPU.
    Apply { vcpu_id: u32 },
    Done(i32),
}

/// The start of handing a vCPU's changed state to its machine. A vCPU that was
/// started by another one has its state from there: what was set before is dropped.
pub open spec fn apply_start(b: BridgeView, slot: usize) -> (ApplyStep, BridgeView) {
    let v = b.vcpus[slot as int];
    if !v.in_use || !b.vm_handle_ok(v.vm_handle) {
        (ApplyStep::Done((-EINVAL) as i32), b)
    } else if !b.runnable(slot as int) || !v.state_dirty {
        (ApplyStep::Done(0), b)
    } else if v.sipi_started {
        (ApplyStep::Done(0), b.with_vcpu_at(slot as int, BackendVcpu { state_dirty: false, ..v }))
    } else {
        (ApplyStep::Apply { vcpu_id: v.id }, b)
    }
}

/// Begins to hand a vCPU's changed state to its machine.
pub fn apply_vcpu_state_if_booted(bridge: &mut Bridge, slot: usize) -> (step: ApplyStep)
    requires
        old(bridge).wf(),
        slot < MAX_VCPUS,
    ensures
        final(bridge).wf(),
        (step, final(bridge)@) == apply_start(old(bridge)@, slot),
{
    let ghost before = bridge@;
    if !bridge.vcpus[slot].in_use {
        return ApplyStep::Done(-EINVAL);
    }
    if let Err(err) = vm_index_from_handle(bridge.vcpus[slot].vm_handle) {
        return ApplyStep::Done(err);
    }
    if !vcpu_runnable(bridge, slot) {
        return ApplyStep::Done(0);
    }
    if !bridge.vcpus[slot].state_dirty {
        return ApplyStep::Done(0);
    }
    if bridge.vcpus[slot].sipi_started {
        bridge.vcpus[slot].state_dirty = false;
        proof {
            let v = BackendVcpu { state_dirty: false, ..before.vcpus[slot as int] };
            assert(bridge@ =~= before.with_vcpu_at(slot as int, v));
            lemma_vcpu_update_keeps_inv(before, slot as int, v);
        }
        return ApplyStep::Done(0);
    }
    ApplyStep::Apply { vcpu_id: bridge.vcpus[slot].id }
}

/// The tables after the machine took a vCPU's state, or refused it.
pub open spec fn apply_taken(b: BridgeView, slot: usize, outcome: Result<(), i32>) -> BridgeView {
    if outcome is Ok {
        b.with_vcpu_at(slot as int, BackendVcpu { state_dirty: false, ..b.vcpus[slot as int] })
    } else {
        b
    }
}

/// Notes that the machine took a vCPU's state; gives the result of the call.
pub fn finish_apply(bridge: &mut Bridge, slot: usize, outcome: Result<(), i32>) -> (ret: i32)
    requires
        old(bridge).wf(),
        slot < MAX_VCPUS,
    ensures
        final(bridge).wf(),
        final(bridge)@ == apply_taken(old(bridge)@, slot, outcome),
        ret == (match outcome {
            Ok(_) => 0,
            Err(err) => err,
        }),
{
    let ghost before = bridge@;
    match outcome {
        Ok(_) => {
            bridge.vcpus[slot].state_dirty = false;
            proof {
                let v = BackendVcpu { state_dirty: false, ..before.vcpus[slot as int] };
                assert(bridge@ =~= before.with_vcpu_at(slot as int, v));
                lemma_vcpu_update_keeps_inv(before, slot as int, v);
            }
            0
        },
        Err(err) => err,
    }
}

/// What becomes of a request to start another vCPU.
#[derive(Clone, Copy, Debug, PartialEq, Eq, Structural)]
pub enum CpuUpAction {
    /// There is no such vCPU.
    Refuse(i32),
    /// It was started before: the request is passed over.
    Duplicate,
    /// Set the vCPU's entry point; its record is at this position.
    Setup { target_slot: usize },
}

/// The record of a vCPU that may be started: the first one of the VM with the id.
pub open spec fn cpu_up_target(b: BridgeView, vm_handle: u64, target_cpu: u64, slot: int) -> bool {
    &&& 0 <= slot < MAX_VCPUS
    &&& b.vcpus[slot].of(vm_handle)
    &&& b.vcpus[slot].id == target_cpu % 0x1_0000_0000
    &&& forall|i: int|
        0 <= i < slot ==> !((#[trigger] b.vcpus[i]).of(vm_handle) && b.vcpus[i].id == target_cpu % 0x1_0000_0000)
}

/// What becomes of a request to start a vCPU that the machine has.
pub open spec fn cpu_up_action(b: BridgeView, source_slot: usize, target_cpu: u64) -> CpuUpAction {
    let handle = b.vcpus[source_slot as int].vm_handle;
    if exists|slot: int| cpu_up_target(b, handle, target_cpu, slot) {
        let slot = choose|slot: int| cpu_up_target(b, handle, target_cpu, slot);
        if b.vcpus[slot].sipi_started {
            CpuUpAction::Duplicate
        } else {
            CpuUpAction::Setup { target_slot: slot as usize }
        }
    } else {
        CpuUpAction::Refuse((-EINVAL) as i32)
    }
}

/// Decides on a request of a vCPU to start another one that the machine has.
pub fn handle_x86_cpu_up_exit(bridge: &Bridge, source_slot: usize, target_cpu: u64) -> (action: CpuUpAction)
    requires
        bridge.wf(),
        source_slot < MAX_VCPUS,
    ensures
        action == cpu_up_action(bridge@, source_slot, target_cpu),
        action matches CpuUpAction::Setup { target_slot } ==> target_slot < MAX_VCPUS,
{
    let handle: u64 = bridge.vcpus[source_slot].vm_handle;
    let ghost b = bridge@;
    let target_id: u32 = (target_cpu % 0x1_0000_0000) as u32;
    match find_vcpu_slot_by_id(bridge, handle, target_id) {
        None => {
            proof {
                assert forall|slot: int| !cpu_up_target(b, handle, target_cpu, slot) by {
                    if 0 <= slot < MAX_VCPUS {
                        assert(!(b.vcpus[slot].of(handle) && b.vcpus[slot].id == target_id));
                    }
                }
            }
            CpuUpAction::Refuse(-EINVAL)
        },
        Some(target_slot) => {
            proof {
                assert(cpu_up_target(b, handle, target_cpu, target_slot as int));
                let chosen = choose|slot: int| cpu_up_target(b, handle, target_cpu, slot);
                assert(cpu_up_target(b, handle, target_cpu, chosen));
                if chosen < target_slot {
                    assert(!(b.vcpus[chosen].of(handle) && b.vcpus[chosen].id == target_id));
                }
                if target_slot < chosen {
                    assert(!(b.vcpus[target_slot as int].of(handle) && b.vcpus[target_slot as int].id == target_id));
                }
            }
            if bridge.vcpus[target_slot].sipi_started {
                CpuUpAction::Duplicate
            } else {
                CpuUpAction::Setup { target_slot }
            }
        },
    }
}

/// What a run does after housekeeping that was interrupted.
#[derive(Clone, Copy, Debug, PartialEq, Eq, Structural)]
pub enum OnInterrupt {
    /// It ends as it stands.
    Stop,
    /// It leaves guest mode and ends.
    Leave,
}

/// A step of a run.
#[derive(Clone, Copy, Debug, PartialEq, Eq)]
pub enum RunStep {
    /// Tell which task is calling.
    CurrentTask,
    /// Enter guest mode on a host CPU.
    Enter(EnterStep),
    /// Hand the machine the state of a vCPU.
    ApplyState { vcpu_id: u32 },
    /// Restore the priority of the vCPU's thread at the start.
    StartRestore { vcpu: VcpuRef },
    /// Load the guest's FPU state.
    FpuBegin,
    /// Run the vCPU until it leaves guest mode.
    RunRaw { vcpu_id: u32 },
    /// Save the guest's FPU state.
    FpuEnd { result: Result<VcpuExit, i32> },
    /// Log why the vCPU left guest mode.
    LogExit { result: Result<VcpuExit, i32> },
    /// Tell how many host CPUs are online.
    SpinOnline,
    /// Tell the guest's instruction pointer at the last exit.
    SpinRip { online: usize },
    /// Restore the priority of the vCPU's thread.
    SpinRestore { vcpu: VcpuRef },
    /// Yield towards a waiting vCPU, as this one spins.
    SpinYield { vcpu: VcpuRef },
    /// Lower the priority of the vCPU's thread.
    SpinDemote { vcpu: VcpuRef },
    /// Yield towards a waiting vCPU, as this one paused.
    PauseYield { vcpu: VcpuRef },
    /// End an interrupt.
    Eoi(EoiStep),
    /// Housekeeping.
    Progress { on_interrupt: OnInterrupt, progress: ProgressStep },
    /// Serve an access in the kernel.
    InKernel { exit: VcpuExit, access: InKernelStep },
    /// Drain the calling vCPU's due timers, as the guest halts.
    HaltExpire,
    /// Deliver device interrupts, as the guest halts.
    HaltIrqs(VirqStep),
    /// Tell the interval timer's next deadline.
    HaltDeadline,
    /// Set the host timer to the deadline, so that the guest wakes.
    HaltProgram { deadline_ns: u64 },
    /// Tell whether the machine has the vCPU that is to be started.
    CpuUpFind { target_cpu: u64, entry_point: GuestPhysAddr },
    /// Set the entry point of the vCPU that is to be started.
    CpuUpSetup { target_cpu: u64, entry_point: GuestPhysAddr, target_slot: usize },
    /// Tell whether the machine has the vCPU that made a paravirtual call.
    HypercallFind { vcpu_id: u32 },
    /// Set its result register.
    HypercallSet { vcpu_id: u32, reg: usize, value: u64 },
    /// Bring a guest page in.
    FaultIn { vm_handle: u64, gpa: u64, write: bool },
    /// Unpin the task; the run then ends with `ret`.
    Leave { ret: i32 },
    /// The run ended with this result.
    Done(i32),
    /// The run ended with this result, interrupted while the task is pinned.
    Interrupted(i32),
}

/// A run of a vCPU.
#[derive(Clone, Copy, Debug, PartialEq, Eq)]
pub struct RunVcpu {
    /// The position of the vCPU's record.
    pub slot: usize,
    /// The number of internal exits so far.
    pub retry: usize,
    /// Why the run ended; nothing where the caller's outputs are not touched.
    pub exit: Option<BackendExit>,
    pub step: RunStep,
}

impl RunVcpu {
    /// The positions in a run are those of records.
    pub open spec fn wf(self) -> bool {
        &&& self.slot < MAX_VCPUS
        &&& self.step matches RunStep::CpuUpSetup { target_cpu, entry_point, target_slot } ==> target_slot < MAX_VCPUS
    }

    /// The run at another step.
    pub open spec fn at(self, step: RunStep) -> RunVcpu {
        RunVcpu { step, ..self }
    }

    /// The run with outputs set, about to leave guest mode with success.
    pub open spec fn exiting(self, exit: BackendExit) -> RunVcpu {
        RunVcpu { exit: Some(exit), step: RunStep::Leave { ret: 0 }, ..self }
    }

    /// The outputs so far.
    pub open spec fn outputs(self) -> BackendExit {
        match self.exit {
            Some(exit) => exit,
            None => BackendExit::spec_reset(),
        }
    }

    /// The run at an exit that only has a reason.
    pub open spec fn exiting_for(self, reason: u32) -> RunVcpu {
        self.exiting(BackendExit { reason, ..self.outputs() })
    }
}

/// The run at the start of housekeeping, and the tables.
pub open spec fn to_progress(m: RunVcpu, e: BackendView, clear: bool, on_interrupt: OnInterrupt) -> (
    RunVcpu,
    BackendView,
) {
    (
        m.at(RunStep::Progress { on_interrupt, progress: ProgressStep::OnlineCpus { vcpu: vcpu_ref(e, m.slot) } }),
        progress_tables(e, m.slot, clear),
    )
}

/// The run after a step of the spin detection: what the host does first, then
/// housekeeping.
pub open spec fn spin_decided(m: RunVcpu, e: BackendView, online: usize, rip: Option<u64>) -> (RunVcpu, BackendView) {
    let id = e.vcpu_at(m.slot).id;
    let scarce = oversubscribed(e.bridge, e.vcpu_at(m.slot).vm_handle, online);
    let step = spin_step(id, e.soft_ple[id as int], scarce, rip);
    let after = BackendView { soft_ple: e.soft_ple.update(id as int, step.1), ..e };
    let vcpu = vcpu_ref(e, m.slot);
    match step.0 {
        SpinAction::Nothing => to_progress(m, after, false, OnInterrupt::Stop),
        SpinAction::Restore => (m.at(RunStep::SpinRestore { vcpu }), after),
        SpinAction::HandOff => (m.at(RunStep::SpinYield { vcpu }), after),
    }
}

/// The run at the start of the spin detection: a vCPU whose id is not watched goes
/// on to housekeeping.
pub open spec fn to_spin(m: RunVcpu, e: BackendView) -> (RunVcpu, BackendView) {
    if e.vcpu_at(m.slot).id < MAX_VCPUS {
        (m.at(RunStep::SpinOnline), e)
    } else {
        to_progress(m, e, false, OnInterrupt::Stop)
    }
}

/// The run at the start of an access in the kernel.
pub open spec fn to_access(m: RunVcpu, e: BackendView, exit: VcpuExit, access: InKernelStep) -> (RunVcpu, BackendView) {
    match access {
        InKernelStep::Done(code) => access_done(m, e, exit, code),
        access => (m.at(RunStep::InKernel { exit, access }), e),
    }
}

/// The run after an access: served in the kernel it goes on, after housekeeping;
/// not served there it ends for the caller to serve it; and an error ends it.
pub open spec fn access_done(m: RunVcpu, e: BackendView, exit: VcpuExit, code: i32) -> (RunVcpu, BackendView) {
    if code == 0 {
        to_progress(m, e, true, OnInterrupt::Leave)
    } else if code != -EOPNOTSUPP {
        (m.at(RunStep::Leave { ret: code }), e)
    } else {
        match exit {
            VcpuExit::MmioRead { addr, width, reg, reg_width, signed_ext } => (
                m.exiting(
                    BackendExit {
                        reason: AXKVM_BACKEND_EXIT_MMIO_READ,
                        width: width.bytes(),
                        addr: addr.0,
                        ..m.outputs()
                    },
                ),
                e.with_vcpu_at(
                    m.slot,
                    BackendVcpu {
                        pending_mmio_read: PendingMmioRead { active: true, reg, width, reg_width, signed_ext },
                        pending_io_read: PendingIoRead::spec_empty(),
                        ..e.vcpu_at(m.slot)
                    },
                ),
            ),
            VcpuExit::MmioWrite { addr, width, data } => (
                m.exiting(
                    BackendExit {
                        reason: AXKVM_BACKEND_EXIT_MMIO_WRITE,
                        width: width.bytes(),
                        addr: addr.0,
                        data,
                        ..m.outputs()
                    },
                ),
                e.reads_cleared(m.slot),
            ),
            VcpuExit::IoRead { port, width } => (
                m.exiting(
                    BackendExit {
                        reason: AXKVM_BACKEND_EXIT_IO_READ,
                        width: width.bytes(),
                        addr: port.0 as u64,
                        ..m.outputs()
                    },
                ),
                e.with_vcpu_at(
                    m.slot,
                    BackendVcpu {
                        pending_mmio_read: PendingMmioRead::spec_empty(),
                        pending_io_read: PendingIoRead { active: true, width },
                        ..e.vcpu_at(m.slot)
                    },
                ),
            ),
            VcpuExit::IoWrite { port, width, data } => (
                m.exiting(
                    BackendExit {
                        reason: AXKVM_BACKEND_EXIT_IO_WRITE,
                        width: width.bytes(),
                        addr: port.0 as u64,
                        data,
                        ..m.outputs()
                    },
                ),
                e.reads_cleared(m.slot),
            ),
            _ => (m.exiting_for(AXKVM_BACKEND_EXIT_INTERNAL_ERROR), e.reads_cleared(m.slot)),
        }
    }
}

/// The run after the vCPU left guest mode and the exit was logged.
pub open spec fn exit_dispatch(m: RunVcpu, e: BackendView, result: Result<VcpuExit, i32>) -> (RunVcpu, BackendView) {
    let vcpu = vcpu_ref(e, m.slot);
    match result {
        Err(err) => (m.at(RunStep::Leave { ret: err }), e),
        Ok(exit) => match exit {
            VcpuExit::Nothing => to_spin(m, e),
            VcpuExit::ExternalInterrupt { vector } => to_spin(m, e),
            VcpuExit::PreemptionTimer => to_spin(m, e),
            VcpuExit::Yield => (m.at(RunStep::PauseYield { vcpu }), e),
            VcpuExit::InterruptEnd { vector: None } => to_spin(m, e),
            VcpuExit::InterruptEnd { vector: Some(vector) } => (
                m.at(RunStep::Eoi(EoiStep::EndPic { vcpu_id: vcpu.vcpu_id as usize, vector })),
                e,
            ),
            VcpuExit::MmioRead { addr, width, reg, reg_width, signed_ext } => to_access(
                m,
                e,
                exit,
                InKernelStep::FindMmioForRead {
                    read: MmioRead { vcpu_id: vcpu.vcpu_id as usize, addr, width, reg, reg_width, signed_ext },
                },
            ),
            VcpuExit::MmioWrite { addr, width, data } => to_access(
                m,
                e,
                exit,
                InKernelStep::FindMmioForWrite { addr, width, value: truncated(data, width) },
            ),
            VcpuExit::IoRead { port, width } => to_access(
                m,
                e,
                exit,
                if inkernel_port(port.0) {
                    InKernelStep::ReadPort {
                        vcpu_id: vcpu.vcpu_id as usize,
                        device: port_device(port.0),
                        port,
                        width,
                    }
                } else {
                    InKernelStep::Done((-EOPNOTSUPP) as i32)
                },
            ),
            VcpuExit::IoWrite { port, width, data } => to_access(
                m,
                e,
                exit,
                if inkernel_port(port.0) {
                    InKernelStep::WritePort {
                        device: port_device(port.0),
                        port,
                        width,
                        value: truncated(data, width),
                    }
                } else {
                    InKernelStep::Done((-EOPNOTSUPP) as i32)
                },
            ),
            VcpuExit::Halt => (m.at(RunStep::HaltExpire), e),
            VcpuExit::SystemDown => (m.exiting_for(AXKVM_BACKEND_EXIT_SHUTDOWN), e.reads_cleared(m.slot)),
            VcpuExit::FailEntry { hardware_entry_failure_reason } => (
                m.exiting(
                    BackendExit {
                        reason: AXKVM_BACKEND_EXIT_FAIL_ENTRY,
                        hardware_entry_failure_reason,
                        ..m.outputs()
                    },
                ),
                e.reads_cleared(m.slot),
            ),
            VcpuExit::CpuUp { target_cpu, entry_point, arg } => (
                m.at(RunStep::CpuUpFind { target_cpu, entry_point }),
                e,
            ),
            VcpuExit::Hypercall { nr, args } => (m.at(RunStep::HypercallFind { vcpu_id: vcpu.vcpu_id }), e),
            VcpuExit::NestedPageFault { addr, access_flags } => (
                m.at(RunStep::FaultIn { vm_handle: vcpu.vm_handle, gpa: addr.0, write: access_flags.write }),
                e,
            ),
            VcpuExit::Other => (m.exiting_for(AXKVM_BACKEND_EXIT_INTERNAL_ERROR), e.reads_cleared(m.slot)),
        },
    }
}

/// The run once guest mode is entered and the vCPU's state is with the machine:
/// spin detection starts over.
pub open spec fn run_started(m: RunVcpu, e: BackendView) -> (RunVcpu, BackendView) {
    let id = e.vcpu_at(m.slot).id;
    (
        m.at(RunStep::StartRestore { vcpu: vcpu_ref(e, m.slot) }),
        if id < MAX_VCPUS {
            BackendView { soft_ple: e.soft_ple.update(id as int, crate::soft_ple::SpinTrack::spec_reset()), ..e }
        } else {
            e
        },
    )
}

/// The run after the attempt to hand the vCPU's state to the machine.
pub open spec fn state_applied(m: RunVcpu, e: BackendView, ret: i32) -> (RunVcpu, BackendView) {
    if ret != 0 {
        (m.at(RunStep::Leave { ret }), e)
    } else {
        run_started(m, e)
    }
}

/// The run after guest mode was entered.
pub open spec fn run_entered(m: RunVcpu, e: BackendView) -> (RunVcpu, BackendView) {
    let start = apply_start(e.bridge, m.slot);
    let after = BackendView { bridge: start.1, ..e };
    match start.0 {
        ApplyStep::Apply { vcpu_id } => (m.at(RunStep::ApplyState { vcpu_id }), after),
        ApplyStep::Done(ret) => state_applied(m, after, ret),
    }
}

/// A guest that halts: the host timer is set, and the run ends.
pub open spec fn halted(m: RunVcpu, e: BackendView) -> (RunVcpu, BackendView) {
    (m.exiting_for(AXKVM_BACKEND_EXIT_HLT), e.reads_cleared(m.slot))
}

/// The run after a reply, and the tables after it.
pub open spec fn run_next(m: RunVcpu, e: BackendView, reply: HostReply) -> (RunVcpu, BackendView) {
    match (m.step, reply) {
        (RunStep::CurrentTask, HostReply::TaskId(task_id)) => (
            m.at(RunStep::Enter(EnterStep::MigrateDisable)),
            e.context_set(task_id, e.vcpu_at(m.slot).vm_handle, e.vcpu_at(m.slot).id),
        ),
        (RunStep::Enter(enter), _) => {
            let next = enter_next(enter, e.percpu, reply);
            let after = e.with_percpu(next.1);
            match next.0 {
                EnterStep::Done(ret) => if ret != 0 {
                    (m.at(RunStep::Done(ret)), after)
                } else {
                    run_entered(m, after)
                },
                enter => (m.at(RunStep::Enter(enter)), after),
            }
        },
        (RunStep::ApplyState { vcpu_id }, HostReply::Outcome(outcome)) => state_applied(
            m,
            BackendView { bridge: apply_taken(e.bridge, m.slot, outcome), ..e },
            match outcome {
                Ok(_) => 0,
                Err(err) => err,
            },
        ),
        (RunStep::StartRestore { vcpu }, HostReply::Done) => (m.at(RunStep::FpuBegin), e),
        (RunStep::FpuBegin, HostReply::Code(ret)) => if ret != 0 {
            (m.at(RunStep::Leave { ret }), e)
        } else {
            (m.at(RunStep::RunRaw { vcpu_id: e.vcpu_at(m.slot).id }), e)
        },
        (RunStep::RunRaw { vcpu_id }, HostReply::Exit(result)) => (m.at(RunStep::FpuEnd { result }), e),
        (RunStep::FpuEnd { result }, HostReply::Done) => if exit_logged(result, m.retry) {
            (m.at(RunStep::LogExit { result }), e)
        } else {
            exit_dispatch(m, e, result)
        },
        (RunStep::LogExit { result }, HostReply::Done) => exit_dispatch(m, e, result),
        (RunStep::SpinOnline, HostReply::Online(online)) => if e.vcpu_at(m.slot).id >= MAX_VCPUS {
            to_progress(m, e, false, OnInterrupt::Stop)
        } else if oversubscribed(e.bridge, e.vcpu_at(m.slot).vm_handle, online) {
            (m.at(RunStep::SpinRip { online }), e)
        } else {
            spin_decided(m, e, online, None)
        },
        (RunStep::SpinRip { online }, HostReply::Maybe(rip)) => if e.vcpu_at(m.slot).id >= MAX_VCPUS {
            to_progress(m, e, false, OnInterrupt::Stop)
        } else {
            spin_decided(m, e, online, rip)
        },
        (RunStep::SpinRestore { vcpu }, HostReply::Done) => to_progress(m, e, false, OnInterrupt::Stop),
        (RunStep::SpinYield { vcpu }, HostReply::Flag(_)) => (m.at(RunStep::SpinDemote { vcpu }), e),
        (RunStep::SpinDemote { vcpu }, HostReply::Done) => to_progress(m, e, false, OnInterrupt::Stop),
        (RunStep::PauseYield { vcpu }, HostReply::Flag(_)) => to_progress(m, e, false, OnInterrupt::Stop),
        (RunStep::Eoi(eoi), _) => match eoi_next(eoi, e.contexts, reply) {
            EoiStep::Done => to_progress(m, e, false, OnInterrupt::Stop),
            next => (m.at(RunStep::Eoi(next)), e),
        },
        (RunStep::Progress { on_interrupt, progress }, _) => {
            let next = progress_next(progress, e, m.retry, reply);
            let counted = RunVcpu { retry: next.2, ..m };
            match next.0 {
                ProgressStep::Done(ret) => if ret >= 0 {
                    (counted.at(RunStep::FpuBegin), next.1)
                } else if on_interrupt == OnInterrupt::Stop {
                    (counted.at(RunStep::Interrupted(ret)), next.1)
                } else {
                    (counted.at(RunStep::Leave { ret }), next.1)
                },
                progress => (counted.at(RunStep::Progress { on_interrupt, progress }), next.1),
            }
        },
        (RunStep::InKernel { exit, access }, _) => to_access(m, e, exit, inkernel_next(access, reply)),
        (RunStep::HaltExpire, HostReply::Done) => match virq_start(e.vcpu_at(m.slot).id as usize) {
            VirqStep::Done => (m.at(RunStep::HaltDeadline), e),
            virq => (m.at(RunStep::HaltIrqs(virq)), e),
        },
        (RunStep::HaltIrqs(virq), _) => match virq_next(virq, e.contexts, reply) {
            VirqStep::Done => (m.at(RunStep::HaltDeadline), e),
            next => (m.at(RunStep::HaltIrqs(next)), e),
        },
        (RunStep::HaltDeadline, HostReply::Maybe(deadline)) => match deadline {
            Some(deadline_ns) if deadline_ns != 0 => (m.at(RunStep::HaltProgram { deadline_ns }), e),
            _ => halted(m, e),
        },
        (RunStep::HaltProgram { deadline_ns }, HostReply::Done) => halted(m, e),
        (RunStep::CpuUpFind { target_cpu, entry_point }, HostReply::Flag(found)) => if !found {
            (m.at(RunStep::Leave { ret: (-EINVAL) as i32 }), e)
        } else {
            match cpu_up_action(e.bridge, m.slot, target_cpu) {
                CpuUpAction::Refuse(err) => (m.at(RunStep::Leave { ret: err }), e),
                CpuUpAction::Duplicate => to_progress(m, e, true, OnInterrupt::Leave),
                CpuUpAction::Setup { target_slot } => (
                    m.at(RunStep::CpuUpSetup { target_cpu, entry_point, target_slot }),
                    e,
                ),
            }
        },
        (RunStep::CpuUpSetup { target_cpu, entry_point, target_slot }, HostReply::Outcome(outcome)) => match outcome {
            Err(err) => (m.at(RunStep::Leave { ret: err }), e),
            Ok(_) => (
                m.exiting(
                    BackendExit {
                        reason: AXKVM_BACKEND_EXIT_CPU_UP,
                        addr: target_cpu,
                        data: entry_point.0,
                        ..m.outputs()
                    },
                ),
                e.with_vcpu_at(
                    target_slot,
                    BackendVcpu { sipi_started: true, ..e.vcpu_at(target_slot) },
                ).reads_cleared(m.slot),
            ),
        },
        (RunStep::HypercallFind { vcpu_id }, HostReply::Flag(found)) => if found {
            (m.at(RunStep::HypercallSet { vcpu_id, reg: 0, value: HYPERCALL_ENOSYS }), e)
        } else {
            to_progress(m, e, false, OnInterrupt::Stop)
        },
        (RunStep::HypercallSet { vcpu_id, reg, value }, HostReply::Done) => to_progress(
            m,
            e,
            false,
            OnInterrupt::Stop,
        ),
        (RunStep::FaultIn { vm_handle, gpa, write }, HostReply::Code(rc)) => if rc < 0 {
            (m.exiting_for(AXKVM_BACKEND_EXIT_INTERNAL_ERROR), e.reads_cleared(m.slot))
        } else {
            (m.at(RunStep::FpuBegin), e)
        },
        (RunStep::Leave { ret }, HostReply::Done) => (m.at(RunStep::Done(ret)), e),
        _ => (m, e),
    }
}

/// The start of a run: refused without a place for the outputs, for a vCPU that
/// does not exist, or one whose VM is not booted.
pub open spec fn run_start(b: BridgeView, backend_vcpu: u64, outputs: bool) -> RunVcpu {
    if !outputs || !(1 <= backend_vcpu <= MAX_VCPUS) {
        RunVcpu { slot: 0, retry: 0, exit: None, step: RunStep::Done((-EINVAL) as i32) }
    } else {
        RunVcpu {
            slot: (backend_vcpu - 1) as usize,
            retry: 0,
            exit: Some(BackendExit::spec_reset()),
            step: if b.runnable(backend_vcpu - 1) {
                RunStep::CurrentTask
            } else {
                RunStep::Done((-EINVAL) as i32)
            },
        }
    }
}

/// Begins a run of a vCPU. `outputs` says whether the caller has a place for all of
/// the outputs.
pub fn axvisor_kvm_rs_run_vcpu(bridge: &Bridge, backend_vcpu: u64, outputs: bool) -> (run: RunVcpu)
    requires
        bridge.wf(),
    ensures
        run == run_start(bridge@, backend_vcpu, outputs),
        run.wf(),
{
    if !outputs {
        return RunVcpu { slot: 0, retry: 0, exit: None, step: RunStep::Done(-EINVAL) };
    }
    let slot: usize = match vcpu_index_from_handle(backend_vcpu) {
        Ok(slot) => slot,
        Err(err) => {
            return RunVcpu { slot: 0, retry: 0, exit: None, step: RunStep::Done(err) };
        },
    };
    let exit = Some(reset_backend_exit_outputs());
    if !vcpu_runnable(bridge, slot) {
        return RunVcpu { slot, retry: 0, exit, step: RunStep::Done(-EINVAL) };
    }
    RunVcpu { slot, retry: 0, exit, step: RunStep::CurrentTask }
}

impl RunVcpu {
    fn current_outputs(&self) -> (exit: BackendExit)
        ensures
            exit == self.outputs(),
    {
        match self.exit {
            Some(exit) => exit,
            None => reset_backend_exit_outputs(),
        }
    }

    fn end_with(&mut self, exit: BackendExit)
        ensures
            *final(self) == old(self).exiting(exit),
    {
        self.exit = Some(exit);
        self.step = RunStep::Leave { ret: 0 };
    }

    fn end_for(&mut self, env: &mut Backend, reason: u32)
        requires
            old(self).wf(),
            old(env).wf(),
        ensures
            final(env).wf(),
            *final(self) == old(self).exiting_for(reason),
            final(env)@ == old(env)@.reads_cleared(old(self).slot),
    {
        clear_vcpu_pending_reads(&mut env.bridge, self.slot);
        let mut exit = self.current_outputs();
        exit.reason = reason;
        self.end_with(exit);
    }

    fn start_progress(&mut self, env: &mut Backend, clear: bool, on_interrupt: OnInterrupt)
        requires
            old(self).wf(),
            old(env).wf(),
        ensures
            final(env).wf(),
            (*final(self), final(env)@) == to_progress(*old(self), old(env)@, clear, on_interrupt),
    {
        let progress = make_internal_run_progress(env, self.slot, clear);
        self.step = RunStep::Progress { on_interrupt, progress };
    }

    fn start_spin(&mut self, env: &mut Backend)
        requires
            old(self).wf(),
            old(env).wf(),
        ensures
            final(env).wf(),
            (*final(self), final(env)@) == to_spin(*old(self), old(env)@),
    {
        if (env.bridge.vcpus[self.slot].id as usize) < MAX_VCPUS {
            self.step = RunStep::SpinOnline;
        } else {
            self.start_progress(env, false, OnInterrupt::Stop);
        }
    }

    fn decide_spin(&mut self, env: &mut Backend, online: usize, rip: Option<u64>)
        requires
            old(self).wf(),
            old(env).wf(),
            old(env)@.vcpu_at(old(self).slot).id < MAX_VCPUS,
        ensures
            final(env).wf(),
            (*final(self), final(env)@) == spin_decided(*old(self), old(env)@, online, rip),
    {
        let vcpu = vcpu_ref_at(env, self.slot);
        match env.soft_ple.soft_ple_maybe_park(&env.bridge, self.slot, online, rip) {
            SpinAction::Nothing => {
                self.start_progress(env, false, OnInterrupt::Stop);
            },
            SpinAction::Restore => {
                self.step = RunStep::SpinRestore { vcpu };
            },
            SpinAction::HandOff => {
                self.step = RunStep::SpinYield { vcpu };
            },
        }
    }

    fn finish_access(&mut self, env: &mut Backend, exit: VcpuExit, code: i32)
        requires
            old(self).wf(),
            old(env).wf(),
        ensures
            final(env).wf(),
            (*final(self), final(env)@) == access_done(*old(self), old(env)@, exit, code),
    {
        if code == 0 {
            self.start_progress(env, true, OnInterrupt::Leave);
            return ;
        }
        if code != -EOPNOTSUPP {
            self.step = RunStep::Leave { ret: code };
            return ;
        }
        let mut out = self.current_outputs();
        match exit {
            VcpuExit::MmioRead { addr, width, reg, reg_width, signed_ext } => {
                prepare_userspace_mmio_read_exit(
                    &mut env.bridge,
                    self.slot,
                    &mut out,
                    addr,
                    width,
                    reg,
                    reg_width,
                    signed_ext,
                );
                self.end_with(out);
            },
            VcpuExit::MmioWrite { addr, width, data } => {
                prepare_userspace_mmio_write_exit(&mut env.bridge, self.slot, &mut out, addr, width, data);
                self.end_with(out);
            },
            VcpuExit::IoRead { port, width } => {
                prepare_userspace_io_read_exit(&mut env.bridge, self.slot, &mut out, port, width);
                self.end_with(out);
            },
            VcpuExit::IoWrite { port, width, data } => {
                prepare_userspace_io_write_exit(&mut env.bridge, self.slot, &mut out, port, width, data);
                self.end_with(out);
            },
            _ => {
                self.end_for(env, AXKVM_BACKEND_EXIT_INTERNAL_ERROR);
            },
        }
    }

    fn continue_access(&mut self, env: &mut Backend, exit: VcpuExit, access: InKernelStep)
        requires
            old(self).wf(),
            old(env).wf(),
        ensures
            final(env).wf(),
            (*final(self), final(env)@) == to_access(*old(self), old(env)@, exit, access),
    {
        match access {
            InKernelStep::Done(code) => {
                self.finish_access(env, exit, code);
            },
            access => {
                self.step = RunStep::InKernel { exit, access };
            },
        }
    }

    fn dispatch(&mut self, env: &mut Backend, result: Result<VcpuExit, i32>)
        requires
            old(self).wf(),
            old(env).wf(),
        ensures
            final(env).wf(),
            (*final(self), final(env)@) == exit_dispatch(*old(self), old(env)@, result),
    {
        let vcpu = vcpu_ref_at(env, self.slot);
        let vcpu_id: usize = vcpu.vcpu_id as usize;
        let exit = match result {
            Err(err) => {
                self.step = RunStep::Leave { ret: err };
                return ;
            },
            Ok(exit) => exit,
        };
        match exit {
            VcpuExit::Nothing | VcpuExit::PreemptionTimer => {
                self.start_spin(env);
            },
            VcpuExit::ExternalInterrupt { vector: _ } => {
                self.start_spin(env);
            },
            VcpuExit::Yield => {
                self.step = RunStep::PauseYield { vcpu };
            },
            VcpuExit::InterruptEnd { vector } => {
                if vector.is_some() {
                    self.step = RunStep::Eoi(complete_x86_external_eoi(vcpu_id, vector));
                } else {
                    self.start_spin(env);
                }
            },
            VcpuExit::MmioRead { addr, width, reg, reg_width, signed_ext } => {
                let access = handle_x86_inkernel_mmio_read(vcpu_id, addr, width, reg, reg_width, signed_ext);
                self.continue_access(env, exit, access);
            },
            VcpuExit::MmioWrite { addr, width, data } => {
                let access = handle_x86_inkernel_mmio_write(addr, width, data);
                self.continue_access(env, exit, access);
            },
            VcpuExit::IoRead { port, width } => {
                let access = handle_x86_inkernel_io_read(vcpu_id, port, width);
                self.continue_access(env, exit, access);
            },
            VcpuExit::IoWrite { port, width, data } => {
                let access = handle_x86_inkernel_io_write(port, width, data);
                self.continue_access(env, exit, access);
            },
            VcpuExit::Halt => {
                self.step = RunStep::HaltExpire;
            },
            VcpuExit::SystemDown => {
                self.end_for(env, AXKVM_BACKEND_EXIT_SHUTDOWN);
            },
            VcpuExit::FailEntry { hardware_entry_failure_reason } => {
                clear_vcpu_pending_reads(&mut env.bridge, self.slot);
                let mut out = self.current_outputs();
                out.reason = AXKVM_BACKEND_EXIT_FAIL_ENTRY;
                out.hardware_entry_failure_reason = hardware_entry_failure_reason;
                self.end_with(out);
            },
            VcpuExit::CpuUp { target_cpu, entry_point, arg: _ } => {
                self.step = RunStep::CpuUpFind { target_cpu, entry_point };
            },
            VcpuExit::Hypercall { nr: _, args: _ } => {
                self.step = RunStep::HypercallFind { vcpu_id: vcpu.vcpu_id };
            },
            VcpuExit::NestedPageFault { addr, access_flags } => {
                self.step = RunStep::FaultIn { vm_handle: vcpu.vm_handle, gpa: addr.0, write: access_flags.write };
            },
            VcpuExit::Other => {
                self.end_for(env, AXKVM_BACKEND_EXIT_INTERNAL_ERROR);
            },
        }
    }

    fn finish_apply_state(&mut self, env: &mut Backend, ret: i32)
        requires
            old(self).wf(),
            old(env).wf(),
        ensures
            final(env).wf(),
            (*final(self), final(env)@) == state_applied(*old(self), old(env)@, ret),
    {
        if ret != 0 {
            self.step = RunStep::Leave { ret };
            return ;
        }
        let vcpu = vcpu_ref_at(env, self.slot);
        env.soft_ple.soft_ple_reset(vcpu.vcpu_id as usize);
        self.step = RunStep::StartRestore { vcpu };
    }

    fn enter_done(&mut self, env: &mut Backend)
        requires
            old(self).wf(),
            old(env).wf(),
        ensures
            final(env).wf(),
            (*final(self), final(env)@) == run_entered(*old(self), old(env)@),
    {
        match apply_vcpu_state_if_booted(&mut env.bridge, self.slot) {
            ApplyStep::Apply { vcpu_id } => {
                self.step = RunStep::ApplyState { vcpu_id };
            },
            ApplyStep::Done(ret) => {
                self.finish_apply_state(env, ret);
            },
        }
    }

    fn resume_cpu_up(&mut self, env: &mut Backend, target_cpu: u64, entry_point: GuestPhysAddr, found: bool)
        requires
            old(self).wf(),
            old(env).wf(),
            old(self).step == (RunStep::CpuUpFind { target_cpu, entry_point }),
        ensures
            final(env).wf(),
            final(self).wf(),
            (*final(self), final(env)@) == run_next(*old(self), old(env)@, HostReply::Flag(found)),
    {
        if !found {
            self.step = RunStep::Leave { ret: -EINVAL };
            return ;
        }
        match handle_x86_cpu_up_exit(&env.bridge, self.slot, target_cpu) {
            CpuUpAction::Refuse(err) => {
                self.step = RunStep::Leave { ret: err };
            },
            CpuUpAction::Duplicate => {
                self.start_progress(env, true, OnInterrupt::Leave);
            },
            CpuUpAction::Setup { target_slot } => {
                self.step = RunStep::CpuUpSetup { target_cpu, entry_point, target_slot };
            },
        }
    }

    fn resume_cpu_up_setup(
        &mut self,
        env: &mut Backend,
        target_cpu: u64,
        entry_point: GuestPhysAddr,
        target_slot: usize,
        outcome: Result<(), i32>,
    )
        requires
            old(self).wf(),
            old(env).wf(),
            old(self).step == (RunStep::CpuUpSetup { target_cpu, entry_point, target_slot }),
        ensures
            final(env).wf(),
            final(self).wf(),
            (*final(self), final(env)@) == run_next(*old(self), old(env)@, HostReply::Outcome(outcome)),
    {
        match outcome {
            Err(err) => {
                self.step = RunStep::Leave { ret: err };
            },
            Ok(_) => {
                let ghost before = env@.bridge;
                env.bridge.vcpus[target_slot].sipi_started = true;
                proof {
                    let v = BackendVcpu { sipi_started: true, ..before.vcpus[target_slot as int] };
                    assert(env@.bridge =~= before.with_vcpu_at(target_slot as int, v));
                    lemma_vcpu_update_keeps_inv(before, target_slot as int, v);
                }
                clear_vcpu_pending_reads(&mut env.bridge, self.slot);
                let mut out = self.current_outputs();
                out.reason = AXKVM_BACKEND_EXIT_CPU_UP;
                out.addr = target_cpu;
                out.data = entry_point.0;
                self.end_with(out);
            },
        }
    }

    fn resume_progress(
        &mut self,
        env: &mut Backend,
        on_interrupt: OnInterrupt,
        progress: ProgressStep,
        reply: HostReply,
    )
        requires
            old(self).wf(),
            old(env).wf(),
            old(self).retry < usize::MAX,
            old(self).step == (RunStep::Progress { on_interrupt, progress }),
        ensures
            final(env).wf(),
            final(self).wf(),
            (*final(self), final(env)@) == run_next(*old(self), old(env)@, reply),
            final(self).retry <= old(self).retry + 1,
    {
        match progress_resume(progress, env, &mut self.retry, reply) {
            ProgressStep::Done(ret) => {
                if ret >= 0 {
                    self.step = RunStep::FpuBegin;
                } else if on_interrupt == OnInterrupt::Stop {
                    self.step = RunStep::Interrupted(ret);
                } else {
                    self.step = RunStep::Leave { ret };
                }
            },
            progress => {
                self.step = RunStep::Progress { on_interrupt, progress };
            },
        }
    }

    fn resume_enter(&mut self, env: &mut Backend, enter: EnterStep, reply: HostReply)
        requires
            old(self).wf(),
            old(env).wf(),
            old(self).step == RunStep::Enter(enter),
        ensures
            final(env).wf(),
            final(self).wf(),
            (*final(self), final(env)@) == run_next(*old(self), old(env)@, reply),
    {
        match enter_percpu_resume(enter, &mut env.percpu, reply) {
            EnterStep::Done(ret) => {
                if ret != 0 {
                    self.step = RunStep::Done(ret);
                } else {
                    self.enter_done(env);
                }
            },
            enter => {
                self.step = RunStep::Enter(enter);
            },
        }
    }

    /// Goes on with a run after the host's reply.
    #[verifier::rlimit(40)]
    pub fn resume(&mut self, env: &mut Backend, reply: HostReply)
        requires
            old(self).wf(),
            old(env).wf(),
            old(self).retry < usize::MAX,
        ensures
            final(env).wf(),
            final(self).wf(),
            (*final(self), final(env)@) == run_next(*old(self), old(env)@, reply),
            final(self).retry <= old(self).retry + 1,
    {
        match (self.step, reply) {
            (RunStep::CurrentTask, HostReply::TaskId(task_id)) => {
                let vcpu = vcpu_ref_at(env, self.slot);
                env.contexts.set_current_vcpu_context(task_id, vcpu.vm_handle, vcpu.vcpu_id);
                self.step = RunStep::Enter(enter_percpu());
            },
            (RunStep::Enter(enter), _) => {
                self.resume_enter(env, enter, reply);
            },
            (RunStep::ApplyState { vcpu_id: _ }, HostReply::Outcome(outcome)) => {
                let ret: i32 = finish_apply(&mut env.bridge, self.slot, outcome);
                self.finish_apply_state(env, ret);
            },
            (RunStep::StartRestore { vcpu: _ }, HostReply::Done) => {
                self.step = RunStep::FpuBegin;
            },
            (RunStep::FpuBegin, HostReply::Code(ret)) => {
                if ret != 0 {
                    self.step = RunStep::Leave { ret };
                } else {
                    self.step = RunStep::RunRaw { vcpu_id: env.bridge.vcpus[self.slot].id };
                }
            },
            (RunStep::RunRaw { vcpu_id: _ }, HostReply::Exit(result)) => {
                self.step = RunStep::FpuEnd { result };
            },
            (RunStep::FpuEnd { result }, HostReply::Done) => {
                if should_log_raw_exit(&result, self.retry) {
                    self.step = RunStep::LogExit { result };
                } else {
                    self.dispatch(env, result);
                }
            },
            (RunStep::LogExit { result }, HostReply::Done) => {
                self.dispatch(env, result);
            },
            (RunStep::SpinOnline, HostReply::Online(online)) => {
                if env.bridge.vcpus[self.slot].id as usize >= MAX_VCPUS {
                    self.start_progress(env, false, OnInterrupt::Stop);
                } else if is_oversubscribed(&env.bridge, env.bridge.vcpus[self.slot].vm_handle, online) {
                    self.step = RunStep::SpinRip { online };
                } else {
                    self.decide_spin(env, online, None);
                }
            },
            (RunStep::SpinRip { online }, HostReply::Maybe(rip)) => {
                if env.bridge.vcpus[self.slot].id as usize >= MAX_VCPUS {
                    self.start_progress(env, false, OnInterrupt::Stop);
                } else {
                    self.decide_spin(env, online, rip);
                }
            },
            (RunStep::SpinRestore { vcpu: _ }, HostReply::Done) => {
                self.start_progress(env, false, OnInterrupt::Stop);
            },
            (RunStep::SpinYield { vcpu }, HostReply::Flag(_)) => {
                self.step = RunStep::SpinDemote { vcpu };
            },
            (RunStep::SpinDemote { vcpu: _ }, HostReply::Done) => {
                self.start_progress(env, false, OnInterrupt::Stop);
            },
            (RunStep::PauseYield { vcpu: _ }, HostReply::Flag(_)) => {
                self.start_progress(env, false, OnInterrupt::Stop);
            },
            (RunStep::Eoi(eoi), _) => {
                match eoi_resume(eoi, &env.contexts, reply) {
                    EoiStep::Done => {
                        self.start_progress(env, false, OnInterrupt::Stop);
                    },
                    next => {
                        self.step = RunStep::Eoi(next);
                    },
                }
            },
            (RunStep::Progress { on_interrupt, progress }, _) => {
                self.resume_progress(env, on_interrupt, progress, reply);
            },
            (RunStep::InKernel { exit, access }, _) => {
                let next = inkernel_resume(access, reply);
                self.continue_access(env, exit, next);
            },
            (RunStep::HaltExpire, HostReply::Done) => {
                match progress_x86_virtual_irqs(env.bridge.vcpus[self.slot].id as usize) {
                    VirqStep::Done => {
                        self.step = RunStep::HaltDeadline;
                    },
                    virq => {
                        self.step = RunStep::HaltIrqs(virq);
                    },
                }
            },
            (RunStep::HaltIrqs(virq), _) => {
                match virq_resume(virq, &env.contexts, reply) {
                    VirqStep::Done => {
                        self.step = RunStep::HaltDeadline;
                    },
                    next => {
                        self.step = RunStep::HaltIrqs(next);
                    },
                }
            },
            (RunStep::HaltDeadline, HostReply::Maybe(deadline)) => {
                match arm_x86_idle_wakeup_timer(deadline) {
                    Some(deadline_ns) => {
                        self.step = RunStep::HaltProgram { deadline_ns };
                    },
                    None => {
                        self.end_for(env, AXKVM_BACKEND_EXIT_HLT);
                    },
                }
            },
            (RunStep::HaltProgram { deadline_ns: _ }, HostReply::Done) => {
                self.end_for(env, AXKVM_BACKEND_EXIT_HLT);
            },
            (RunStep::CpuUpFind { target_cpu, entry_point }, HostReply::Flag(found)) => {
                self.resume_cpu_up(env, target_cpu, entry_point, found);
            },
            (RunStep::CpuUpSetup { target_cpu, entry_point, target_slot }, HostReply::Outcome(outcome)) => {
                self.resume_cpu_up_setup(env, target_cpu, entry_point, target_slot, outcome);
            },
            (RunStep::HypercallFind { vcpu_id }, HostReply::Flag(found)) => {
                if found {
                    self.step = RunStep::HypercallSet { vcpu_id, reg: 0, value: HYPERCALL_ENOSYS };
                } else {
                    self.start_progress(env, false, OnInterrupt::Stop);
                }
            },
            (RunStep::HypercallSet { vcpu_id: _, reg: _, value: _ }, HostReply::Done) => {
                self.start_progress(env, false, OnInterrupt::Stop);
            },
            (RunStep::FaultIn { vm_handle: _, gpa: _, write: _ }, HostReply::Code(rc)) => {
                if rc < 0 {
                    self.end_for(env, AXKVM_BACKEND_EXIT_INTERNAL_ERROR);
                } else {
                    self.step = RunStep::FpuBegin;
                }
            },
            (RunStep::Leave { ret }, HostReply::Done) => {
                self.step = RunStep::Done(ret);
            },
            _ => {},
        }
    }
}

/// The task is pinned to its CPU while a step of the housekeeping waits.
pub open spec fn progress_pinned_at(step: ProgressStep) -> bool {
    match step {
        ProgressStep::SpinPark { vcpu } => false,
        ProgressStep::ScheduleNow => false,
        ProgressStep::Reenter { ret, enter } => pinned_at(enter),
        _ => true,
    }
}

/// The task is pinned after a step of the housekeeping was answered.
pub open spec fn progress_pinned_after(step: ProgressStep) -> bool {
    match step {
        ProgressStep::Unpin { vcpu } => false,
        ProgressStep::Reenter { ret, enter } => pinned_after(enter),
        _ => progress_pinned_at(step),
    }
}

/// The task is pinned to its CPU while a step of a run waits.
pub open spec fn run_pinned_at(step: RunStep) -> bool {
    match step {
        RunStep::CurrentTask => false,
        RunStep::Enter(enter) => pinned_at(enter),
        RunStep::Progress { on_interrupt, progress } => progress_pinned_at(progress),
        RunStep::Done(_) => false,
        _ => true,
    }
}

/// The task is pinned after a step of a run was answered.
pub open spec fn run_pinned_after(step: RunStep) -> bool {
    match step {
        RunStep::Enter(enter) => pinned_after(enter),
        RunStep::Progress { on_interrupt, progress } => progress_pinned_after(progress),
        RunStep::Leave { ret } => false,
        _ => run_pinned_at(step),
    }
}

/// Failures to enter guest mode carry an error, and guest mode is entered anew
/// only with success.
pub open spec fn entering_ok(step: RunStep) -> bool {
    match step {
        RunStep::Enter(enter) => enter_error_set(enter) && !(enter is Done),
        RunStep::Progress { on_interrupt, progress: ProgressStep::Reenter { ret, enter } } => !(
        enter is MigrateEnable) && !(enter is Done),
        RunStep::Progress { on_interrupt, progress } => !(progress is Done),
        _ => true,
    }
}

/// A run ends with the task unpinned, unless it was interrupted: every answer
/// takes the pinning to where the next step expects it. This leaves out a host
/// where guest mode cannot be entered anew after the task gave its CPU away.
pub proof fn run_keeps_the_task_pinned(m: RunVcpu, e: BackendView, reply: HostReply)
    requires
        entering_ok(m.step),
        entering_ok(run_next(m, e, reply).0.step),
        reply matches HostReply::Outcome(Err(err)) ==> err != 0,
        run_next(m, e, reply).0.step != m.step,
    ensures
        run_pinned_after(m.step) == run_pinned_at(run_next(m, e, reply).0.step),
{
    match m.step {
        RunStep::Enter(enter) => {
            entering_pins_exactly_on_success(enter, e.percpu, reply);
            let after = e.with_percpu(enter_next(enter, e.percpu, reply).1);
            lemma_entered_run_is_pinned(m, after);
        },
        RunStep::Progress { on_interrupt, progress } => {
            lemma_progress_pins(progress, e, m.retry, reply);
        },
        RunStep::FpuEnd { result } => {
            lemma_dispatch_is_pinned(m, e, result);
        },
        RunStep::LogExit { result } => {
            lemma_dispatch_is_pinned(m, e, result);
        },
        RunStep::InKernel { exit, access } => {
            lemma_access_is_pinned(m, e, exit, inkernel_next(access, reply));
        },
        RunStep::ApplyState { vcpu_id } => {},
        RunStep::CpuUpFind { target_cpu, entry_point } => {},
        RunStep::SpinOnline => {},
        RunStep::SpinRip { online } => {},
        _ => {},
    }
}

proof fn lemma_entered_run_is_pinned(m: RunVcpu, e: BackendView)
    ensures
        run_pinned_at(run_entered(m, e).0.step),
{
}

proof fn lemma_access_is_pinned(m: RunVcpu, e: BackendView, exit: VcpuExit, access: InKernelStep)
    ensures
        run_pinned_at(to_access(m, e, exit, access).0.step),
{
}

proof fn lemma_dispatch_is_pinned(m: RunVcpu, e: BackendView, result: Result<VcpuExit, i32>)
    ensures
        run_pinned_at(exit_dispatch(m, e, result).0.step),
{
}

proof fn lemma_progress_pins(step: ProgressStep, e: BackendView, retry: usize, reply: HostReply)
    requires
        step matches ProgressStep::Reenter { ret, enter } ==> !(enter is MigrateEnable) && !(enter is Done),
        progress_next(step, e, retry, reply).0 matches ProgressStep::Reenter { ret, enter } ==> !(
        enter is MigrateEnable) && !(enter is Done),
        reply matches HostReply::Outcome(Err(err)) ==> err != 0,
        progress_next(step, e, retry, reply).0 != step,
    ensures
        progress_pinned_after(step) == progress_pinned_at(progress_next(step, e, retry, reply).0),
{
}

/// The guest's FPU state is loaded exactly while the vCPU is in guest mode: it is
/// loaded right before, and saved right after, whatever the exit.
pub proof fn fpu_is_loaded_for_guest_mode_only(m: RunVcpu, e: BackendView, reply: HostReply)
    ensures
        ({
            let next = run_next(m, e, reply).0.step;
            &&& next is RunRaw ==> m.step is RunRaw || (m.step is FpuBegin && reply == HostReply::Code(0))
            &&& m.step is RunRaw ==> next is RunRaw || next is FpuEnd
            &&& next is FpuEnd ==> m.step is RunRaw || m.step is FpuEnd
        }),
{
}

/// An exit is logged exactly where it is worth a line, and what follows is the same
/// whether it was logged or not.
pub proof fn logging_an_exit_changes_nothing_else(m: RunVcpu, e: BackendView, result: Result<VcpuExit, i32>)
    requires
        m.step == (RunStep::FpuEnd { result }),
    ensures
        ({
            let next = run_next(m, e, HostReply::Done);
            let after = if exit_logged(result, m.retry) {
                run_next(next.0, next.1, HostReply::Done)
            } else {
                next
            };
            &&& next.0.step is LogExit <==> exit_logged(result, m.retry)
            &&& after == exit_dispatch(m, e, result)
        }),
{
}

/// A run of the boot controller never comes to a hand-off: it neither yields nor is
/// demoted as a spinning vCPU.
pub proof fn boot_controller_run_is_never_handed_off(m: RunVcpu, e: BackendView, reply: HostReply)
    requires
        boot_controller(e.vcpu_at(m.slot).id),
        !(m.step is SpinYield),
        !(m.step is SpinDemote),
    ensures
        !(run_next(m, e, reply).0.step is SpinYield),
        !(run_next(m, e, reply).0.step is SpinDemote),
{
}

/// A run changes no VM record and no recorded page, and of the other vCPUs only
/// whether they were started.
#[verifier::rlimit(60)]
#[verifier::spinoff_prover]
pub proof fn run_touches_its_own_vcpu(m: RunVcpu, e: BackendView, reply: HostReply)
    requires
        m.wf(),
        e.bridge.shaped(),
    ensures
        ({
            let after = run_next(m, e, reply).1;
            &&& after.bridge.vms == e.bridge.vms
            &&& after.bridge.mappings == e.bridge.mappings
            &&& after.bridge.vcpus.len() == e.bridge.vcpus.len()
            &&& forall|i: int|
                0 <= i < e.bridge.vcpus.len() && i != m.slot ==> {
                    ||| #[trigger] after.bridge.vcpus[i] == e.bridge.vcpus[i]
                    ||| after.bridge.vcpus[i] == (BackendVcpu { sipi_started: true, ..e.bridge.vcpus[i] })
                }
        }),
{
}

/// What a vCPU waits for is what the caller was told: a run that ends for a read
/// from outside leaves exactly that read waiting, with the width it was told, and
/// a run that ends for anything else leaves none.
#[verifier::rlimit(60)]
#[verifier::spinoff_prover]
pub proof fn run_ends_with_the_read_it_reports(m: RunVcpu, e: BackendView, reply: HostReply)
    requires
        m.wf(),
        e.bridge.shaped(),
        !(m.step is Leave),
        reply matches HostReply::Outcome(Err(err)) ==> err != 0,
        reply matches HostReply::Exit(Err(err)) ==> err != 0,
        m.step matches RunStep::FpuEnd { result } ==> result matches Err(err) ==> err != 0,
        m.step matches RunStep::LogExit { result } ==> result matches Err(err) ==> err != 0,
        m.step matches RunStep::InKernel { exit, access } ==> {
            ||| exit is MmioRead
            ||| exit is MmioWrite
            ||| exit is IoRead
            ||| exit is IoWrite
        },
        run_next(m, e, reply).0.step == (RunStep::Leave { ret: 0 }),
    ensures
        ({
            let exit = run_next(m, e, reply).0.outputs();
            let v = run_next(m, e, reply).1.vcpu_at(m.slot);
            &&& v.pending_mmio_read.active == (exit.reason == AXKVM_BACKEND_EXIT_MMIO_READ)
            &&& v.pending_io_read.active == (exit.reason == AXKVM_BACKEND_EXIT_IO_READ)
            &&& v.pending_mmio_read.active ==> exit.width == v.pending_mmio_read.width.bytes()
            &&& v.pending_io_read.active ==> exit.width == v.pending_io_read.width.bytes()
        }),
{
}

} // verus!
