//! The housekeeping between two guest entries of one run.
use vstd::prelude::*;

use crate::env::{Backend, BackendView};
use crate::host::{log_checkpoint, note_internal_run_progress, HostReply, VcpuRef};
use crate::irq::{progress_x86_virtual_irqs, virq_next, virq_resume, virq_start, VirqStep};
use crate::percpu::{enter_next, enter_percpu, enter_percpu_resume, EnterStep};
use crate::soft_ple::{is_oversubscribed, oversubscribed};
use crate::state::MAX_VCPUS;
use crate::vcpu::clear_vcpu_pending_reads;

verus! {

/// The housekeeping between two guest entries. Timers are drained, device
/// interrupts delivered and the exit counted, which is logged at checkpoints of the
/// count; then the host may reschedule. With
/// more vCPUs than host CPUs every vCPU's timers are drained, and the task gives
/// its CPU away: it is unpinned, parked or rescheduled, and enters guest mode
/// anew. `Done` holds a negative number where the park was interrupted.
#[derive(Clone, Copy, Debug, PartialEq, Eq, Structural)]
pub enum ProgressStep {
    /// Tell how many host CPUs are online.
    OnlineCpus { vcpu: VcpuRef },
    /// Drain the due timers: of every vCPU, or of the calling one.
    ExpireTimers { vcpu: VcpuRef, all: bool },
    /// Deliver device interrupts.
    VirtualIrqs { vcpu: VcpuRef, scarce: bool, virq: VirqStep },
    /// Log how many internal exits the run has had.
    Log { vcpu: VcpuRef, scarce: bool, count: usize },
    /// Yield towards a waiting vCPU.
    DirectedYield { vcpu: VcpuRef },
    /// Unpin the task.
    Unpin { vcpu: VcpuRef },
    /// Park a spinning vCPU, where the host sees fit.
    SpinPark { vcpu: VcpuRef },
    /// Run the host's scheduler.
    ScheduleNow,
    /// Enter guest mode anew; the result is `ret` either way.
    Reenter { ret: i32, enter: EnterStep },
    /// Reschedule where the host asks for it.
    CondResched,
    Done(i32),
}

/// The tables at the start of the housekeeping.
pub open spec fn progress_tables(e: BackendView, slot: usize, clear_pending_reads: bool) -> BackendView {
    if clear_pending_reads {
        e.reads_cleared(slot)
    } else {
        e
    }
}

/// The vCPU at a position.
pub open spec fn vcpu_ref(e: BackendView, slot: usize) -> VcpuRef {
    VcpuRef { vm_handle: e.vcpu_at(slot).vm_handle, vcpu_id: e.vcpu_at(slot).id }
}

/// The vCPU at a position.
pub fn vcpu_ref_at(env: &Backend, slot: usize) -> (r: VcpuRef)
    requires
        env.wf(),
        slot < MAX_VCPUS,
    ensures
        r == vcpu_ref(env@, slot),
{
    VcpuRef { vm_handle: env.bridge.vcpus[slot].vm_handle, vcpu_id: env.bridge.vcpus[slot].id }
}

/// Begins the housekeeping of a vCPU's run; reads that wait for data are forgotten
/// first where asked for.
pub fn make_internal_run_progress(env: &mut Backend, slot: usize, clear_pending_reads: bool) -> (step: ProgressStep)
    requires
        old(env).wf(),
        slot < MAX_VCPUS,
    ensures
        final(env).wf(),
        final(env)@ == progress_tables(old(env)@, slot, clear_pending_reads),
        step == (ProgressStep::OnlineCpus { vcpu: vcpu_ref(old(env)@, slot) }),
{
    let vcpu = vcpu_ref_at(env, slot);
    if clear_pending_reads {
        clear_vcpu_pending_reads(&mut env.bridge, slot);
    }
    ProgressStep::OnlineCpus { vcpu }
}

/// The step after the exit was counted and logged.
pub open spec fn progress_tail(vcpu: VcpuRef, scarce: bool) -> ProgressStep {
    if scarce {
        ProgressStep::DirectedYield { vcpu }
    } else {
        ProgressStep::CondResched
    }
}

/// The step after the exit was counted: the count is logged where it is due.
pub open spec fn progress_counted(vcpu: VcpuRef, scarce: bool, count: usize) -> ProgressStep {
    if log_checkpoint(count) {
        ProgressStep::Log { vcpu, scarce, count }
    } else {
        progress_tail(vcpu, scarce)
    }
}

/// A step of the housekeeping after a reply, the tables after it, and the count of
/// internal exits.
pub open spec fn progress_next(step: ProgressStep, e: BackendView, retry: usize, reply: HostReply) -> (
    ProgressStep,
    BackendView,
    usize,
) {
    match (step, reply) {
        (ProgressStep::OnlineCpus { vcpu }, HostReply::Online(online)) => (
            ProgressStep::ExpireTimers { vcpu, all: oversubscribed(e.bridge, vcpu.vm_handle, online) },
            e,
            retry,
        ),
        (ProgressStep::ExpireTimers { vcpu, all }, HostReply::Done) => match virq_start(vcpu.vcpu_id as usize) {
            VirqStep::Done => (progress_counted(vcpu, all, (retry + 1) as usize), e, (retry + 1) as usize),
            virq => (ProgressStep::VirtualIrqs { vcpu, scarce: all, virq }, e, retry),
        },
        (ProgressStep::VirtualIrqs { vcpu, scarce, virq }, _) => match virq_next(virq, e.contexts, reply) {
            VirqStep::Done => (progress_counted(vcpu, scarce, (retry + 1) as usize), e, (retry + 1) as usize),
            next => (ProgressStep::VirtualIrqs { vcpu, scarce, virq: next }, e, retry),
        },
        (ProgressStep::Log { vcpu, scarce, count }, HostReply::Done) => (progress_tail(vcpu, scarce), e, retry),
        (ProgressStep::DirectedYield { vcpu }, HostReply::Flag(_)) => (ProgressStep::Unpin { vcpu }, e, retry),
        (ProgressStep::Unpin { vcpu }, HostReply::Done) => (ProgressStep::SpinPark { vcpu }, e, retry),
        (ProgressStep::SpinPark { vcpu }, HostReply::Code(park)) => if park < 0 {
            (ProgressStep::Reenter { ret: park, enter: EnterStep::MigrateDisable }, e, retry)
        } else if park == 0 {
            (ProgressStep::ScheduleNow, e, retry)
        } else {
            (ProgressStep::Reenter { ret: 0, enter: EnterStep::MigrateDisable }, e, retry)
        },
        (ProgressStep::ScheduleNow, HostReply::Done) => (
            ProgressStep::Reenter { ret: 0, enter: EnterStep::MigrateDisable },
            e,
            retry,
        ),
        (ProgressStep::Reenter { ret, enter }, _) => {
            let next = enter_next(enter, e.percpu, reply);
            match next.0 {
                EnterStep::Done(_) => (ProgressStep::Done(ret), e.with_percpu(next.1), retry),
                enter => (ProgressStep::Reenter { ret, enter }, e.with_percpu(next.1), retry),
            }
        },
        (ProgressStep::CondResched, HostReply::Code(_)) => (ProgressStep::Done(0), e, retry),
        _ => (step, e, retry),
    }
}

fn after_logging(vcpu: VcpuRef, scarce: bool) -> (step: ProgressStep)
    ensures
        step == progress_tail(vcpu, scarce),
{
    if scarce {
        ProgressStep::DirectedYield { vcpu }
    } else {
        ProgressStep::CondResched
    }
}

fn count_exit(vcpu: VcpuRef, scarce: bool, retry_count: &mut usize) -> (step: ProgressStep)
    requires
        *old(retry_count) < usize::MAX,
    ensures
        *final(retry_count) == *old(retry_count) + 1,
        step == progress_counted(vcpu, scarce, *final(retry_count)),
{
    if note_internal_run_progress(retry_count) {
        ProgressStep::Log { vcpu, scarce, count: *retry_count }
    } else {
        after_logging(vcpu, scarce)
    }
}

/// Goes on with the housekeeping after the host's reply.
pub fn progress_resume(step: ProgressStep, env: &mut Backend, retry_count: &mut usize, reply: HostReply) -> (next:
    ProgressStep)
    requires
        old(env).wf(),
        *old(retry_count) < usize::MAX,
    ensures
        final(env).wf(),
        (next, final(env)@, *final(retry_count)) == progress_next(step, old(env)@, *old(retry_count), reply),
        *final(retry_count) <= *old(retry_count) + 1,
        final(env)@ == old(env)@.with_percpu(final(env)@.percpu),
{
    match (step, reply) {
        (ProgressStep::OnlineCpus { vcpu }, HostReply::Online(online)) => ProgressStep::ExpireTimers {
            vcpu,
            all: is_oversubscribed(&env.bridge, vcpu.vm_handle, online),
        },
        (ProgressStep::ExpireTimers { vcpu, all }, HostReply::Done) => match progress_x86_virtual_irqs(
            vcpu.vcpu_id as usize,
        ) {
            VirqStep::Done => count_exit(vcpu, all, retry_count),
            virq => ProgressStep::VirtualIrqs { vcpu, scarce: all, virq },
        },
        (ProgressStep::VirtualIrqs { vcpu, scarce, virq }, _) => match virq_resume(virq, &env.contexts, reply) {
            VirqStep::Done => count_exit(vcpu, scarce, retry_count),
            next => ProgressStep::VirtualIrqs { vcpu, scarce, virq: next },
        },
        (ProgressStep::Log { vcpu, scarce, count: _ }, HostReply::Done) => after_logging(vcpu, scarce),
        (ProgressStep::DirectedYield { vcpu }, HostReply::Flag(_)) => ProgressStep::Unpin { vcpu },
        (ProgressStep::Unpin { vcpu }, HostReply::Done) => ProgressStep::SpinPark { vcpu },
        (ProgressStep::SpinPark { vcpu: _ }, HostReply::Code(park)) => if park < 0 {
            ProgressStep::Reenter { ret: park, enter: enter_percpu() }
        } else if park == 0 {
            ProgressStep::ScheduleNow
        } else {
            ProgressStep::Reenter { ret: 0, enter: enter_percpu() }
        },
        (ProgressStep::ScheduleNow, HostReply::Done) => ProgressStep::Reenter { ret: 0, enter: enter_percpu() },
        (ProgressStep::Reenter { ret, enter }, _) => match enter_percpu_resume(enter, &mut env.percpu, reply) {
            EnterStep::Done(_) => ProgressStep::Done(ret),
            enter => ProgressStep::Reenter { ret, enter },
        },
        (ProgressStep::CondResched, HostReply::Code(_)) => ProgressStep::Done(0),
        _ => step,
    }
}

/// While host CPUs are not scarce the housekeeping never unpins the task, and it
/// cannot be interrupted.
pub open spec fn progress_undisturbed(step: ProgressStep) -> bool {
    match step {
        ProgressStep::OnlineCpus { vcpu } => true,
        ProgressStep::ExpireTimers { vcpu, all } => !all,
        ProgressStep::VirtualIrqs { vcpu, scarce, virq } => !scarce,
        ProgressStep::Log { vcpu, scarce, count } => !scarce,
        ProgressStep::CondResched => true,
        ProgressStep::Done(ret) => ret == 0,
        _ => false,
    }
}

/// A run on a host with CPUs to spare keeps its CPU throughout the housekeeping.
pub proof fn progress_keeps_its_cpu_without_scarcity(step: ProgressStep, e: BackendView, retry: usize, reply: HostReply)
    requires
        progress_undisturbed(step),
        step matches ProgressStep::OnlineCpus { vcpu } ==> reply matches HostReply::Online(online)
            ==> !oversubscribed(e.bridge, vcpu.vm_handle, online),
    ensures
        progress_undisturbed(progress_next(step, e, retry, reply).0),
{
}

/// The count of internal exits is logged exactly when it reaches a checkpoint, with
/// the count that was reached.
pub proof fn internal_exits_are_logged_at_checkpoints(step: ProgressStep, e: BackendView, retry: usize, reply: HostReply)
    requires
        retry < usize::MAX,
        !(step is Log),
    ensures
        ({
            let next = progress_next(step, e, retry, reply);
            &&& next.0 is Log <==> next.2 == retry + 1 && log_checkpoint(next.2)
            &&& next.0 matches ProgressStep::Log { vcpu, scarce, count } ==> count == next.2
        }),
{
}

} // verus!
