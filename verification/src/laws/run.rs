//! What a run of a vCPU does with each exit, and what it tells the caller.
use vstd::prelude::*;

use crate::access::{AccessWidth, GuestPhysAddr, Port};
use crate::bytes::pow256;
use crate::env::{Backend, BackendView};
use crate::host::{HostReply, VcpuExit, VcpuRef};
use crate::inkernel::{inkernel_resume, InKernelStep};
use crate::irq::{eoi_resume, virq_resume, EoiStep, VirqStep};
use crate::laws::access::{is_rest, lemma_truncated};
use crate::laws::codes::{invalid, unsupported};
use crate::laws::inkernel::{right_device, served_port};
use crate::percpu::{enter_percpu_resume, EnterStep, PercpuTable};
use crate::progress::{progress_resume, ProgressStep};
use crate::run::{
    apply_vcpu_state_if_booted, axvisor_kvm_rs_run_vcpu, finish_apply, handle_x86_cpu_up_exit,
    prepare_userspace_io_read_exit, prepare_userspace_io_write_exit, prepare_userspace_mmio_read_exit,
    prepare_userspace_mmio_write_exit, reset_backend_exit_outputs, ApplyStep, BackendExit, CpuUpAction, OnInterrupt,
    RunStep, RunVcpu,
};
use crate::soft_ple::{SoftPle, SpinAction};
use crate::state::{BackendVcpu, Bridge, BridgeView};

verus! {

/// A reference to the vCPU of a record.
pub open spec fn refers_to(vcpu: VcpuRef, v: BackendVcpu) -> bool {
    vcpu.vm_handle == v.vm_handle && vcpu.vcpu_id == v.id
}

/// A run that begins its housekeeping, for the vCPU of a record.
pub open spec fn keeps_house(step: RunStep, v: BackendVcpu, on: OnInterrupt) -> bool {
    step matches RunStep::Progress { on_interrupt, progress: ProgressStep::OnlineCpus { vcpu } } && on_interrupt == on
        && refers_to(vcpu, v)
}

/// No read of a vCPU waits for data.
pub open spec fn waits_for_nothing(v: BackendVcpu) -> bool {
    !v.pending_mmio_read.active && !v.pending_io_read.active
}

/// A record that differs at most in the reads that wait.
pub open spec fn same_but_for_reads(was: BackendVcpu, now: BackendVcpu) -> bool {
    now == (BackendVcpu { pending_mmio_read: now.pending_mmio_read, pending_io_read: now.pending_io_read, ..was })
}

/// Tables that differ at most in the record of one vCPU.
pub open spec fn same_but_for(was: BackendView, now: BackendView, slot: int) -> bool {
    &&& now.bridge.vms == was.bridge.vms
    &&& now.bridge.mappings == was.bridge.mappings
    &&& now.bridge.vcpus.len() == was.bridge.vcpus.len()
    &&& forall|i: int|
        0 <= i < was.bridge.vcpus.len() && i != slot ==> #[trigger] now.bridge.vcpus[i] == was.bridge.vcpus[i]
    &&& now.contexts == was.contexts
    &&& now.soft_ple == was.soft_ple
    &&& now.percpu == was.percpu
}

/// The access that an exit is about, as the caller is told of it.
pub open spec fn tells_the_access(out: BackendExit, exit: VcpuExit) -> bool {
    match exit {
        VcpuExit::MmioRead { addr, width, reg, reg_width, signed_ext } => out.reason == 1 && out.addr == addr.0 && out.width
            == width.bytes(),
        VcpuExit::MmioWrite { addr, width, data } => out.reason == 2 && out.addr == addr.0 && out.width == width.bytes()
            && out.data == data,
        VcpuExit::IoRead { port, width } => out.reason == 3 && out.addr == port.0 && out.width == width.bytes(),
        VcpuExit::IoWrite { port, width, data } => out.reason == 4 && out.addr == port.0 && out.width == width.bytes()
            && out.data == data,
        _ => false,
    }
}

/// What waits after an access was left to the caller: exactly the read that it is,
/// with its widths, register and extension; nothing after a write.
pub open spec fn waits_for_the_access(v: BackendVcpu, exit: VcpuExit) -> bool {
    match exit {
        VcpuExit::MmioRead { addr, width, reg, reg_width, signed_ext } => {
            let p = v.pending_mmio_read;
            &&& p.active && p.width == width && p.reg == reg && p.reg_width == reg_width && p.signed_ext == signed_ext
            &&& !v.pending_io_read.active
        },
        VcpuExit::IoRead { port, width } => {
            &&& v.pending_io_read.active && v.pending_io_read.width == width
            &&& !v.pending_mmio_read.active
        },
        _ => waits_for_nothing(v),
    }
}

/// An access of the guest.
pub open spec fn is_access(exit: VcpuExit) -> bool {
    exit is MmioRead || exit is MmioWrite || exit is IoRead || exit is IoWrite
}

/// An access that no device in the kernel serves ends the run, and the caller is told
/// the guest's own access: its address or port, its width, and for a write exactly
/// the data that the guest wrote. A read then waits, as the guest made it. An access
/// that was served, or failed, never ends a run that way.
pub proof fn unserved_access_is_told_as_made(
    m: &mut RunVcpu,
    env: &mut Backend,
    reply: HostReply,
    exit: VcpuExit,
    access: InKernelStep,
    served: InKernelStep,
)
    requires
        old(m).wf(),
        old(env).wf(),
        old(m).retry < usize::MAX,
        is_access(exit),
        old(m).step == (RunStep::InKernel { exit, access }),
        call_ensures(RunVcpu::resume, (m, env, reply), ()),
        call_ensures(inkernel_resume, (access, reply), served),
    ensures
        ({
            let slot = old(m).slot as int;
            let was = old(env)@.bridge.vcpus[slot];
            let now = final(env)@.bridge.vcpus[slot];
            &&& served == InKernelStep::Done(unsupported()) ==> {
                &&& final(m).step == (RunStep::Leave { ret: 0 })
                &&& final(m).exit matches Some(out)
                &&& tells_the_access(out, exit)
                &&& waits_for_the_access(now, exit)
                &&& same_but_for_reads(was, now)
            }
            &&& served == InKernelStep::Done(0) ==> {
                &&& keeps_house(final(m).step, was, OnInterrupt::Leave)
                &&& waits_for_nothing(now)
                &&& same_but_for_reads(was, now)
                &&& final(m).exit == old(m).exit
            }
            &&& served matches InKernelStep::Done(err) ==> err != 0 && err != unsupported() ==> {
                &&& final(m).step == (RunStep::Leave { ret: err })
                &&& final(env)@ == old(env)@
                &&& final(m).exit == old(m).exit
            }
            &&& !(served is Done) ==> {
                &&& final(m).step == (RunStep::InKernel { exit, access: served })
                &&& final(env)@ == old(env)@
                &&& final(m).exit == old(m).exit
            }
            &&& same_but_for(old(env)@, final(env)@, slot)
            &&& final(m).slot == old(m).slot && final(m).retry == old(m).retry
        }),
{
}

/// An exit for a memory-mapped access first asks for a device at the access's
/// address, and an exit for a port the port's own device, with the guest's own data
/// cut to the width; a port that no device serves is left to the caller at once.
pub proof fn access_is_offered_to_the_kernel_first(m: &mut RunVcpu, env: &mut Backend, exit: VcpuExit)
    requires
        old(m).wf(),
        old(env).wf(),
        old(m).retry < usize::MAX,
        is_access(exit),
        old(m).step == (RunStep::LogExit { result: Ok(exit) }),
        call_ensures(RunVcpu::resume, (m, env, HostReply::Done), ()),
    ensures
        ({
            let slot = old(m).slot as int;
            let v = old(env)@.bridge.vcpus[slot];
            let next = final(m).step;
            &&& exit matches VcpuExit::MmioRead { addr, width, reg, reg_width, signed_ext } ==> next matches RunStep::InKernel {
                exit: e,
                access: InKernelStep::FindMmioForRead { read },
            } && e == exit && read.vcpu_id == v.id && read.addr == addr && read.width == width && read.reg == reg
                && read.reg_width == reg_width && read.signed_ext == signed_ext
            &&& exit matches VcpuExit::MmioWrite { addr, width, data } ==> next matches RunStep::InKernel {
                exit: e,
                access: InKernelStep::FindMmioForWrite { addr: a, width: w, value },
            } && e == exit && a == addr && w == width && is_rest(data as int, pow256(width.bytes() as nat), value as int)
            &&& exit matches VcpuExit::IoRead { port, width } ==> if served_port(port) {
                next matches RunStep::InKernel {
                    exit: e,
                    access: InKernelStep::ReadPort { vcpu_id, device, port: p, width: w },
                } && e == exit && vcpu_id == v.id && right_device(port, device) && p == port && w == width
            } else {
                &&& next == (RunStep::Leave { ret: 0 })
                &&& final(m).exit matches Some(out)
                &&& tells_the_access(out, exit)
                &&& waits_for_the_access(final(env)@.bridge.vcpus[slot], exit)
            }
            &&& exit matches VcpuExit::IoWrite { port, width, data } ==> if served_port(port) {
                next matches RunStep::InKernel {
                    exit: e,
                    access: InKernelStep::WritePort { device, port: p, width: w, value },
                } && e == exit && right_device(port, device) && p == port && w == width && is_rest(
                    data as int,
                    pow256(width.bytes() as nat),
                    value as int,
                )
            } else {
                &&& next == (RunStep::Leave { ret: 0 })
                &&& final(m).exit matches Some(out)
                &&& tells_the_access(out, exit)
                &&& waits_for_the_access(final(env)@.bridge.vcpus[slot], exit)
            }
            &&& same_but_for(old(env)@, final(env)@, slot)
            &&& same_but_for_reads(v, final(env)@.bridge.vcpus[slot])
        }),
{
    match exit {
        VcpuExit::MmioWrite { addr, width, data } => {
            lemma_truncated(data, width);
        },
        VcpuExit::IoWrite { port, width, data } => {
            lemma_truncated(data, width);
            lemma_port(port);
        },
        VcpuExit::IoRead { port, width } => {
            lemma_port(port);
        },
        _ => {},
    }
}

pub(crate) proof fn lemma_port(port: Port)
    ensures
        served_port(port) == crate::access::inkernel_port(port.0),
        served_port(port) ==> right_device(port, crate::inkernel::port_device(port.0)),
{
    if crate::access::inkernel_port(port.0) {
        assert(right_device(port, crate::inkernel::port_device(port.0)));
    }
}

/// An exit that the run handles on its own: it is watched for spinning where the id
/// is watched, and then the housekeeping is done.
pub open spec fn watches_then_keeps_house(step: RunStep, v: BackendVcpu) -> bool {
    if v.id < 64 {
        step is SpinOnline
    } else {
        keeps_house(step, v, OnInterrupt::Stop)
    }
}

/// Exits that need nothing from the caller are handled within the run: interrupts and
/// timers are watched for spinning, a pause yields, an acknowledged vector is ended
/// at the chips, a call asks for its vCPU, a fault for its own page, and a request to
/// start a vCPU for that vCPU. None of them changes a record.
pub proof fn internal_exit_is_handled_within_the_run(m: &mut RunVcpu, env: &mut Backend, exit: VcpuExit)
    requires
        old(m).wf(),
        old(env).wf(),
        old(m).retry < usize::MAX,
        old(m).step == (RunStep::LogExit { result: Ok(exit) }),
        call_ensures(RunVcpu::resume, (m, env, HostReply::Done), ()),
    ensures
        ({
            let v = old(env)@.bridge.vcpus[old(m).slot as int];
            let next = final(m).step;
            &&& exit is Nothing || exit is ExternalInterrupt || exit is PreemptionTimer ==> watches_then_keeps_house(
                next,
                v,
            ) && final(env)@ == old(env)@
            &&& exit matches VcpuExit::InterruptEnd { vector } ==> final(env)@ == old(env)@ && match vector {
                None => watches_then_keeps_house(next, v),
                Some(n) => next matches RunStep::Eoi(EoiStep::EndPic { vcpu_id, vector: told }) && vcpu_id == v.id && told
                    == n,
            }
            &&& exit is Yield ==> final(env)@ == old(env)@ && (next matches RunStep::PauseYield { vcpu } && refers_to(
                vcpu,
                v,
            ))
            &&& exit is Halt ==> final(env)@ == old(env)@ && next is HaltExpire
            &&& exit matches VcpuExit::CpuUp { target_cpu, entry_point, arg } ==> final(env)@ == old(env)@ && (
            next matches RunStep::CpuUpFind { target_cpu: t, entry_point: e } && t == target_cpu && e == entry_point)
            &&& exit is Hypercall ==> final(env)@ == old(env)@ && (next matches RunStep::HypercallFind { vcpu_id } && vcpu_id
                == v.id)
            &&& exit matches VcpuExit::NestedPageFault { addr, access_flags } ==> final(env)@ == old(env)@ && (
            next matches RunStep::FaultIn { vm_handle, gpa, write } && vm_handle == v.vm_handle && gpa == addr.0 && write
                == access_flags.write)
        }),
        !(final(m).step is Leave) ==> final(m).exit == old(m).exit,
        final(m).slot == old(m).slot && final(m).retry == old(m).retry,
{
}

/// Exits that end the run tell the caller why, and no read of the vCPU waits any
/// more; an error of the machine is the result of the run.
pub proof fn final_exit_ends_the_run(m: &mut RunVcpu, env: &mut Backend, result: Result<VcpuExit, i32>)
    requires
        old(m).wf(),
        old(env).wf(),
        old(m).retry < usize::MAX,
        old(m).step == (RunStep::LogExit { result }),
        call_ensures(RunVcpu::resume, (m, env, HostReply::Done), ()),
    ensures
        ({
            let slot = old(m).slot as int;
            let now = final(env)@.bridge.vcpus[slot];
            &&& result == Ok::<VcpuExit, i32>(VcpuExit::SystemDown) ==> ends_with(*final(m), 6) && waits_for_nothing(now)
            &&& result == Ok::<VcpuExit, i32>(VcpuExit::Other) ==> ends_with(*final(m), 8) && waits_for_nothing(now)
            &&& result matches Ok(VcpuExit::FailEntry { hardware_entry_failure_reason }) ==> {
                &&& ends_with(*final(m), 7)
                &&& final(m).exit->Some_0.hardware_entry_failure_reason == hardware_entry_failure_reason
                &&& waits_for_nothing(now)
            }
            &&& result matches Err(err) ==> {
                &&& final(m).step == (RunStep::Leave { ret: err })
                &&& final(m).exit == old(m).exit
                &&& final(env)@ == old(env)@
            }
            &&& same_but_for(old(env)@, final(env)@, slot)
            &&& same_but_for_reads(old(env)@.bridge.vcpus[slot], now)
        }),
{
}

/// A run that ends with success for a reason.
pub open spec fn ends_with(m: RunVcpu, reason: u32) -> bool {
    m.step == (RunStep::Leave { ret: 0 }) && m.exit is Some && m.exit->Some_0.reason == reason
}

/// What is kept of the outputs of a run that ends: everything but the reason.
pub open spec fn keeps_outputs(was: RunVcpu, now: RunVcpu) -> bool {
    was.exit matches Some(o) ==> now.exit matches Some(n) && n == (BackendExit { reason: n.reason, ..o })
}

/// Why the vCPU left guest mode is what the machine said, whether it is logged or
/// not: the guest's FPU state is saved first, then the exit is handled.
pub proof fn exit_is_what_the_machine_said(
    m: &mut RunVcpu,
    env: &mut Backend,
    reply: HostReply,
    logged: &mut RunVcpu,
    env2: &mut Backend,
    result: Result<VcpuExit, i32>,
)
    requires
        old(m).wf(),
        old(env).wf(),
        old(m).retry < usize::MAX,
        old(env2)@ == old(env)@,
        old(env2).wf(),
        *old(logged) == (RunVcpu { step: RunStep::LogExit { result }, ..*old(m) }),
        call_ensures(RunVcpu::resume, (m, env, reply), ()),
        call_ensures(RunVcpu::resume, (logged, env2, HostReply::Done), ()),
    ensures
        old(m).step is RunRaw ==> final(env)@ == old(env)@ && final(m).step == (match reply {
            HostReply::Exit(r) => RunStep::FpuEnd { result: r },
            _ => old(m).step,
        }),
        old(m).step == (RunStep::FpuEnd { result }) ==> if !(reply is Done) {
            final(m).step == old(m).step && final(env)@ == old(env)@
        } else {
            ||| *final(m) == *old(logged) && final(env)@ == old(env)@
            ||| *final(m) == *final(logged) && final(env)@ == final(env2)@
        },
{
}

/// A halted guest has its timers run and its device interrupts delivered; then the
/// host timer is set to the interval timer's next deadline, where there is one, and
/// the run ends.
pub proof fn halted_guest_is_woken_for_its_timer(
    m: &mut RunVcpu,
    env: &mut Backend,
    reply: HostReply,
    virq: VirqStep,
    delivered: VirqStep,
)
    requires
        old(m).wf(),
        old(env).wf(),
        old(m).retry < usize::MAX,
        old(m).step == RunStep::HaltIrqs(virq) ==> call_ensures(
            virq_resume,
            (virq, &old(env).contexts, reply),
            delivered,
        ),
        call_ensures(RunVcpu::resume, (m, env, reply), ()),
    ensures
        ({
            let slot = old(m).slot as int;
            let v = old(env)@.bridge.vcpus[slot];
            let now = final(env)@.bridge.vcpus[slot];
            let halts = ends_with(*final(m), 5) && waits_for_nothing(now) && keeps_outputs(*old(m), *final(m));
            &&& old(m).step is HaltExpire ==> final(env)@ == old(env)@ && if !(reply is Done) {
                final(m).step == old(m).step
            } else if v.id == 0 {
                final(m).step matches RunStep::HaltIrqs(VirqStep::Pit { vcpu_id, line }) && vcpu_id == 0
            } else {
                final(m).step is HaltDeadline
            }
            &&& old(m).step == RunStep::HaltIrqs(virq) ==> final(env)@ == old(env)@ && final(m).step == (
            if delivered is Done {
                RunStep::HaltDeadline
            } else {
                RunStep::HaltIrqs(delivered)
            })
            &&& old(m).step is HaltDeadline ==> match reply {
                HostReply::Maybe(Some(d)) => if d == 0 {
                    halts
                } else {
                    final(m).step == (RunStep::HaltProgram { deadline_ns: d }) && final(env)@ == old(env)@
                },
                HostReply::Maybe(None) => halts,
                _ => final(m).step == old(m).step && final(env)@ == old(env)@,
            }
            &&& old(m).step is HaltProgram ==> if reply is Done {
                halts
            } else {
                final(m).step == old(m).step && final(env)@ == old(env)@
            }
            &&& old(m).step is HaltExpire || old(m).step is HaltIrqs || old(m).step is HaltDeadline || old(
                m,
            ).step is HaltProgram ==> same_but_for(old(env)@, final(env)@, slot) && same_but_for_reads(v, now)
        }),
{
}

/// The record that a request to start a vCPU is about: the lowest one of the same VM
/// with that id.
pub open spec fn is_target(b: BridgeView, source: int, target_cpu: u64, slot: int) -> bool {
    let h = b.vcpus[source].vm_handle;
    &&& 0 <= slot < 64
    &&& b.vcpus[slot].in_use && b.vcpus[slot].vm_handle == h
    &&& is_rest(target_cpu as int, 0x1_0000_0000, b.vcpus[slot].id as int)
    &&& forall|i: int|
        0 <= i < slot ==> !((#[trigger] b.vcpus[i]).in_use && b.vcpus[i].vm_handle == h && is_rest(
            target_cpu as int,
            0x1_0000_0000,
            b.vcpus[i].id as int,
        ))
}

/// A request to start a vCPU that the VM does not have is refused; one that was
/// started already is passed over; else that vCPU is set up.
pub proof fn start_request_finds_its_vcpu(b: &Bridge, source: usize, target_cpu: u64, action: CpuUpAction)
    requires
        b.wf(),
        source < 64,
        call_ensures(handle_x86_cpu_up_exit, (b, source, target_cpu), action),
    ensures
        action matches CpuUpAction::Setup { target_slot } ==> is_target(b@, source as int, target_cpu, target_slot as int)
            && !b@.vcpus[target_slot as int].sipi_started,
        action is Duplicate ==> exists|slot: int|
            #[trigger] is_target(b@, source as int, target_cpu, slot) && b@.vcpus[slot].sipi_started,
        action matches CpuUpAction::Refuse(err) ==> err == invalid() && forall|slot: int|
            !is_target(b@, source as int, target_cpu, slot),
{
    lemma_cpu_up(b@, source, target_cpu);
}

proof fn lemma_cpu_up(b: BridgeView, source: usize, target_cpu: u64)
    requires
        source < 64,
        b.shaped(),
    ensures
        forall|slot: int|
            #[trigger] is_target(b, source as int, target_cpu, slot) == crate::run::cpu_up_target(
                b,
                b.vcpus[source as int].vm_handle,
                target_cpu,
                slot,
            ),
        crate::run::cpu_up_action(b, source, target_cpu) matches CpuUpAction::Setup { target_slot } ==> is_target(
            b,
            source as int,
            target_cpu,
            target_slot as int,
        ) && !b.vcpus[target_slot as int].sipi_started,
        crate::run::cpu_up_action(b, source, target_cpu) is Duplicate ==> exists|slot: int|
            #[trigger] is_target(b, source as int, target_cpu, slot) && b.vcpus[slot].sipi_started,
        crate::run::cpu_up_action(b, source, target_cpu) is Refuse ==> forall|slot: int|
            !is_target(b, source as int, target_cpu, slot),
{
    let h = b.vcpus[source as int].vm_handle;
    assert forall|id: u32| #[trigger] is_rest(target_cpu as int, 0x1_0000_0000, id as int) == (id == target_cpu
        % 0x1_0000_0000) by {}
    assert forall|slot: int|
        #[trigger] is_target(b, source as int, target_cpu, slot) == crate::run::cpu_up_target(b, h, target_cpu, slot) by {
        if 0 <= slot < 64 {
            if is_target(b, source as int, target_cpu, slot) {
                assert forall|i: int| 0 <= i < slot implies !((#[trigger] b.vcpus[i]).of(h) && b.vcpus[i].id == target_cpu
                    % 0x1_0000_0000) by {
                    assert(is_rest(target_cpu as int, 0x1_0000_0000, b.vcpus[i].id as int) == (b.vcpus[i].id == target_cpu
                        % 0x1_0000_0000));
                }
            }
            if crate::run::cpu_up_target(b, h, target_cpu, slot) {
                assert forall|i: int| 0 <= i < slot implies !((#[trigger] b.vcpus[i]).in_use && b.vcpus[i].vm_handle == h
                    && is_rest(target_cpu as int, 0x1_0000_0000, b.vcpus[i].id as int)) by {
                    assert(!(b.vcpus[i].of(h) && b.vcpus[i].id == target_cpu % 0x1_0000_0000));
                }
            }
        }
    }
    if exists|slot: int| crate::run::cpu_up_target(b, h, target_cpu, slot) {
        let slot = choose|slot: int| crate::run::cpu_up_target(b, h, target_cpu, slot);
        assert(crate::run::cpu_up_target(b, h, target_cpu, slot));
        assert(is_target(b, source as int, target_cpu, slot));
    } else {
        assert forall|slot: int| !is_target(b, source as int, target_cpu, slot) by {
            assert(is_target(b, source as int, target_cpu, slot) == crate::run::cpu_up_target(b, h, target_cpu, slot));
        }
    }
}

/// Starting a vCPU marks exactly that vCPU as started and tells the caller which it is
/// and where it starts. A vCPU that the machine or the VM does not have ends the run
/// with an error, and one that was started before changes nothing.
pub proof fn started_vcpu_is_marked_and_told(m: &mut RunVcpu, env: &mut Backend, reply: HostReply)
    requires
        old(m).wf(),
        old(env).wf(),
        old(m).retry < usize::MAX,
        call_ensures(RunVcpu::resume, (m, env, reply), ()),
    ensures
        ({
            let slot = old(m).slot as int;
            let b = old(env)@.bridge;
            &&& old(m).step matches RunStep::CpuUpFind { target_cpu, entry_point } ==> match reply {
                HostReply::Flag(false) => final(m).step == (RunStep::Leave { ret: invalid() }) && final(env)@ == old(env)@,
                HostReply::Flag(true) => match final(m).step {
                    RunStep::CpuUpSetup { target_cpu: t, entry_point: e, target_slot } => {
                        &&& t == target_cpu && e == entry_point
                        &&& is_target(b, slot, target_cpu, target_slot as int)
                        &&& !b.vcpus[target_slot as int].sipi_started
                        &&& final(env)@ == old(env)@
                    },
                    RunStep::Leave { ret } => {
                        &&& ret == invalid()
                        &&& forall|k: int| !is_target(b, slot, target_cpu, k)
                        &&& final(env)@ == old(env)@
                    },
                    step => {
                        &&& keeps_house(step, b.vcpus[slot], OnInterrupt::Leave)
                        &&& exists|k: int| #[trigger] is_target(b, slot, target_cpu, k) && b.vcpus[k].sipi_started
                        &&& waits_for_nothing(final(env)@.bridge.vcpus[slot])
                        &&& same_but_for(old(env)@, final(env)@, slot)
                        &&& same_but_for_reads(b.vcpus[slot], final(env)@.bridge.vcpus[slot])
                    },
                },
                _ => final(m).step == old(m).step && final(env)@ == old(env)@,
            }
            &&& old(m).step matches RunStep::CpuUpSetup { target_cpu, entry_point, target_slot } ==> match reply {
                HostReply::Outcome(Ok(_)) => {
                    &&& ends_with(*final(m), 9)
                    &&& final(m).exit->Some_0.addr == target_cpu
                    &&& final(m).exit->Some_0.data == entry_point.0
                    &&& final(env)@.bridge.vcpus[target_slot as int].sipi_started
                    &&& waits_for_nothing(final(env)@.bridge.vcpus[slot])
                    &&& forall|i: int|
                        0 <= i < 64 && i != target_slot ==> (#[trigger] final(env)@.bridge.vcpus[i]).sipi_started
                            == b.vcpus[i].sipi_started
                    &&& forall|i: int|
                        0 <= i < 64 && i != target_slot && i != slot ==> #[trigger] final(env)@.bridge.vcpus[i] == b.vcpus[i]
                    &&& final(env)@.bridge.vms == b.vms && final(env)@.bridge.mappings == b.mappings
                },
                HostReply::Outcome(Err(err)) => final(m).step == (RunStep::Leave { ret: err }) && final(env)@ == old(env)@,
                _ => final(m).step == old(m).step && final(env)@ == old(env)@,
            }
        }),
{
    if let RunStep::CpuUpFind { target_cpu, entry_point } = old(m).step {
        lemma_cpu_up(old(env)@.bridge, old(m).slot, target_cpu);
    }
}

/// A paravirtual call is answered in the first general register of the vCPU that made
/// it with the number of an unknown call, 1000 below zero, and a fault that the host
/// resolved has the guest go on; one that it did not ends the run.
pub proof fn call_and_fault_are_answered(m: &mut RunVcpu, env: &mut Backend, reply: HostReply)
    requires
        old(m).wf(),
        old(env).wf(),
        old(m).retry < usize::MAX,
        call_ensures(RunVcpu::resume, (m, env, reply), ()),
    ensures
        ({
            let slot = old(m).slot as int;
            let v = old(env)@.bridge.vcpus[slot];
            &&& old(m).step matches RunStep::HypercallFind { vcpu_id } ==> final(env)@ == old(env)@ && match reply {
                HostReply::Flag(true) => final(m).step matches RunStep::HypercallSet { vcpu_id: id, reg, value } && id
                    == vcpu_id && reg == 0 && value + 1000 == 0x1_0000_0000_0000_0000,
                HostReply::Flag(false) => keeps_house(final(m).step, v, OnInterrupt::Stop),
                _ => final(m).step == old(m).step,
            }
            &&& old(m).step is HypercallSet ==> final(env)@ == old(env)@ && if reply is Done {
                keeps_house(final(m).step, v, OnInterrupt::Stop)
            } else {
                final(m).step == old(m).step
            }
            &&& old(m).step is FaultIn ==> match reply {
                HostReply::Code(rc) => if rc < 0 {
                    &&& ends_with(*final(m), 8)
                    &&& keeps_outputs(*old(m), *final(m))
                    &&& waits_for_nothing(final(env)@.bridge.vcpus[slot])
                    &&& same_but_for(old(env)@, final(env)@, slot)
                    &&& same_but_for_reads(v, final(env)@.bridge.vcpus[slot])
                } else {
                    final(m).step is FpuBegin && final(env)@ == old(env)@
                },
                _ => final(m).step == old(m).step && final(env)@ == old(env)@,
            }
        }),
{
}

/// A run is refused without a place for its outputs, for a handle of no record, and
/// for a vCPU or VM that does not exist or does not run; else it begins, with no
/// internal exits yet and outputs that say that the entry failed.
pub proof fn run_begins_for_a_running_vm(b: &Bridge, handle: u64, outputs: bool, run: RunVcpu)
    requires
        b.wf(),
        call_ensures(axvisor_kvm_rs_run_vcpu, (b, handle, outputs), run),
    ensures
        ({
            let named = outputs && 1 <= handle <= 64;
            let v = b.vcpus@[handle - 1];
            let runs = v.in_use && 1 <= v.vm_handle <= 16 && b.vms@[v.vm_handle - 1].in_use && b.vms@[v.vm_handle
                - 1].booted;
            &&& !named ==> run.step == RunStep::Done(invalid()) && run.exit is None
            &&& named ==> run.slot == handle - 1 && (run.exit matches Some(out) && is_failed_entry(out))
            &&& named && !runs ==> run.step == RunStep::Done(invalid())
            &&& named && runs ==> run.step is CurrentTask
            &&& run.retry == 0
        }),
{
    if 1 <= handle <= 64 {
        assert(b@.vcpus[handle - 1] == b.vcpus@[handle - 1]);
    }
}

/// Outputs that say that the entry failed and nothing more.
pub open spec fn is_failed_entry(out: BackendExit) -> bool {
    out.reason == 7 && out.width == 0 && out.addr == 0 && out.data == 0 && out.hardware_entry_failure_reason == 0
}

/// Outputs begin as those of a failed entry.
pub proof fn outputs_begin_as_failed_entry(out: BackendExit)
    requires
        call_ensures(reset_backend_exit_outputs, (), out),
    ensures
        is_failed_entry(out),
{
}

/// A run makes its vCPU the calling task's own, and then enters guest mode as any
/// caller does; an error there is the result of the run.
pub proof fn run_enters_guest_mode(
    m: &mut RunVcpu,
    env: &mut Backend,
    reply: HostReply,
    enter: EnterStep,
    table: &mut PercpuTable,
    entered: EnterStep,
)
    requires
        old(m).wf(),
        old(env).wf(),
        old(m).retry < usize::MAX,
        old(table)@ == old(env)@.percpu,
        old(m).step == RunStep::Enter(enter) ==> call_ensures(enter_percpu_resume, (enter, table, reply), entered),
        call_ensures(RunVcpu::resume, (m, env, reply), ()),
    ensures
        ({
            let v = old(env)@.bridge.vcpus[old(m).slot as int];
            &&& old(m).step is CurrentTask ==> match reply {
                HostReply::TaskId(task) => {
                    &&& final(m).step == RunStep::Enter(EnterStep::MigrateDisable)
                    &&& final(env)@.contexts == old(env)@.contexts.set(task, v.vm_handle, v.id as usize)
                    &&& final(env)@.bridge == old(env)@.bridge
                },
                _ => final(m).step == old(m).step && final(env)@ == old(env)@,
            }
            &&& old(m).step == RunStep::Enter(enter) ==> {
                &&& final(env)@.percpu == final(table)@
                &&& entered matches EnterStep::Done(ret) ==> ret != 0 ==> final(m).step == RunStep::Done(ret)
                    && final(env)@.bridge == old(env)@.bridge
                &&& !(entered is Done) ==> final(m).step == RunStep::Enter(entered) && final(env)@.bridge == old(
                    env,
                )@.bridge
                &&& final(env)@.contexts == old(env)@.contexts
            }
        }),
{
}

/// Spin detection of a vCPU starts over: its track, and no other, is as at first.
pub open spec fn track_starts_over(was: BackendView, now: BackendView, id: u32) -> bool {
    &&& id < 64 ==> {
        &&& now.soft_ple[id as int].streak == 0
        &&& now.soft_ple[id as int].last_rip == 0xffff_ffff_ffff_ffff
        &&& now.soft_ple[id as int].last_rip2 == 0xffff_ffff_ffff_ffff
    }
    &&& forall|i: int| 0 <= i < 64 && i != id ==> #[trigger] now.soft_ple[i] == was.soft_ple[i]
}

/// A run that starts: its vCPU's thread gets its priority back.
pub open spec fn starts_with_priority(step: RunStep, v: BackendVcpu) -> bool {
    step matches RunStep::StartRestore { vcpu } && refers_to(vcpu, v)
}

/// Once guest mode is entered, a state that the caller changed is handed to the
/// machine first, unless the vCPU was started by another one: then its own state is
/// newer, and the change is dropped. After that the run starts, and spin detection
/// starts over.
pub proof fn changed_state_is_handed_over_first(
    m: &mut RunVcpu,
    env: &mut Backend,
    reply: HostReply,
    enter: EnterStep,
    table: &mut PercpuTable,
)
    requires
        old(m).wf(),
        old(env).wf(),
        old(m).retry < usize::MAX,
        old(table)@ == old(env)@.percpu,
        old(m).step == RunStep::Enter(enter),
        call_ensures(enter_percpu_resume, (enter, table, reply), EnterStep::Done(0)),
        call_ensures(RunVcpu::resume, (m, env, reply), ()),
    ensures
        ({
            let slot = old(m).slot as int;
            let was = old(env)@.bridge.vcpus[slot];
            let now = final(env)@.bridge.vcpus[slot];
            let vms = old(env)@.bridge.vms;
            let there = was.in_use && 1 <= was.vm_handle <= 16;
            let runs = there && vms[was.vm_handle - 1].in_use && vms[was.vm_handle - 1].booted;
            &&& !there ==> final(m).step == (RunStep::Leave { ret: invalid() }) && now == was
            &&& runs && was.state_dirty && !was.sipi_started ==> {
                &&& final(m).step == (RunStep::ApplyState { vcpu_id: was.id })
                &&& now == was
            }
            &&& there && !(runs && was.state_dirty && !was.sipi_started) ==> {
                &&& starts_with_priority(final(m).step, was)
                &&& track_starts_over(old(env)@, final(env)@, was.id)
                &&& now == (BackendVcpu { state_dirty: now.state_dirty, ..was })
                &&& now.state_dirty == (was.state_dirty && !(runs && was.sipi_started))
            }
            &&& forall|i: int|
                0 <= i < 64 && i != slot ==> #[trigger] final(env)@.bridge.vcpus[i] == old(env)@.bridge.vcpus[i]
            &&& final(env)@.bridge.vms == vms && final(env)@.bridge.mappings == old(env)@.bridge.mappings
        }),
{
}

/// A state that the machine took has not changed any more, and the run starts; one
/// that it refused stays changed, and the error is the result of the run.
pub proof fn taken_state_has_not_changed(m: &mut RunVcpu, env: &mut Backend, reply: HostReply)
    requires
        old(m).wf(),
        old(env).wf(),
        old(m).retry < usize::MAX,
        old(m).step is ApplyState,
        call_ensures(RunVcpu::resume, (m, env, reply), ()),
    ensures
        ({
            let slot = old(m).slot as int;
            let was = old(env)@.bridge.vcpus[slot];
            let now = final(env)@.bridge.vcpus[slot];
            &&& reply == HostReply::Outcome(Ok(())) ==> {
                &&& starts_with_priority(final(m).step, was)
                &&& track_starts_over(old(env)@, final(env)@, was.id)
                &&& now == (BackendVcpu { state_dirty: false, ..was })
            }
            &&& reply matches HostReply::Outcome(Err(err)) ==> err != 0 ==> {
                &&& final(m).step == (RunStep::Leave { ret: err })
                &&& final(env)@ == old(env)@
            }
            &&& !(reply is Outcome) ==> final(m).step == old(m).step && final(env)@ == old(env)@
            &&& forall|i: int|
                0 <= i < 64 && i != slot ==> #[trigger] final(env)@.bridge.vcpus[i] == old(env)@.bridge.vcpus[i]
        }),
{
}

/// Each turn of a run loads the guest's FPU state and runs its own vCPU; where the
/// state cannot be loaded the run ends with that error. A run that leaves ends with
/// the result that it leaves with, and one that ended stays so.
pub proof fn turn_runs_its_own_vcpu(m: &mut RunVcpu, env: &mut Backend, reply: HostReply)
    requires
        old(m).wf(),
        old(env).wf(),
        old(m).retry < usize::MAX,
        old(m).step is StartRestore || old(m).step is FpuBegin || old(m).step is Leave || old(m).step is Done || old(
            m,
        ).step is Interrupted,
        call_ensures(RunVcpu::resume, (m, env, reply), ()),
    ensures
        ({
            let v = old(env)@.bridge.vcpus[old(m).slot as int];
            let next = final(m).step;
            &&& old(m).step is StartRestore ==> next == (if reply is Done {
                RunStep::FpuBegin
            } else {
                old(m).step
            })
            &&& old(m).step is FpuBegin ==> match reply {
                HostReply::Code(ret) => if ret == 0 {
                    next == (RunStep::RunRaw { vcpu_id: v.id })
                } else {
                    next == (RunStep::Leave { ret })
                },
                _ => next == old(m).step,
            }
            &&& old(m).step matches RunStep::Leave { ret } ==> next == (if reply is Done {
                RunStep::Done(ret)
            } else {
                old(m).step
            })
            &&& old(m).step is Done || old(m).step is Interrupted ==> next == old(m).step
            &&& final(env)@ == old(env)@
            &&& final(m).exit == old(m).exit && final(m).slot == old(m).slot && final(m).retry == old(m).retry
        }),
{
}

/// A vCPU that is watched for spinning: the host is asked for its CPUs, and where they
/// are scarce for the guest's instruction pointer; what the detector decides is done
/// for the run's own vCPU, and then the housekeeping.
pub proof fn spin_decision_is_carried_out(
    m: &mut RunVcpu,
    env: &mut Backend,
    reply: HostReply,
    online: usize,
    rip: Option<u64>,
    ple: &mut SoftPle,
    action: SpinAction,
    scarce: bool,
)
    requires
        old(m).wf(),
        old(env).wf(),
        old(m).retry < usize::MAX,
        old(env)@.bridge.vcpus[old(m).slot as int].id < 64,
        old(ple)@ == old(env)@.soft_ple,
        call_ensures(
            crate::soft_ple::is_oversubscribed,
            (&old(env).bridge, old(env)@.bridge.vcpus[old(m).slot as int].vm_handle, online),
            scarce,
        ),
        call_ensures(SoftPle::soft_ple_maybe_park, (ple, &old(env).bridge, old(m).slot, online, rip), action),
        call_ensures(RunVcpu::resume, (m, env, reply), ()),
        old(m).step is SpinOnline ==> reply == HostReply::Online(online) && rip is None,
        old(m).step is SpinRip ==> old(m).step == (RunStep::SpinRip { online }) && reply == HostReply::Maybe(rip),
    ensures
        ({
            let v = old(env)@.bridge.vcpus[old(m).slot as int];
            let next = final(m).step;
            let decided = {
                &&& action is Nothing ==> keeps_house(next, v, OnInterrupt::Stop)
                &&& action is Restore ==> (next matches RunStep::SpinRestore { vcpu } && refers_to(vcpu, v))
                &&& action is HandOff ==> (next matches RunStep::SpinYield { vcpu } && refers_to(vcpu, v))
                &&& final(env)@.soft_ple == final(ple)@
            };
            &&& old(m).step is SpinOnline ==> if scarce {
                next == (RunStep::SpinRip { online }) && final(env)@ == old(env)@
            } else {
                decided
            }
            &&& old(m).step is SpinRip ==> decided
            &&& old(m).step is SpinOnline || old(m).step is SpinRip ==> final(env)@.bridge == old(env)@.bridge
        }),
{
}

/// A hand-off yields and then lowers the priority of the same vCPU's thread; a
/// restore, a demotion, a pause and the end of an interrupt are followed by the
/// housekeeping of the run's own vCPU.
pub proof fn host_acts_lead_to_housekeeping(
    m: &mut RunVcpu,
    env: &mut Backend,
    reply: HostReply,
    eoi: EoiStep,
    ended: EoiStep,
)
    requires
        old(m).wf(),
        old(env).wf(),
        old(m).retry < usize::MAX,
        old(m).step == RunStep::Eoi(eoi) ==> call_ensures(eoi_resume, (eoi, &old(env).contexts, reply), ended),
        call_ensures(RunVcpu::resume, (m, env, reply), ()),
    ensures
        ({
            let v = old(env)@.bridge.vcpus[old(m).slot as int];
            let next = final(m).step;
            &&& old(m).step matches RunStep::SpinYield { vcpu } ==> next == (if reply is Flag {
                RunStep::SpinDemote { vcpu }
            } else {
                old(m).step
            })
            &&& old(m).step is SpinDemote || old(m).step is SpinRestore ==> if reply is Done {
                keeps_house(next, v, OnInterrupt::Stop)
            } else {
                next == old(m).step
            }
            &&& old(m).step is PauseYield ==> if reply is Flag {
                keeps_house(next, v, OnInterrupt::Stop)
            } else {
                next == old(m).step
            }
            &&& old(m).step == RunStep::Eoi(eoi) ==> if ended is Done {
                keeps_house(next, v, OnInterrupt::Stop)
            } else {
                next == RunStep::Eoi(ended)
            }
            &&& old(m).step is SpinYield || old(m).step is SpinDemote || old(m).step is SpinRestore || old(
                m,
            ).step is PauseYield || old(m).step is Eoi ==> final(env)@ == old(env)@ && final(m).exit == old(m).exit
        }),
{
}

/// The housekeeping within a run is the housekeeping: when it is over the guest goes
/// on, and where it was interrupted the run ends with that result, at once or after
/// leaving guest mode as it was asked to.
pub proof fn housekeeping_leads_to_the_next_turn(
    m: &mut RunVcpu,
    env: &mut Backend,
    reply: HostReply,
    on: OnInterrupt,
    progress: ProgressStep,
    env2: &mut Backend,
    count: &mut usize,
    kept: ProgressStep,
)
    requires
        old(m).wf(),
        old(env).wf(),
        old(env2).wf(),
        old(env2)@ == old(env)@,
        *old(count) == old(m).retry,
        old(m).retry < usize::MAX,
        old(m).step == (RunStep::Progress { on_interrupt: on, progress }),
        call_ensures(progress_resume, (progress, env2, count, reply), kept),
        call_ensures(RunVcpu::resume, (m, env, reply), ()),
    ensures
        final(env)@ == final(env2)@,
        final(m).retry == *final(count),
        final(m).exit == old(m).exit,
        kept matches ProgressStep::Done(ret) ==> {
            &&& ret >= 0 ==> final(m).step is FpuBegin
            &&& ret < 0 && on is Stop ==> final(m).step == RunStep::Interrupted(ret)
            &&& ret < 0 && on is Leave ==> final(m).step == (RunStep::Leave { ret })
        },
        !(kept is Done) ==> final(m).step == (RunStep::Progress { on_interrupt: on, progress: kept }),
{
}

/// A memory-mapped read is told to the caller as the guest made it, and waits.
pub proof fn prepared_mmio_read_is_the_access(
    b: &mut Bridge,
    slot: usize,
    exit: &mut BackendExit,
    addr: GuestPhysAddr,
    width: AccessWidth,
    reg: usize,
    reg_width: AccessWidth,
    signed_ext: bool,
)
    requires
        old(b).wf(),
        slot < 64,
        call_ensures(prepare_userspace_mmio_read_exit, (b, slot, exit, addr, width, reg, reg_width, signed_ext), ()),
    ensures
        ({
            let made = VcpuExit::MmioRead { addr, width, reg, reg_width, signed_ext };
            &&& tells_the_access(*final(exit), made)
            &&& waits_for_the_access(final(b)@.vcpus[slot as int], made)
            &&& same_but_for_reads(old(b)@.vcpus[slot as int], final(b)@.vcpus[slot as int])
            &&& forall|i: int| 0 <= i < 64 && i != slot ==> #[trigger] final(b)@.vcpus[i] == old(b)@.vcpus[i]
            &&& final(b)@.vms == old(b)@.vms && final(b)@.mappings == old(b)@.mappings
        }),
{
}

/// A memory-mapped write is told to the caller as the guest made it, data and all.
pub proof fn prepared_mmio_write_is_the_access(
    b: &mut Bridge,
    slot: usize,
    exit: &mut BackendExit,
    addr: GuestPhysAddr,
    width: AccessWidth,
    data: u64,
)
    requires
        old(b).wf(),
        slot < 64,
        call_ensures(prepare_userspace_mmio_write_exit, (b, slot, exit, addr, width, data), ()),
    ensures
        ({
            let made = VcpuExit::MmioWrite { addr, width, data };
            &&& tells_the_access(*final(exit), made)
            &&& waits_for_the_access(final(b)@.vcpus[slot as int], made)
            &&& same_but_for_reads(old(b)@.vcpus[slot as int], final(b)@.vcpus[slot as int])
            &&& forall|i: int| 0 <= i < 64 && i != slot ==> #[trigger] final(b)@.vcpus[i] == old(b)@.vcpus[i]
            &&& final(b)@.vms == old(b)@.vms && final(b)@.mappings == old(b)@.mappings
        }),
{
}

/// A port read is told to the caller as the guest made it, and waits.
pub proof fn prepared_port_read_is_the_access(
    b: &mut Bridge,
    slot: usize,
    exit: &mut BackendExit,
    port: Port,
    width: AccessWidth,
)
    requires
        old(b).wf(),
        slot < 64,
        call_ensures(prepare_userspace_io_read_exit, (b, slot, exit, port, width), ()),
    ensures
        ({
            let made = VcpuExit::IoRead { port, width };
            &&& tells_the_access(*final(exit), made)
            &&& waits_for_the_access(final(b)@.vcpus[slot as int], made)
            &&& same_but_for_reads(old(b)@.vcpus[slot as int], final(b)@.vcpus[slot as int])
            &&& forall|i: int| 0 <= i < 64 && i != slot ==> #[trigger] final(b)@.vcpus[i] == old(b)@.vcpus[i]
            &&& final(b)@.vms == old(b)@.vms && final(b)@.mappings == old(b)@.mappings
        }),
{
}

/// A port write is told to the caller as the guest made it, data and all.
pub proof fn prepared_port_write_is_the_access(
    b: &mut Bridge,
    slot: usize,
    exit: &mut BackendExit,
    port: Port,
    width: AccessWidth,
    data: u64,
)
    requires
        old(b).wf(),
        slot < 64,
        call_ensures(prepare_userspace_io_write_exit, (b, slot, exit, port, width, data), ()),
    ensures
        ({
            let made = VcpuExit::IoWrite { port, width, data };
            &&& tells_the_access(*final(exit), made)
            &&& waits_for_the_access(final(b)@.vcpus[slot as int], made)
            &&& same_but_for_reads(old(b)@.vcpus[slot as int], final(b)@.vcpus[slot as int])
            &&& forall|i: int| 0 <= i < 64 && i != slot ==> #[trigger] final(b)@.vcpus[i] == old(b)@.vcpus[i]
            &&& final(b)@.vms == old(b)@.vms && final(b)@.mappings == old(b)@.mappings
        }),
{
}

/// A state is to be handed over exactly where the vCPU's VM runs, the state changed
/// and the vCPU was not started by another one; taking it over makes it unchanged.
pub proof fn only_a_changed_state_is_applied(b: &mut Bridge, slot: usize, step: ApplyStep)
    requires
        old(b).wf(),
        slot < 64,
        call_ensures(apply_vcpu_state_if_booted, (b, slot), step),
    ensures
        ({
            let v = old(b)@.vcpus[slot as int];
            let there = v.in_use && 1 <= v.vm_handle <= 16;
            let runs = there && old(b)@.vms[v.vm_handle - 1].in_use && old(b)@.vms[v.vm_handle - 1].booted;
            &&& !there ==> step == ApplyStep::Done(invalid())
            &&& runs && v.state_dirty && !v.sipi_started ==> step == (ApplyStep::Apply { vcpu_id: v.id }) && final(b)@
                == old(b)@
            &&& there && !(runs && v.state_dirty && !v.sipi_started) ==> step == ApplyStep::Done(0)
            &&& runs && v.sipi_started ==> !final(b)@.vcpus[slot as int].state_dirty
            &&& !(runs && v.sipi_started) ==> final(b)@ == old(b)@
        }),
{
}

/// The outcome of handing a state over is the machine's, and only a state that it took
/// is unchanged from then on.
pub proof fn applied_state_is_unchanged(b: &mut Bridge, slot: usize, outcome: Result<(), i32>, ret: i32)
    requires
        old(b).wf(),
        slot < 64,
        call_ensures(finish_apply, (b, slot, outcome), ret),
    ensures
        outcome is Ok ==> ret == 0 && !final(b)@.vcpus[slot as int].state_dirty,
        outcome matches Err(err) ==> ret == err && final(b)@ == old(b)@,
{
}

} // verus!
