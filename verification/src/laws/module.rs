//! Loading and unloading the host adapter.
use vstd::prelude::*;

use crate::arch::{Arch, ArchView};
use crate::host::HostReply;
use crate::laws::arch::shared;
use crate::laws::codes::no_memory;
use crate::module::{block_device, module_drop, module_init, AdapterParts, DropStep, InitStep};
use crate::passthrough::{registered_device_is_kept, PassthroughDevice};
use crate::runtime::LinuxRuntimeAdapter;
use crate::tasks::error_from_errno;

verus! {

/// Without memory or the console's input, loading fails for want of memory.
pub open spec fn fails_without_room(room: bool, next: InitStep) -> bool {
    !room ==> next == InitStep::Done(Err::<(), i32>(no_memory()))
}

/// Memory is found for the console's input, 512 bytes, then for the guest's and for waiting,
/// then the input is taken over; where any of these fails, loading fails.
pub proof fn loading_finds_memory_first(
    first: InitStep,
    p: &mut AdapterParts,
    step: InitStep,
    room: bool,
    next: InitStep,
)
    requires
        old(p)@.wf(),
        call_ensures(module_init, (), first),
        call_ensures(AdapterParts::init_resume, (p, step, HostReply::Flag(room)), next),
    ensures
        first == (InitStep::ReserveConsoleInput { capacity: 512 }),
        step is ReserveConsoleInput || step is ReserveGuestInput || step is ReserveGuestOutput || step
            is AllocateInputState || step is InstallConsoleInput || step is AllocateEntry ==> fails_without_room(
            room,
            next,
        ),
        step is ReserveConsoleInput && room ==> next == (InitStep::ReserveGuestInput { capacity: 4096 }),
        step is ReserveGuestInput && room ==> next == (InitStep::ReserveGuestOutput { capacity: 65536 }),
        step is ReserveGuestOutput && room ==> next is AllocateInputState,
        step is AllocateInputState && room ==> next is InstallConsoleInput && final(p).console@.waitable && !final(
            p).console@.pending && final(p).console@.input == old(p).console@.input,
        step is InstallConsoleInput && room ==> next is PrepareFdt,
        step is AllocateEntry && room ==> next == (InitStep::SpawnHostTask { mask: 1 }),
        !(step is AllocateInputState) ==> final(p).console@ == old(p).console@,
        step is AllocateTimer ==> next is InitPercpuBacking,
        step is RegisterGsi ==> next is RequestIntx,
{
    assert(final(p)@.console == final(p).console@ && old(p)@.console == old(p).console@);
}

/// Without a device tree the console's input is given back and loading fails with the host's
/// error; the timer is set up on RISC-V only, for the CPU that the host names.
pub proof fn loading_goes_on_with_the_host(
    p: &mut AdapterParts,
    status: i32,
    next: InitStep,
    error: i32,
    q: &mut AdapterParts,
    cpu: usize,
    timer: InitStep,
    t: &mut AdapterParts,
    room: bool,
    set_up: InitStep,
)
    requires
        old(p)@.wf(),
        old(q)@.wf(),
        old(t)@.wf(),
        call_ensures(error_from_errno, (status,), error),
        call_ensures(AdapterParts::init_resume, (p, InitStep::PrepareFdt, HostReply::Code(status)), next),
        call_ensures(AdapterParts::init_resume, (q, InitStep::TimerCpu, HostReply::CpuId(cpu)), timer),
        call_ensures(AdapterParts::init_resume, (t, InitStep::AllocateTimer { cpu_id: cpu }, HostReply::Flag(room)), set_up),
    ensures
        status < 0 ==> next == (InitStep::RemoveConsoleInput { error }),
        status >= 0 && old(p).arch is Riscv64 ==> next is TimerCpu,
        status >= 0 && old(p).arch !is Riscv64 ==> next is InitPercpuBacking,
        timer == (InitStep::AllocateTimer { cpu_id: cpu }),
        set_up is InitPercpuBacking,
        old(t)@.arch matches ArchView::Riscv64(r) ==> (final(t)@.arch matches ArchView::Riscv64(n) && (r.callback is None
            && room ==> (n.callback matches Some(c) && c.cpu_id == cpu && c.deadline_nanos == u64::MAX && c.generation
            == 0)) && (r.callback is Some || !room ==> n.callback == r.callback)),
        old(t)@.arch !is Riscv64 ==> final(t)@.arch == old(t)@.arch,
{
}

/// No hook and no processor is installed.
pub open spec fn nothing_hooked(r: LinuxRuntimeAdapter) -> bool {
    !r.hooks_installed && r.timer_processor is None && r.irq_processor is None && r.start_processor is None
}

/// Once the slots of the CPUs are set up, timers are told to the adapter and the monitor's
/// processors are installed; on x86-64 the block device follows, else the host task's CPU. An
/// error ends loading with it.
pub proof fn slots_lead_to_the_processors(p: &mut AdapterParts, done: Result<(), i32>, next: InitStep)
    requires
        old(p)@.wf(),
        call_ensures(AdapterParts::init_resume, (p, InitStep::InitPercpuBacking, HostReply::Outcome(done)), next),
    ensures
        done is Err ==> next == InitStep::Done(done) && final(p)@ == old(p)@,
        done is Ok ==> {
            &&& old(p)@.arch !is Other ==> shared(final(p)@.arch).bridge == Some(1u64)
            &&& final(p).runtime.hooks_installed
            &&& nothing_hooked(old(p).runtime) ==> {
                &&& final(p).runtime.timer_processor == Some(1u64)
                &&& final(p).runtime.irq_processor == Some(2u64)
                &&& final(p).runtime.start_processor == Some(3u64)
            }
            &&& old(p)@.arch is X86_64 ==> next == (InitStep::RegisterGsi { gsi: 19 })
            &&& old(p)@.arch !is X86_64 ==> next is CurrentCpu && final(p).runtime.task_runtime_installed
        },
{
    assert(final(p)@.runtime == final(p).runtime && old(p)@.runtime == old(p).runtime);
}

/// The block device of an x86 host is registered for the first VM, with its interrupt; then
/// its interrupt is requested, and where that fails everything is given back.
pub proof fn block_device_is_registered(
    p: &mut AdapterParts,
    gsi: usize,
    flag: bool,
    next: InitStep,
    q: &mut AdapterParts,
    status: i32,
    after: InitStep,
    error: i32,
)
    requires
        old(p)@.wf(),
        old(q)@.wf(),
        call_ensures(AdapterParts::init_resume, (p, InitStep::RegisterGsi { gsi }, HostReply::Flag(flag)), next),
        call_ensures(AdapterParts::init_resume, (q, InitStep::RequestIntx, HostReply::Code(status)), after),
        call_ensures(error_from_errno, (status,), error),
    ensures
        next is RequestIntx,
        old(p).passthrough@.len() < 16 ==> final(p).passthrough@.contains(
            PassthroughDevice { vm_id: 1, base_hpa: 0x5850_4943_0000_0300, length: 1, irq_id: 19 },
        ),
        status < 0 ==> after == (InitStep::ReleaseFdt { error }),
        status >= 0 ==> after is CurrentCpu && final(q).runtime.task_runtime_installed,
{
    assert(old(p)@.devices == old(p).passthrough@ && final(p)@.devices == final(p).passthrough@);
    assert(final(q)@.runtime == final(q).runtime);
    let devices = old(p).passthrough@;
    let device = PassthroughDevice { vm_id: 1, base_hpa: 0x5850_4943_0000_0300, length: 1, irq_id: 19 };
    assert(device == block_device());
    if devices.len() < 16 {
        registered_device_is_kept(devices, device, 0);
    }
}

/// A failure gives back the device tree, the interrupts and the console's input, in that
/// order, and ends loading with the error that began it.
pub proof fn failure_gives_everything_back(p: &mut AdapterParts, step: InitStep, next: InitStep)
    requires
        old(p)@.wf(),
        call_ensures(AdapterParts::init_resume, (p, step, HostReply::Done), next),
    ensures
        step matches InitStep::ReleaseFdt { error } ==> next == (InitStep::ReleaseIrqs { error }),
        step matches InitStep::ReleaseIrqs { error } ==> next == (InitStep::RemoveConsoleInput { error }),
        step matches InitStep::RemoveConsoleInput { error } ==> next == InitStep::Done(Err::<(), i32>(error)),
        final(p)@ == old(p)@,
{
}

/// The CPU that loads is set up, then the host task is started on the first CPU, and loading
/// ends with what came of that.
pub proof fn loading_ends_with_the_host_task(
    p: &mut AdapterParts,
    cpu: usize,
    next: InitStep,
    q: &mut AdapterParts,
    mask: u64,
    spawned: Result<(), i32>,
    end: InitStep,
)
    requires
        old(p)@.wf(),
        old(q)@.wf(),
        call_ensures(AdapterParts::init_resume, (p, InitStep::CurrentCpu, HostReply::CpuId(cpu)), next),
        call_ensures(AdapterParts::init_resume, (q, InitStep::SpawnHostTask { mask }, HostReply::Outcome(spawned)), end),
    ensures
        next is AllocateEntry,
        old(p)@.arch !is Other ==> shared(final(p)@.arch).percpu_ready && shared(final(p)@.arch).last_percpu_cpu_id
            == cpu && shared(final(p)@.arch).bridge == shared(old(p)@.arch).bridge,
        final(p).runtime == old(p).runtime,
        end == InitStep::Done(spawned),
{
    assert(final(p)@.runtime == final(p).runtime && old(p)@.runtime == old(p).runtime);
}

/// A new adapter has no devices, no input and no processors, on the architecture it is for.
pub proof fn new_adapter_is_empty(arch: Arch, p: AdapterParts)
    requires
        arch@.wf(),
        call_ensures(AdapterParts::new, (arch,), p),
    ensures
        p.arch@ == arch@,
        p.passthrough@.len() == 0,
        p.console@.input.len() == 0 && !p.console@.pending && !p.console@.waitable && !p.console@.shell_ready,
        !p.runtime.hooks_installed && !p.runtime.task_runtime_installed && p.runtime.run_calls == 0,
{
    assert(p@.arch == p.arch@ && p@.devices == p.passthrough@ && p@.console == p.console@);
    assert(p@.runtime == p.runtime);
}

/// Unloading gives back the console's input, the device tree, the interrupts and the mappings,
/// and then waits for the host task, where there is one.
pub proof fn unloading_gives_everything_back(step: DropStep, host_task: bool, next: DropStep)
    requires
        call_ensures(module_drop, (step, host_task), next),
    ensures
        step is RemoveConsoleInput ==> next is ReleaseFdt,
        step is ReleaseFdt ==> next is ReleaseIrqs,
        step is ReleaseIrqs ==> next is ReleaseMappings,
        step is ReleaseMappings && host_task ==> next is JoinHostTask,
        step is ReleaseMappings && !host_task ==> next is Done,
        step is JoinHostTask || step is Done ==> next is Done,
{
}

} // verus!
