//! The runtime of the host adapter.
use vstd::prelude::*;

use crate::core_link::CoreEntry;
use crate::host::HostReply;
use crate::laws::arch::one_more;
use crate::runtime::{AxvisorRuntimeHooks, LinuxRuntimeAdapter, RunRuntimeStep, TimerBridgeStep};

verus! {

/// No processor is installed at first, and nothing is recorded.
pub proof fn nothing_is_installed_at_first(r: LinuxRuntimeAdapter)
    requires
        call_ensures(LinuxRuntimeAdapter::new, (), r),
    ensures
        !r.task_runtime_installed && !r.hooks_installed,
        r.timer_processor is None && r.irq_processor is None && r.start_processor is None,
        r.run_calls == 0 && r.release_filesystems_calls == 0,
        !r.exit_requested && r.exit_code == 0,
        r.timer.hook_calls == 0 && r.timer.bridge_last_cpu == usize::MAX && r.timer.bridge_last_deadline == u64::MAX,
        r.timer.glue_cpu_id == usize::MAX && r.timer.glue_deadline == u64::MAX && r.timer.glue_fire_count == 0,
        !r.timer.glue_consumed,
        r.start.host_cpu_num == 0 && r.start.cpu_id == usize::MAX && r.start.run_call_index == 0,
        !r.start.runtime_installed && !r.start.processor_present && !r.start.processor_invoked,
        !r.start.fallback_used && !r.start.prepared && !r.start.entered && !r.start.returned,
{
}

/// A processor is installed where there is none, each in its own place.
pub proof fn first_processor_is_installed(
    a: &mut LinuxRuntimeAdapter,
    b: &mut LinuxRuntimeAdapter,
    c: &mut LinuxRuntimeAdapter,
    processor: u64,
    ra: bool,
    rb: bool,
    rc: bool,
)
    requires
        call_ensures(LinuxRuntimeAdapter::install_timer_event_processor, (a, processor), ra),
        call_ensures(LinuxRuntimeAdapter::install_irq_event_processor, (b, processor), rb),
        call_ensures(LinuxRuntimeAdapter::install_runtime_start_processor, (c, processor), rc),
    ensures
        ra <==> old(a).timer_processor is None,
        ra ==> final(a).timer_processor == Some(processor) && final(a).irq_processor == old(a).irq_processor && final(
            a).start_processor == old(a).start_processor,
        !ra ==> *final(a) == *old(a),
        rb <==> old(b).irq_processor is None,
        rb ==> final(b).irq_processor == Some(processor) && final(b).timer_processor == old(b).timer_processor && final(
            b).start_processor == old(b).start_processor,
        !rb ==> *final(b) == *old(b),
        rc <==> old(c).start_processor is None,
        rc ==> final(c).start_processor == Some(processor) && final(c).timer_processor == old(c).timer_processor
            && final(c).irq_processor == old(c).irq_processor,
        !rc ==> *final(c) == *old(c),
{
}

/// On a runtime without processors all hooks are installed, each in its own place, and those
/// of the monitor are three different ones; a second time nothing changes.
pub proof fn hooks_go_to_their_places(
    a: &mut LinuxRuntimeAdapter,
    hooks: AxvisorRuntimeHooks,
    r: bool,
    b: &mut LinuxRuntimeAdapter,
    own: bool,
)
    requires
        call_ensures(LinuxRuntimeAdapter::install_axvisor_runtime_hooks, (a, hooks), r),
        call_ensures(LinuxRuntimeAdapter::install, (b,), own),
    ensures
        r <==> !old(a).hooks_installed && old(a).timer_processor is None && old(a).irq_processor is None && old(
            a).start_processor is None,
        r ==> {
            &&& final(a).timer_processor == Some(hooks.timer_event_processor)
            &&& final(a).irq_processor == Some(hooks.irq_event_processor)
            &&& final(a).start_processor == Some(hooks.runtime_start_processor)
        },
        final(a).hooks_installed,
        old(a).hooks_installed ==> *final(a) == *old(a),
        old(a).timer_processor is Some ==> final(a).timer_processor == old(a).timer_processor && final(a).irq_processor
            == old(a).irq_processor && final(a).start_processor == old(a).start_processor,
        old(a).irq_processor is Some ==> final(a).irq_processor == old(a).irq_processor && final(a).start_processor
            == old(a).start_processor,
        old(a).start_processor is Some ==> final(a).start_processor == old(a).start_processor,
        !old(a).hooks_installed && old(a).timer_processor is None ==> final(a).timer_processor == Some(
            hooks.timer_event_processor,
        ),
        !old(a).hooks_installed && old(a).timer_processor is None && old(a).irq_processor is None ==> final(
            a).irq_processor == Some(hooks.irq_event_processor),
        final(a).run_calls == old(a).run_calls && final(a).timer == old(a).timer && final(a).start == old(a).start,
        own <==> !old(b).hooks_installed && old(b).timer_processor is None && old(b).irq_processor is None && old(
            b).start_processor is None,
        own ==> final(b).timer_processor == Some(1u64) && final(b).irq_processor == Some(2u64) && final(
            b).start_processor == Some(3u64),
        final(b).hooks_installed,
        old(b).hooks_installed ==> *final(b) == *old(b),
{
}

/// The runtime of kernel tasks is installed once; requests to release file systems are
/// counted; the exit code is held.
pub proof fn requests_are_recorded(
    a: &mut LinuxRuntimeAdapter,
    fresh: bool,
    b: &mut LinuxRuntimeAdapter,
    calls: u64,
    c: &mut LinuxRuntimeAdapter,
    code: i32,
)
    requires
        call_ensures(LinuxRuntimeAdapter::install_kernel_task_runtime, (a,), fresh),
        call_ensures(LinuxRuntimeAdapter::release_host_filesystems, (b,), calls),
        call_ensures(LinuxRuntimeAdapter::exit, (c, code), ()),
    ensures
        fresh <==> !old(a).task_runtime_installed,
        final(a).task_runtime_installed,
        final(a).start_processor == old(a).start_processor && final(a).hooks_installed == old(a).hooks_installed,
        calls == one_more(old(b).release_filesystems_calls) && final(b).release_filesystems_calls == calls,
        final(b).exit_requested == old(b).exit_requested,
        final(c).exit_requested && final(c).exit_code == code,
        final(c).release_filesystems_calls == old(c).release_filesystems_calls,
{
}

/// A timer that expired is recorded with its CPU and deadline; with a processor the monitor
/// looks at its timers, and what became of that is recorded.
pub proof fn expired_timer_reaches_the_monitor(
    a: &mut LinuxRuntimeAdapter,
    cpu: usize,
    deadline: u64,
    fired: u64,
    step: TimerBridgeStep,
    b: &mut LinuxRuntimeAdapter,
    before: TimerBridgeStep,
    reply: HostReply,
    next: TimerBridgeStep,
)
    requires
        call_ensures(LinuxRuntimeAdapter::linux_timer_bridge, (a, cpu, deadline, fired), step),
        call_ensures(LinuxRuntimeAdapter::timer_bridge_resume, (b, before, reply), next),
    ensures
        final(a).timer.bridge_last_cpu == cpu,
        final(a).timer.bridge_last_deadline == deadline,
        final(a).timer.hook_calls == one_more(old(a).timer.hook_calls),
        old(a).timer_processor is Some ==> {
            &&& step == TimerBridgeStep::Invoke(CoreEntry::TimerCheckEvents)
            &&& final(a).timer.glue_cpu_id == cpu
            &&& final(a).timer.glue_deadline == deadline
            &&& final(a).timer.glue_fire_count == fired
            &&& !final(a).timer.glue_consumed
        },
        old(a).timer_processor is None ==> step is Done && final(a).timer.glue_cpu_id == old(a).timer.glue_cpu_id
            && final(a).timer.glue_deadline == old(a).timer.glue_deadline,
        final(a).start == old(a).start && final(a).run_calls == old(a).run_calls,
        before is Invoke && reply is Flag ==> next is Done && final(b).timer.glue_consumed == reply->Flag_0 && final(
            b).timer.glue_cpu_id == old(b).timer.glue_cpu_id && final(b).timer.hook_calls == old(b).timer.hook_calls,
        !(before is Invoke && reply is Flag) ==> next == before && *final(b) == *old(b),
{
}

/// A run is counted and recorded with the host's CPUs; with a processor of starts the monitor
/// boots, and the run has returned once that did; without one it has returned at once.
pub proof fn run_boots_the_monitor(
    a: &mut LinuxRuntimeAdapter,
    cpus: usize,
    cpu: usize,
    step: RunRuntimeStep,
    b: &mut LinuxRuntimeAdapter,
    before: RunRuntimeStep,
    reply: HostReply,
    next: RunRuntimeStep,
)
    requires
        call_ensures(LinuxRuntimeAdapter::run, (a, cpus, cpu), step),
        call_ensures(LinuxRuntimeAdapter::run_resume, (b, before, reply), next),
    ensures
        final(a).run_calls == one_more(old(a).run_calls),
        final(a).start.host_cpu_num == cpus,
        final(a).start.cpu_id == cpu,
        final(a).start.runtime_installed == old(a).task_runtime_installed,
        final(a).start.run_call_index == final(a).run_calls,
        final(a).start.prepared && final(a).start.entered,
        old(a).start_processor is Some ==> {
            &&& step == RunRuntimeStep::Invoke(CoreEntry::BootRun)
            &&& final(a).start.processor_present && final(a).start.processor_invoked
            &&& !final(a).start.fallback_used && !final(a).start.returned
        },
        old(a).start_processor is None ==> {
            &&& step is Done
            &&& !final(a).start.processor_present && !final(a).start.processor_invoked
            &&& final(a).start.fallback_used && final(a).start.returned
        },
        final(a).timer == old(a).timer && final(a).exit_requested == old(a).exit_requested,
        before is Invoke && reply is Done ==> next is Done && final(b).start.returned && final(b).start.cpu_id == old(
            b).start.cpu_id && final(b).start.fallback_used == old(b).start.fallback_used,
        !(before is Invoke && reply is Done) ==> next == before && *final(b) == *old(b),
{
}

} // verus!
