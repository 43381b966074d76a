//! The runtime of the host adapter: processors that are installed once, and what is
//! recorded of timers, starts and the exit.
use vstd::prelude::*;

use crate::arch::timer_base::{bump, bumped};
use crate::core_link::{boot_run, timer_check_events, AxvisorRuntimeStartContext, AxvisorTimerEventContext, CoreEntry};
use crate::host::HostReply;

verus! {

/// The processors of the monitor, as the embedding's keys.
#[derive(Clone, Copy, Debug, PartialEq, Eq, Structural)]
pub struct AxvisorRuntimeHooks {
    pub timer_event_processor: u64,
    pub irq_event_processor: u64,
    pub runtime_start_processor: u64,
}

/// The monitor's own processors.
pub const GLUE_TIMER_PROCESSOR: u64 = 1;

pub const GLUE_IRQ_PROCESSOR: u64 = 2;

pub const GLUE_START_PROCESSOR: u64 = 3;

/// What is recorded of timers.
#[derive(Clone, Copy, Debug, PartialEq, Eq, Structural)]
pub struct TimerRecord {
    pub bridge_last_cpu: usize,
    pub bridge_last_deadline: u64,
    pub hook_calls: u64,
    pub glue_cpu_id: usize,
    pub glue_deadline: u64,
    pub glue_fire_count: u64,
    pub glue_consumed: bool,
}

/// What is recorded of the last start.
#[derive(Clone, Copy, Debug, PartialEq, Eq, Structural)]
pub struct StartRecord {
    pub host_cpu_num: usize,
    pub cpu_id: usize,
    pub runtime_installed: bool,
    pub run_call_index: u64,
    pub processor_present: bool,
    pub processor_invoked: bool,
    pub fallback_used: bool,
    pub prepared: bool,
    pub entered: bool,
    pub returned: bool,
}

/// The runtime of the host adapter.
#[derive(Clone, Copy, Debug, PartialEq, Eq)]
pub struct LinuxRuntimeAdapter {
    pub task_runtime_installed: bool,
    pub hooks_installed: bool,
    pub timer_processor: Option<u64>,
    pub irq_processor: Option<u64>,
    pub start_processor: Option<u64>,
    pub run_calls: u64,
    pub timer: TimerRecord,
    pub start: StartRecord,
    pub release_filesystems_calls: u64,
    pub exit_requested: bool,
    pub exit_code: i32,
}

/// The runtime before anything happened.
pub open spec fn idle_runtime() -> LinuxRuntimeAdapter {
    LinuxRuntimeAdapter {
        task_runtime_installed: false,
        hooks_installed: false,
        timer_processor: None,
        irq_processor: None,
        start_processor: None,
        run_calls: 0,
        timer: TimerRecord {
            bridge_last_cpu: usize::MAX,
            bridge_last_deadline: u64::MAX,
            hook_calls: 0,
            glue_cpu_id: usize::MAX,
            glue_deadline: u64::MAX,
            glue_fire_count: 0,
            glue_consumed: false,
        },
        start: StartRecord {
            host_cpu_num: 0,
            cpu_id: usize::MAX,
            runtime_installed: false,
            run_call_index: 0,
            processor_present: false,
            processor_invoked: false,
            fallback_used: false,
            prepared: false,
            entered: false,
            returned: false,
        },
        release_filesystems_calls: 0,
        exit_requested: false,
        exit_code: 0,
    }
}

/// A processor after one was asked to be installed: the first stays.
pub open spec fn first_of(installed: Option<u64>, processor: u64) -> Option<u64> {
    match installed {
        Some(p) => Some(p),
        None => Some(processor),
    }
}

/// The runtime after hooks were asked to be installed: only the first time, and each
/// only as far as the ones before it could be.
pub open spec fn hooked(r: LinuxRuntimeAdapter, hooks: AxvisorRuntimeHooks) -> LinuxRuntimeAdapter {
    if r.hooks_installed {
        r
    } else {
        let timer_ok = r.timer_processor is None;
        let irq_ok = timer_ok && r.irq_processor is None;
        LinuxRuntimeAdapter {
            hooks_installed: true,
            timer_processor: first_of(r.timer_processor, hooks.timer_event_processor),
            irq_processor: if timer_ok {
                first_of(r.irq_processor, hooks.irq_event_processor)
            } else {
                r.irq_processor
            },
            start_processor: if irq_ok {
                first_of(r.start_processor, hooks.runtime_start_processor)
            } else {
                r.start_processor
            },
            ..r
        }
    }
}

/// What a timer that expired asks the host for next.
#[derive(Clone, Copy, Debug, PartialEq, Eq, Structural)]
pub enum TimerBridgeStep {
    /// Call an entry of the monitor. The answer is a flag: the entry was reached.
    Invoke(CoreEntry),
    Done,
}

/// What a run asks the host for next.
#[derive(Clone, Copy, Debug, PartialEq, Eq, Structural)]
pub enum RunRuntimeStep {
    /// Call an entry of the monitor.
    Invoke(CoreEntry),
    Done,
}

/// The record of a start: it is prepared, and neither entered nor returned.
pub open spec fn start_recorded(s: StartRecord, ctx: AxvisorRuntimeStartContext) -> StartRecord {
    StartRecord {
        host_cpu_num: ctx.host_cpu_num,
        cpu_id: ctx.current_cpu_id,
        runtime_installed: ctx.kernel_task_runtime_installed,
        run_call_index: ctx.run_call_index,
        prepared: true,
        entered: false,
        returned: false,
        ..s
    }
}

/// The runtime when a run begins, and what follows: with a processor the monitor is
/// entered, without one the start counts as returned.
pub open spec fn run_begun(r: LinuxRuntimeAdapter, host_cpu_num: usize, current_cpu_id: usize) -> (
    LinuxRuntimeAdapter,
    RunRuntimeStep,
) {
    let index = bumped(r.run_calls);
    let ctx = AxvisorRuntimeStartContext {
        host_cpu_num,
        current_cpu_id,
        kernel_task_runtime_installed: r.task_runtime_installed,
        run_call_index: index,
    };
    let present = r.start_processor is Some;
    let recorded = start_recorded(r.start, ctx);
    (
        LinuxRuntimeAdapter {
            run_calls: index,
            start: StartRecord {
                processor_present: present,
                processor_invoked: present,
                fallback_used: !present,
                entered: true,
                returned: !present,
                ..recorded
            },
            ..r
        },
        if present {
            RunRuntimeStep::Invoke(CoreEntry::BootRun)
        } else {
            RunRuntimeStep::Done
        },
    )
}

/// The runtime when a timer expired, and what follows: it is recorded, and with a
/// processor the monitor looks at its timers.
pub open spec fn timer_bridged(r: LinuxRuntimeAdapter, event: AxvisorTimerEventContext) -> (
    LinuxRuntimeAdapter,
    TimerBridgeStep,
) {
    let bridged = TimerRecord {
        bridge_last_cpu: event.cpu_id,
        bridge_last_deadline: event.deadline_nanos,
        hook_calls: bumped(r.timer.hook_calls),
        ..r.timer
    };
    if r.timer_processor is Some {
        (
            LinuxRuntimeAdapter {
                timer: TimerRecord {
                    glue_cpu_id: event.cpu_id,
                    glue_deadline: event.deadline_nanos,
                    glue_fire_count: event.fire_count,
                    glue_consumed: false,
                    ..bridged
                },
                ..r
            },
            TimerBridgeStep::Invoke(CoreEntry::TimerCheckEvents),
        )
    } else {
        (LinuxRuntimeAdapter { timer: bridged, ..r }, TimerBridgeStep::Done)
    }
}

impl LinuxRuntimeAdapter {
    /// Nothing happened yet.
    pub fn new() -> (r: LinuxRuntimeAdapter)
        ensures
            r == idle_runtime(),
    {
        LinuxRuntimeAdapter {
            task_runtime_installed: false,
            hooks_installed: false,
            timer_processor: None,
            irq_processor: None,
            start_processor: None,
            run_calls: 0,
            timer: TimerRecord {
                bridge_last_cpu: usize::MAX,
                bridge_last_deadline: u64::MAX,
                hook_calls: 0,
                glue_cpu_id: usize::MAX,
                glue_deadline: u64::MAX,
                glue_fire_count: 0,
                glue_consumed: false,
            },
            start: StartRecord {
                host_cpu_num: 0,
                cpu_id: usize::MAX,
                runtime_installed: false,
                run_call_index: 0,
                processor_present: false,
                processor_invoked: false,
                fallback_used: false,
                prepared: false,
                entered: false,
                returned: false,
            },
            release_filesystems_calls: 0,
            exit_requested: false,
            exit_code: 0,
        }
    }

    /// Installs the processor of timers; says whether there was none.
    pub fn install_timer_event_processor(&mut self, processor: u64) -> (r: bool)
        ensures
            r == (old(self).timer_processor is None),
            *final(self) == (LinuxRuntimeAdapter {
                timer_processor: first_of(old(self).timer_processor, processor),
                ..*old(self)
            }),
    {
        if self.timer_processor.is_none() {
            self.timer_processor = Some(processor);
            true
        } else {
            false
        }
    }

    /// Installs the processor of interrupts; says whether there was none.
    pub fn install_irq_event_processor(&mut self, processor: u64) -> (r: bool)
        ensures
            r == (old(self).irq_processor is None),
            *final(self) == (LinuxRuntimeAdapter {
                irq_processor: first_of(old(self).irq_processor, processor),
                ..*old(self)
            }),
    {
        if self.irq_processor.is_none() {
            self.irq_processor = Some(processor);
            true
        } else {
            false
        }
    }

    /// Installs the processor of starts; says whether there was none.
    pub fn install_runtime_start_processor(&mut self, processor: u64) -> (r: bool)
        ensures
            r == (old(self).start_processor is None),
            *final(self) == (LinuxRuntimeAdapter {
                start_processor: first_of(old(self).start_processor, processor),
                ..*old(self)
            }),
    {
        if self.start_processor.is_none() {
            self.start_processor = Some(processor);
            true
        } else {
            false
        }
    }

    /// Installs all processors; says whether all could be.
    pub fn install_axvisor_runtime_hooks(&mut self, hooks: AxvisorRuntimeHooks) -> (r: bool)
        ensures
            *final(self) == hooked(*old(self), hooks),
            r == (!old(self).hooks_installed && old(self).timer_processor is None && old(self).irq_processor is None
                && old(self).start_processor is None),
    {
        if self.hooks_installed {
            return false;
        }
        self.hooks_installed = true;
        self.install_timer_event_processor(hooks.timer_event_processor) && self.install_irq_event_processor(
            hooks.irq_event_processor,
        ) && self.install_runtime_start_processor(hooks.runtime_start_processor)
    }

    /// Installs the monitor's own processors; says whether all could be.
    pub fn install(&mut self) -> (r: bool)
        ensures
            *final(self) == hooked(*old(self), glue_hooks()),
            r == (!old(self).hooks_installed && old(self).timer_processor is None && old(self).irq_processor is None
                && old(self).start_processor is None),
    {
        self.install_axvisor_runtime_hooks(
            AxvisorRuntimeHooks {
                timer_event_processor: GLUE_TIMER_PROCESSOR,
                irq_event_processor: GLUE_IRQ_PROCESSOR,
                runtime_start_processor: GLUE_START_PROCESSOR,
            },
        )
    }

    /// Installs the runtime of kernel tasks; says whether it was not.
    pub fn install_kernel_task_runtime(&mut self) -> (r: bool)
        ensures
            r == !old(self).task_runtime_installed,
            *final(self) == (LinuxRuntimeAdapter { task_runtime_installed: true, ..*old(self) }),
    {
        let fresh: bool = !self.task_runtime_installed;
        self.task_runtime_installed = true;
        fresh
    }

    /// A timer of a CPU expired; `fire_count` is how many have so far.
    pub fn linux_timer_bridge(&mut self, cpu_id: usize, deadline_nanos: u64, fire_count: u64) -> (step: TimerBridgeStep)
        ensures
            (*final(self), step) == timer_bridged(
                *old(self),
                (AxvisorTimerEventContext { cpu_id, deadline_nanos, fire_count }),
            ),
    {
        let event = AxvisorTimerEventContext { cpu_id, deadline_nanos, fire_count };
        self.timer = TimerRecord {
            bridge_last_cpu: cpu_id,
            bridge_last_deadline: deadline_nanos,
            hook_calls: bump(self.timer.hook_calls),
            ..self.timer
        };
        if self.timer_processor.is_none() {
            return TimerBridgeStep::Done;
        }
        self.timer = TimerRecord {
            glue_cpu_id: event.cpu_id,
            glue_deadline: event.deadline_nanos,
            glue_fire_count: event.fire_count,
            glue_consumed: false,
            ..self.timer
        };
        TimerBridgeStep::Invoke(timer_check_events(event))
    }

    /// Goes on with a timer that expired.
    pub fn timer_bridge_resume(&mut self, step: TimerBridgeStep, reply: HostReply) -> (next: TimerBridgeStep)
        ensures
            match (step, reply) {
                (TimerBridgeStep::Invoke(_), HostReply::Flag(reached)) => {
                    &&& next == TimerBridgeStep::Done
                    &&& *final(self) == (LinuxRuntimeAdapter {
                        timer: TimerRecord { glue_consumed: reached, ..old(self).timer },
                        ..*old(self)
                    })
                },
                _ => next == step && *final(self) == *old(self),
            },
    {
        match (step, reply) {
            (TimerBridgeStep::Invoke(_), HostReply::Flag(reached)) => {
                self.timer = TimerRecord { glue_consumed: reached, ..self.timer };
                TimerBridgeStep::Done
            },
            _ => step,
        }
    }

    /// Runs the monitor.
    pub fn run(&mut self, host_cpu_num: usize, current_cpu_id: usize) -> (step: RunRuntimeStep)
        ensures
            (*final(self), step) == run_begun(*old(self), host_cpu_num, current_cpu_id),
    {
        self.run_calls = bump(self.run_calls);
        let ctx = AxvisorRuntimeStartContext {
            host_cpu_num,
            current_cpu_id,
            kernel_task_runtime_installed: self.task_runtime_installed,
            run_call_index: self.run_calls,
        };
        let present: bool = self.start_processor.is_some();
        self.start = StartRecord {
            host_cpu_num: ctx.host_cpu_num,
            cpu_id: ctx.current_cpu_id,
            runtime_installed: ctx.kernel_task_runtime_installed,
            run_call_index: ctx.run_call_index,
            processor_present: present,
            processor_invoked: present,
            fallback_used: !present,
            prepared: true,
            entered: true,
            returned: !present,
        };
        if present {
            RunRuntimeStep::Invoke(boot_run(ctx))
        } else {
            RunRuntimeStep::Done
        }
    }

    /// Goes on with a run once the monitor returned.
    pub fn run_resume(&mut self, step: RunRuntimeStep, reply: HostReply) -> (next: RunRuntimeStep)
        ensures
            match (step, reply) {
                (RunRuntimeStep::Invoke(_), HostReply::Done) => {
                    &&& next == RunRuntimeStep::Done
                    &&& *final(self) == (LinuxRuntimeAdapter {
                        start: StartRecord { returned: true, ..old(self).start },
                        ..*old(self)
                    })
                },
                _ => next == step && *final(self) == *old(self),
            },
    {
        match (step, reply) {
            (RunRuntimeStep::Invoke(_), HostReply::Done) => {
                self.start = StartRecord { returned: true, ..self.start };
                RunRuntimeStep::Done
            },
            _ => step,
        }
    }

    /// Counts a request to release the host's file systems.
    pub fn release_host_filesystems(&mut self) -> (calls: u64)
        ensures
            calls == bumped(old(self).release_filesystems_calls),
            *final(self) == (LinuxRuntimeAdapter { release_filesystems_calls: calls, ..*old(self) }),
    {
        self.release_filesystems_calls = bump(self.release_filesystems_calls);
        self.release_filesystems_calls
    }

    /// Records that the host is to exit.
    pub fn exit(&mut self, exit_code: i32)
        ensures
            *final(self) == (LinuxRuntimeAdapter { exit_requested: true, exit_code, ..*old(self) }),
    {
        self.exit_code = exit_code;
        self.exit_requested = true;
    }
}

/// The monitor's own processors.
pub open spec fn glue_hooks() -> AxvisorRuntimeHooks {
    AxvisorRuntimeHooks {
        timer_event_processor: GLUE_TIMER_PROCESSOR,
        irq_event_processor: GLUE_IRQ_PROCESSOR,
        runtime_start_processor: GLUE_START_PROCESSOR,
    }
}

/// Hooks are installed once: a second attempt changes nothing.
pub proof fn hooks_are_installed_once(r: LinuxRuntimeAdapter, first: AxvisorRuntimeHooks, second: AxvisorRuntimeHooks)
    ensures
        hooked(hooked(r, first), second) == hooked(r, first),
{
}

/// A processor that is installed is never replaced.
pub proof fn installed_processor_stays(r: LinuxRuntimeAdapter, hooks: AxvisorRuntimeHooks)
    ensures
        r.timer_processor is Some ==> hooked(r, hooks).timer_processor == r.timer_processor,
        r.irq_processor is Some ==> hooked(r, hooks).irq_processor == r.irq_processor,
        r.start_processor is Some ==> hooked(r, hooks).start_processor == r.start_processor,
{
}

/// A start uses either the processor or the fallback, never both, and counts as
/// entered; it has returned exactly if nothing is left to do.
pub proof fn start_uses_processor_or_fallback(r: LinuxRuntimeAdapter, host_cpu_num: usize, current_cpu_id: usize)
    ensures
        ({
            let (after, step) = run_begun(r, host_cpu_num, current_cpu_id);
            &&& after.start.processor_invoked != after.start.fallback_used
            &&& after.start.prepared && after.start.entered
            &&& after.start.returned == (step == RunRuntimeStep::Done)
        }),
{
}

} // verus!
