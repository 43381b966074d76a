//! The links from the host adapter into the virtual machine monitor.
use vstd::prelude::*;

verus! {

/// An external interrupt that waits to be injected.
#[derive(Clone, Copy, Debug, PartialEq, Eq, Structural)]
pub struct ExternalIrqEvent {
    pub vector: usize,
    pub irq_id: usize,
    pub vm_id: usize,
    pub cpu_id: usize,
    pub call_index: u64,
}

/// A timer that expired.
#[derive(Clone, Copy, Debug, PartialEq, Eq, Structural)]
pub struct AxvisorTimerEventContext {
    pub cpu_id: usize,
    pub deadline_nanos: u64,
    pub fire_count: u64,
}

/// What the monitor is started with.
#[derive(Clone, Copy, Debug, PartialEq, Eq, Structural)]
pub struct AxvisorRuntimeStartContext {
    pub host_cpu_num: usize,
    pub current_cpu_id: usize,
    pub kernel_task_runtime_installed: bool,
    pub run_call_index: u64,
}

/// An entry of the virtual machine monitor.
#[derive(Clone, Copy, Debug, PartialEq, Eq, Structural)]
pub enum CoreEntry {
    /// Boot, and run until the end.
    BootRun,
    /// See which timers are due.
    TimerCheckEvents,
    /// Inject an interrupt into a VM.
    InjectInterrupt { vm_id: usize, irq_id: usize },
}

/// The entry that boots the monitor.
pub fn axvisor_core_boot_entry() -> (entry: CoreEntry)
    ensures
        entry == CoreEntry::BootRun,
{
    CoreEntry::BootRun
}

/// The entry for a start of the monitor, whatever it is started with.
pub fn boot_run(_ctx: AxvisorRuntimeStartContext) -> (entry: CoreEntry)
    ensures
        entry == CoreEntry::BootRun,
{
    axvisor_core_boot_entry()
}

/// The entry for a timer that expired, whichever it is.
pub fn timer_check_events(_event: AxvisorTimerEventContext) -> (entry: CoreEntry)
    ensures
        entry == CoreEntry::TimerCheckEvents,
{
    CoreEntry::TimerCheckEvents
}

/// An event names an interrupt and a VM.
pub open spec fn injectable(event: ExternalIrqEvent) -> bool {
    event.irq_id != 0 && event.vm_id != usize::MAX
}

/// The entry for an external interrupt: an event that names no interrupt or no VM is
/// passed over.
pub fn inject_external_interrupt(event: ExternalIrqEvent) -> (entry: Option<CoreEntry>)
    ensures
        entry == (if injectable(event) {
            Some(CoreEntry::InjectInterrupt { vm_id: event.vm_id, irq_id: event.irq_id })
        } else {
            None
        }),
{
    if event.irq_id == 0 {
        return None;
    }
    if event.vm_id == usize::MAX {
        return None;
    }
    Some(CoreEntry::InjectInterrupt { vm_id: event.vm_id, irq_id: event.irq_id })
}

} // verus!
