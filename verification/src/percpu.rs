//! Entering and leaving guest mode on a host CPU.
use vstd::prelude::*;

use crate::errno::EINVAL;
use crate::host::HostReply;

verus! {

/// Most host CPUs.
pub const MAX_HOST_CPUS: usize = 256;

/// Which host CPUs have their virtualization state set up.
pub struct PercpuTable {
    pub initialized: Vec<bool>,
}

impl View for PercpuTable {
    type V = Seq<bool>;

    open spec fn view(&self) -> Seq<bool> {
        self.initialized@
    }
}

impl PercpuTable {
    /// Every host CPU has a record.
    pub open spec fn wf(&self) -> bool {
        self@.len() == MAX_HOST_CPUS
    }

    /// No host CPU is set up.
    pub fn new() -> (t: PercpuTable)
        ensures
            t.wf(),
            t@ == Seq::new(MAX_HOST_CPUS as nat, |i: int| false),
    {
        let mut initialized: Vec<bool> = Vec::new();
        let mut i: usize = 0;
        while i < MAX_HOST_CPUS
            invariant
                i <= MAX_HOST_CPUS,
                initialized@ == Seq::new(i as nat, |j: int| false),
            decreases MAX_HOST_CPUS - i,
        {
            initialized.push(false);
            i += 1;
        }
        PercpuTable { initialized }
    }
}

/// What entering asks the host for next; `Done` holds the result.
#[derive(Clone, Copy, Debug, PartialEq, Eq, Structural)]
pub enum EnterStep {
    /// Pin the task to its CPU.
    MigrateDisable,
    /// Tell the CPU that the task is on.
    CurrentCpuId,
    /// Set up the virtualization state of a CPU.
    Init { cpu_id: usize },
    /// Tell whether virtualization is on, on a CPU.
    IsEnabled { cpu_id: usize },
    /// Switch virtualization on, on a CPU.
    HardwareEnable { cpu_id: usize },
    /// Unpin the task; the call then ends with `ret`.
    MigrateEnable { ret: i32 },
    Done(i32),
}

/// The step after an answer, and the table after it. An answer to another question
/// changes nothing.
pub open spec fn enter_next(step: EnterStep, table: Seq<bool>, reply: HostReply) -> (EnterStep, Seq<bool>) {
    match (step, reply) {
        (EnterStep::MigrateDisable, HostReply::Done) => (EnterStep::CurrentCpuId, table),
        (EnterStep::CurrentCpuId, HostReply::CpuId(cpu_id)) => if cpu_id >= MAX_HOST_CPUS {
            (EnterStep::MigrateEnable { ret: (-EINVAL) as i32 }, table)
        } else if !table[cpu_id as int] {
            (EnterStep::Init { cpu_id }, table)
        } else {
            (EnterStep::IsEnabled { cpu_id }, table)
        },
        (EnterStep::Init { cpu_id }, HostReply::Outcome(Ok(_))) => (
            EnterStep::IsEnabled { cpu_id },
            if cpu_id < MAX_HOST_CPUS {
                table.update(cpu_id as int, true)
            } else {
                table
            },
        ),
        (EnterStep::Init { cpu_id }, HostReply::Outcome(Err(err))) => (EnterStep::MigrateEnable { ret: err }, table),
        (EnterStep::IsEnabled { cpu_id }, HostReply::Flag(on)) => if on {
            (EnterStep::Done(0), table)
        } else {
            (EnterStep::HardwareEnable { cpu_id }, table)
        },
        (EnterStep::HardwareEnable { cpu_id }, HostReply::Outcome(Ok(_))) => (EnterStep::Done(0), table),
        (EnterStep::HardwareEnable { cpu_id }, HostReply::Outcome(Err(err))) => (
            EnterStep::MigrateEnable { ret: err },
            table,
        ),
        (EnterStep::MigrateEnable { ret }, HostReply::Done) => (EnterStep::Done(ret), table),
        _ => (step, table),
    }
}

/// Begins to enter guest mode.
pub fn enter_percpu() -> (step: EnterStep)
    ensures
        step == EnterStep::MigrateDisable,
{
    EnterStep::MigrateDisable
}

/// Goes on with entering after the host's answer.
pub fn enter_percpu_resume(step: EnterStep, table: &mut PercpuTable, reply: HostReply) -> (next: EnterStep)
    requires
        old(table).wf(),
    ensures
        final(table).wf(),
        (next, final(table)@) == enter_next(step, old(table)@, reply),
{
    match (step, reply) {
        (EnterStep::MigrateDisable, HostReply::Done) => EnterStep::CurrentCpuId,
        (EnterStep::CurrentCpuId, HostReply::CpuId(cpu_id)) => {
            if cpu_id >= MAX_HOST_CPUS {
                EnterStep::MigrateEnable { ret: -EINVAL }
            } else if !table.initialized[cpu_id] {
                EnterStep::Init { cpu_id }
            } else {
                EnterStep::IsEnabled { cpu_id }
            }
        },
        (EnterStep::Init { cpu_id }, HostReply::Outcome(Ok(_))) => {
            if cpu_id < MAX_HOST_CPUS {
                table.initialized[cpu_id] = true;
            }
            EnterStep::IsEnabled { cpu_id }
        },
        (EnterStep::Init { cpu_id: _ }, HostReply::Outcome(Err(err))) => EnterStep::MigrateEnable { ret: err },
        (EnterStep::IsEnabled { cpu_id }, HostReply::Flag(on)) => if on {
            EnterStep::Done(0)
        } else {
            EnterStep::HardwareEnable { cpu_id }
        },
        (EnterStep::HardwareEnable { cpu_id: _ }, HostReply::Outcome(Ok(_))) => EnterStep::Done(0),
        (EnterStep::HardwareEnable { cpu_id: _ }, HostReply::Outcome(Err(err))) => EnterStep::MigrateEnable {
            ret: err,
        },
        (EnterStep::MigrateEnable { ret }, HostReply::Done) => EnterStep::Done(ret),
        _ => step,
    }
}

/// The task is pinned to its CPU while a step waits for its answer.
pub open spec fn pinned_at(step: EnterStep) -> bool {
    match step {
        EnterStep::MigrateDisable => false,
        EnterStep::Done(ret) => ret == 0,
        _ => true,
    }
}

/// The task is pinned after a step was answered: pinned before and not unpinned
/// by the step, or pinned by it.
pub open spec fn pinned_after(step: EnterStep) -> bool {
    match step {
        EnterStep::MigrateDisable => true,
        EnterStep::MigrateEnable { ret } => false,
        _ => pinned_at(step),
    }
}

/// A failed entry carries an error.
pub open spec fn enter_error_set(step: EnterStep) -> bool {
    step matches EnterStep::MigrateEnable { ret } ==> ret != 0
}

/// Entering ends with the task pinned exactly when it succeeds: each answer takes
/// the pinning from where it was to where the next step expects it, as long as
/// failures carry an error.
pub proof fn entering_pins_exactly_on_success(step: EnterStep, table: Seq<bool>, reply: HostReply)
    requires
        enter_error_set(step),
        reply matches HostReply::Outcome(Err(err)) ==> err != 0,
        enter_next(step, table, reply).0 != step,
    ensures
        enter_error_set(enter_next(step, table, reply).0),
        pinned_after(step) == pinned_at(enter_next(step, table, reply).0),
{
}

/// A host CPU that was set up stays so, and is not set up again.
pub proof fn host_cpu_is_set_up_once(step: EnterStep, table: Seq<bool>, reply: HostReply, cpu: int)
    requires
        table.len() == MAX_HOST_CPUS,
        0 <= cpu < MAX_HOST_CPUS,
        table[cpu],
        step is CurrentCpuId,
    ensures
        enter_next(step, table, reply).1[cpu],
        enter_next(step, table, reply).0 != (EnterStep::Init { cpu_id: cpu as usize }),
{
}

/// Leaves guest mode: the host unpins the task. Never fails.
pub fn leave_percpu() -> (ret: i32)
    ensures
        ret == 0,
{
    0
}

} // verus!
