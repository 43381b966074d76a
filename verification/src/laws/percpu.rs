//! Entering guest mode on a host CPU.
use vstd::prelude::*;

use crate::host::HostReply;
use crate::laws::codes::invalid;
use crate::percpu::{enter_percpu, enter_percpu_resume, EnterStep, PercpuTable};

verus! {

/// Entering begins with the task pinned.
pub proof fn entering_begins_pinned(step: EnterStep)
    requires
        call_ensures(enter_percpu, (), step),
    ensures
        step is MigrateDisable,
{
}

/// A host CPU is set up before it is used, and remembered as set up exactly where
/// that succeeded; then virtualization is switched on unless it is on. All of it
/// happens on the CPU that the task is on. What fails has the task unpinned, and the
/// call ends with that error.
pub proof fn entering_sets_up_the_tasks_cpu(step: EnterStep, table: &mut PercpuTable, reply: HostReply, next: EnterStep)
    requires
        old(table).wf(),
        call_ensures(enter_percpu_resume, (step, table, reply), next),
    ensures
        step is MigrateDisable ==> next == (if reply is Done {
            EnterStep::CurrentCpuId
        } else {
            step
        }),
        step is CurrentCpuId ==> match reply {
            HostReply::CpuId(cpu) => if cpu >= 256 {
                next == (EnterStep::MigrateEnable { ret: invalid() })
            } else if old(table)@[cpu as int] {
                next == (EnterStep::IsEnabled { cpu_id: cpu })
            } else {
                next == (EnterStep::Init { cpu_id: cpu })
            },
            _ => next == step,
        },
        step matches EnterStep::Init { cpu_id } ==> match reply {
            HostReply::Outcome(Ok(_)) => {
                &&& next == (EnterStep::IsEnabled { cpu_id })
                &&& cpu_id < 256 ==> final(table)@[cpu_id as int]
            },
            HostReply::Outcome(Err(err)) => next == (EnterStep::MigrateEnable { ret: err }) && final(table)@ == old(
                table,
            )@,
            _ => next == step && final(table)@ == old(table)@,
        },
        step matches EnterStep::IsEnabled { cpu_id } ==> match reply {
            HostReply::Flag(true) => next == EnterStep::Done(0),
            HostReply::Flag(false) => next == (EnterStep::HardwareEnable { cpu_id }),
            _ => next == step,
        },
        step is HardwareEnable ==> match reply {
            HostReply::Outcome(Ok(_)) => next == EnterStep::Done(0),
            HostReply::Outcome(Err(err)) => next == (EnterStep::MigrateEnable { ret: err }),
            _ => next == step,
        },
        step matches EnterStep::MigrateEnable { ret } ==> next == (if reply is Done {
            EnterStep::Done(ret)
        } else {
            step
        }),
        step is Done ==> next == step,
        !(step is Init) ==> final(table)@ == old(table)@,
        forall|cpu: int|
            0 <= cpu < 256 && !(step matches EnterStep::Init { cpu_id } && cpu_id == cpu) ==> #[trigger] final(table)@[cpu]
                == old(table)@[cpu],
{
}

} // verus!
