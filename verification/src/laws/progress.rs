//! The housekeeping between two guest entries, the detection of spinning vCPUs, and
//! what is worth a log line.
use vstd::prelude::*;

use crate::env::Backend;
use crate::host::{note_internal_run_progress, should_log_raw_exit, HostReply, VcpuExit, VcpuRef};
use crate::irq::{virq_resume, VirqStep};
use crate::laws::run::{refers_to, same_but_for, same_but_for_reads, waits_for_nothing};
use crate::percpu::{enter_percpu_resume, EnterStep, PercpuTable};
use crate::progress::{make_internal_run_progress, progress_resume, vcpu_ref_at, ProgressStep};
use crate::soft_ple::{is_oversubscribed, SoftPle, SpinAction, SpinTrack};
use crate::state::{BackendVcpu, Bridge};
use crate::vcpu::vm_active_vcpu_count;

verus! {

/// The housekeeping begins for the vCPU of a record, and forgets the reads that wait
/// exactly where it is asked to.
pub proof fn housekeeping_begins_for_its_vcpu(env: &mut Backend, slot: usize, clear: bool, step: ProgressStep)
    requires
        old(env).wf(),
        slot < 64,
        call_ensures(make_internal_run_progress, (env, slot, clear), step),
    ensures
        ({
            let was = old(env)@.bridge.vcpus[slot as int];
            let now = final(env)@.bridge.vcpus[slot as int];
            &&& step matches ProgressStep::OnlineCpus { vcpu } && refers_to(vcpu, was)
            &&& clear ==> waits_for_nothing(now) && same_but_for_reads(was, now)
            &&& !clear ==> now == was
            &&& same_but_for(old(env)@, final(env)@, slot as int)
        }),
{
}

/// Where the host gives its CPU away: towards a waiting vCPU, then unpinned.
pub open spec fn ends_the_count(step: ProgressStep, m: VcpuRef, scarce: bool) -> bool {
    if scarce {
        step matches ProgressStep::DirectedYield { vcpu } && vcpu == m
    } else {
        step is CondResched
    }
}

/// The housekeeping stays with its vCPU. Where more vCPUs compete than CPUs are online
/// every vCPU's timers are drained and the task gives its CPU away before it enters
/// guest mode anew; else only its own timers are, and it keeps its CPU.
pub proof fn housekeeping_stays_with_its_vcpu(
    step: ProgressStep,
    env: &mut Backend,
    count: &mut usize,
    reply: HostReply,
    next: ProgressStep,
    scarce: bool,
)
    requires
        old(env).wf(),
        *old(count) < usize::MAX,
        call_ensures(progress_resume, (step, env, count, reply), next),
        (step, reply) matches (ProgressStep::OnlineCpus { vcpu }, HostReply::Online(online)) ==> call_ensures(
            is_oversubscribed,
            (&old(env).bridge, vcpu.vm_handle, online),
            scarce,
        ),
    ensures
        step matches ProgressStep::OnlineCpus { vcpu } ==> next == (if reply is Online {
            ProgressStep::ExpireTimers { vcpu, all: scarce }
        } else {
            step
        }),
        step matches ProgressStep::ExpireTimers { vcpu, all } ==> if !(reply is Done) {
            next == step && *final(count) == *old(count)
        } else if vcpu.vcpu_id == 0 {
            &&& next matches ProgressStep::VirtualIrqs { vcpu: v, scarce: s, virq: VirqStep::Pit { vcpu_id, line } } && v
                == vcpu && s == all && vcpu_id == 0
            &&& *final(count) == *old(count)
        } else {
            &&& *final(count) == *old(count) + 1
            &&& *final(count) as int % 4096 == 0 ==> next == (ProgressStep::Log {
                vcpu,
                scarce: all,
                count: *final(count),
            })
            &&& *final(count) as int % 4096 != 0 ==> ends_the_count(next, vcpu, all)
        },
        step matches ProgressStep::Log { vcpu, scarce: s, count: c } ==> *final(count) == *old(count) && if reply is Done {
            ends_the_count(next, vcpu, s)
        } else {
            next == step
        },
        step matches ProgressStep::DirectedYield { vcpu } ==> next == (if reply is Flag {
            ProgressStep::Unpin { vcpu }
        } else {
            step
        }),
        step matches ProgressStep::Unpin { vcpu } ==> next == (if reply is Done {
            ProgressStep::SpinPark { vcpu }
        } else {
            step
        }),
        step is SpinPark ==> match reply {
            HostReply::Code(park) => {
                &&& park < 0 ==> next == (ProgressStep::Reenter { ret: park, enter: EnterStep::MigrateDisable })
                &&& park == 0 ==> next is ScheduleNow
                &&& park > 0 ==> next == (ProgressStep::Reenter { ret: 0, enter: EnterStep::MigrateDisable })
            },
            _ => next == step,
        },
        step is ScheduleNow ==> next == (if reply is Done {
            ProgressStep::Reenter { ret: 0, enter: EnterStep::MigrateDisable }
        } else {
            step
        }),
        step is CondResched ==> next == (if reply is Code {
            ProgressStep::Done(0)
        } else {
            step
        }),
        step is Done ==> next == step,
        final(env)@.bridge == old(env)@.bridge && final(env)@.contexts == old(env)@.contexts && final(env)@.soft_ple == old(
            env,
        )@.soft_ple,
{
}

/// After the device interrupts are delivered the exit is counted, and the count is
/// logged where it is a multiple of 4096.
pub proof fn housekeeping_delivers_then_counts(
    step: ProgressStep,
    env: &mut Backend,
    count: &mut usize,
    reply: HostReply,
    next: ProgressStep,
    vcpu: VcpuRef,
    scarce: bool,
    virq: VirqStep,
    delivered: VirqStep,
)
    requires
        old(env).wf(),
        *old(count) < usize::MAX,
        step == (ProgressStep::VirtualIrqs { vcpu, scarce, virq }),
        call_ensures(virq_resume, (virq, &old(env).contexts, reply), delivered),
        call_ensures(progress_resume, (step, env, count, reply), next),
    ensures
        !(delivered is Done) ==> next == (ProgressStep::VirtualIrqs { vcpu, scarce, virq: delivered }) && *final(count)
            == *old(count),
        delivered is Done ==> {
            &&& *final(count) == *old(count) + 1
            &&& *final(count) as int % 4096 == 0 ==> next == (ProgressStep::Log { vcpu, scarce, count: *final(count) })
            &&& *final(count) as int % 4096 != 0 ==> ends_the_count(next, vcpu, scarce)
        },
        final(env)@ == old(env)@,
{
}

/// Entering guest mode anew is entering guest mode; whatever came of it the
/// housekeeping ends with the result that it had.
pub proof fn housekeeping_enters_anew(
    step: ProgressStep,
    env: &mut Backend,
    count: &mut usize,
    reply: HostReply,
    next: ProgressStep,
    ret: i32,
    enter: EnterStep,
    table: &mut PercpuTable,
    entered: EnterStep,
)
    requires
        old(env).wf(),
        *old(count) < usize::MAX,
        step == (ProgressStep::Reenter { ret, enter }),
        old(table)@ == old(env)@.percpu,
        call_ensures(enter_percpu_resume, (enter, table, reply), entered),
        call_ensures(progress_resume, (step, env, count, reply), next),
    ensures
        next == (if entered is Done {
            ProgressStep::Done(ret)
        } else {
            ProgressStep::Reenter { ret, enter: entered }
        }),
        final(env)@.percpu == final(table)@,
        *final(count) == *old(count),
{
}

/// A reference to a record's vCPU names its VM and its id.
pub proof fn reference_names_the_record(env: &Backend, slot: usize, r: VcpuRef)
    requires
        env.wf(),
        slot < 64,
        call_ensures(vcpu_ref_at, (env, slot), r),
    ensures
        refers_to(r, env@.bridge.vcpus[slot as int]),
{
}

/// How many of the first records are vCPUs of a VM that compete for a host CPU: its
/// first vCPU, and those that were started.
pub open spec fn competing(s: Seq<BackendVcpu>, h: u64, upto: int) -> int
    decreases upto,
{
    if upto <= 0 {
        0
    } else {
        let v = s[upto - 1];
        competing(s, h, upto - 1) + (if v.in_use && v.vm_handle == h && (v.id == 0 || v.sipi_started) {
            1int
        } else {
            0
        })
    }
}

proof fn lemma_competing(s: Seq<BackendVcpu>, h: u64, upto: int)
    requires
        0 <= upto <= s.len(),
    ensures
        crate::vcpu::running_count(s.take(upto), h) == competing(s, h, upto),
    decreases upto,
{
    if upto > 0 {
        lemma_competing(s, h, upto - 1);
        assert(s.take(upto).drop_last() =~= s.take(upto - 1));
        assert(s.take(upto).last() == s[upto - 1]);
    } else {
        assert(s.take(0).len() == 0);
    }
}

/// Host CPUs are scarce exactly where more vCPUs of the VM compete than are online;
/// a vCPU that was created and never started does not compete.
pub proof fn scarce_means_more_vcpus_than_cpus(b: &Bridge, h: u64, online: usize, n: usize, scarce: bool)
    requires
        b.wf(),
        call_ensures(vm_active_vcpu_count, (b, h), n),
        call_ensures(is_oversubscribed, (b, h, online), scarce),
    ensures
        n == competing(b.vcpus@, h, 64),
        scarce <==> online > 0 && n > online,
{
    lemma_competing(b.vcpus@, h, 64);
    assert(b.vcpus@.take(64) =~= b.vcpus@);
    assert(b@.vcpus == b.vcpus@);
}

/// The 64 bytes of code that an address is in, by their first address.
pub open spec fn region(rip: u64) -> int {
    rip as int / 64 * 64
}

/// An exit in one of the two regions that a track is confined to, or in a first or
/// second region while there is room for it.
pub open spec fn stays(t: SpinTrack, rip: u64) -> bool {
    ||| t.last_rip == region(rip)
    ||| t.last_rip2 == region(rip)
    ||| t.last_rip == u64::MAX
    ||| t.last_rip2 == u64::MAX
}

/// What the detector does for a vCPU: without scarce CPUs, or without a known
/// instruction pointer, it starts over and the priority is restored. Else an exit in
/// place lengthens the streak, the third in a row hands the CPU off and leaves a
/// streak of one, unless the vCPU is the first one; and an exit elsewhere is progress:
/// the priority is restored and a streak of one begins there.
pub proof fn third_exit_in_place_hands_off(
    ple: &mut SoftPle,
    b: &Bridge,
    slot: usize,
    online: usize,
    rip: Option<u64>,
    action: SpinAction,
    scarce: bool,
)
    requires
        old(ple).wf(),
        b.wf(),
        slot < 64,
        call_ensures(is_oversubscribed, (b, b.vcpus@[slot as int].vm_handle, online), scarce),
        call_ensures(SoftPle::soft_ple_maybe_park, (ple, b, slot, online, rip), action),
    ensures
        ({
            let id = b.vcpus@[slot as int].id;
            let was = old(ple)@[id as int];
            let now = final(ple)@[id as int];
            &&& id >= 64 ==> action is Nothing && final(ple)@ == old(ple)@
            &&& id < 64 && (!scarce || rip is None) ==> {
                &&& action is Restore
                &&& now.streak == 0 && now.last_rip == u64::MAX && now.last_rip2 == u64::MAX
            }
            &&& rip matches Some(at) ==> id < 64 && scarce ==> if stays(was, at) {
                &&& was.streak < 2 ==> action is Nothing && now.streak == was.streak + 1
                &&& was.streak == 2 ==> now.streak == 1 && (if id == 0 {
                    action is Nothing
                } else {
                    action is HandOff
                })
                &&& now.last_rip == region(at) || now.last_rip2 == region(at)
                &&& was.last_rip != u64::MAX ==> now.last_rip == was.last_rip
                &&& was.last_rip2 != u64::MAX ==> now.last_rip2 == was.last_rip2
            } else {
                &&& action is Restore
                &&& now.streak == 1 && now.last_rip == region(at) && now.last_rip2 == u64::MAX
            }
            &&& forall|i: int| 0 <= i < 64 && i != id ==> #[trigger] final(ple)@[i] == old(ple)@[i]
        }),
{
    let id = b.vcpus@[slot as int].id;
    assert(b@.vcpus[slot as int] == b.vcpus@[slot as int]);
    if id < 64 {
        assert(old(ple)@[id as int].inv());
    }
}

/// Detection starts over for one vCPU alone.
pub proof fn reset_starts_one_track_over(ple: &mut SoftPle, id: usize, i: int)
    requires
        old(ple).wf(),
        0 <= i < 64,
        call_ensures(SoftPle::soft_ple_reset, (ple, id), ()),
    ensures
        i == id ==> final(ple)@[i].streak == 0 && final(ple)@[i].last_rip == u64::MAX && final(ple)@[i].last_rip2
            == u64::MAX,
        i != id ==> final(ple)@[i] == old(ple)@[i],
{
}

/// Internal exits are counted one by one.
pub proof fn internal_exit_is_counted(count: &mut usize, log: bool)
    requires
        *old(count) < usize::MAX,
        call_ensures(note_internal_run_progress, (count,), log),
    ensures
        *final(count) == *old(count) + 1,
        log <==> *final(count) as int % 4096 == 0,
{
}

/// A log line for an exit comes at most at every 4096th turn. Exits of every day get
/// none at the first turn, and accesses that the kernel serves never get one.
pub proof fn exits_of_every_day_are_silent(result: Result<VcpuExit, i32>, turn: usize, log: bool)
    requires
        call_ensures(should_log_raw_exit, (&result, turn), log),
    ensures
        ({
            let silent = match result {
                Ok(VcpuExit::MmioRead { addr, width, reg, reg_width, signed_ext }) => addr.0 as int / 4096 * 4096
                    == 0xfec0_0000,
                Ok(VcpuExit::MmioWrite { addr, width, data }) => addr.0 as int / 4096 * 4096 == 0xfec0_0000,
                Ok(VcpuExit::IoRead { port, width }) => crate::laws::inkernel::served_port(port),
                Ok(VcpuExit::IoWrite { port, width, data }) => crate::laws::inkernel::served_port(port),
                _ => false,
            };
            let everyday = match result {
                Ok(VcpuExit::Nothing) => true,
                Ok(VcpuExit::ExternalInterrupt { vector }) => true,
                Ok(VcpuExit::InterruptEnd { vector }) => vector is None,
                Ok(VcpuExit::PreemptionTimer) => true,
                Ok(VcpuExit::Yield) => true,
                Ok(VcpuExit::Halt) => true,
                _ => false,
            };
            log <==> turn as int % 4096 == 0 && !silent && (turn > 0 || !everyday)
        }),
{
    match result {
        Ok(VcpuExit::IoRead { port, width }) => {
            crate::laws::run::lemma_port(port);
        },
        Ok(VcpuExit::IoWrite { port, width, data }) => {
            crate::laws::run::lemma_port(port);
        },
        _ => {},
    }
}

} // verus!
