//! Tasks: CPU masks, the table of tasks, starting and running one.
use vstd::prelude::*;

use crate::host::HostReply;
use crate::laws::codes::{already_there, invalid, no_memory};
use crate::tasks::{
    axvisor_kthread_main, axvisor_linux_task_current, axvisor_linux_task_join, axvisor_linux_task_spawn_raw,
    cpus_below, cpuset_to_cpumask, current_task, error_from_errno, full_cpu_mask, in_mask, lookup_task_record_by_raw,
    pids_distinct, single_cpu_from_cpuset, spawn_task, spawned_raw, without_pid, CurrentTask, SpawnStep, SpawnTask,
    TaskRegistry, TaskRegistryEntry, TaskState, ThreadStep,
};

verus! {

/// A CPU is in a set that is kept as a mask.
pub open spec fn has_cpu(mask: u64, cpu: u64) -> bool {
    (mask >> cpu) & 1 == 1
}

proof fn lemma_cpus(mask: u64, n: nat)
    requires
        n <= 64,
    ensures
        forall|k: int| 0 <= k < cpus_below(mask, n).len() ==> #[trigger] cpus_below(mask, n)[k] < n,
        forall|k: int| 0 <= k < cpus_below(mask, n).len() ==> has_cpu(mask, #[trigger] cpus_below(mask, n)[k]),
        forall|cpu: u64|
            cpu < n && #[trigger] has_cpu(mask, cpu) ==> exists|k: int|
                0 <= k < cpus_below(mask, n).len() && #[trigger] cpus_below(mask, n)[k] == cpu,
        forall|k: int, l: int|
            0 <= k < l < cpus_below(mask, n).len() ==> #[trigger] cpus_below(mask, n)[k] < #[trigger] cpus_below(
                mask,
                n,
            )[l],
    decreases n,
{
    if n > 0 {
        let m = (n - 1) as nat;
        lemma_cpus(mask, m);
        let rest = cpus_below(mask, m);
        let all = cpus_below(mask, n);
        assert forall|cpu: u64| cpu < n && #[trigger] has_cpu(mask, cpu) implies exists|k: int|
            0 <= k < all.len() && #[trigger] all[k] == cpu by {
            if cpu < m {
                let k = choose|k: int| 0 <= k < rest.len() && #[trigger] rest[k] == cpu;
                assert(all[k] == cpu);
            } else {
                assert(in_mask(mask, m as u64));
                assert(all[rest.len() as int] == cpu);
            }
        }
    }
}

/// The CPUs of a set are exactly its members, in ascending order; a set that is empty, or
/// has a member that the host does not have, is refused.
pub proof fn set_is_its_members_in_order(mask: u64, nr_cpus: u64, r: Result<Vec<u64>, i32>, cpu: u64)
    requires
        cpu < 64,
        call_ensures(cpuset_to_cpumask, (mask, nr_cpus), r),
    ensures
        r matches Ok(cpus) ==> {
            &&& mask != 0
            &&& has_cpu(mask, cpu) ==> cpu < nr_cpus
            &&& has_cpu(mask, cpu) <==> exists|k: int| 0 <= k < cpus@.len() && #[trigger] cpus@[k] == cpu
            &&& forall|k: int, l: int| 0 <= k < l < cpus@.len() ==> #[trigger] cpus@[k] < #[trigger] cpus@[l]
        },
        r matches Err(e) ==> e == invalid() && (mask == 0 || exists|c: u64|
            c < 64 && #[trigger] has_cpu(mask, c) && c >= nr_cpus),
{
    lemma_cpus(mask, 64);
    if r is Ok {
        if has_cpu(mask, cpu) {
            assert(in_mask(mask, cpu));
        }
    } else if mask != 0 {
        let c = choose|c: u64| c < 64 && #[trigger] in_mask(mask, c) && !(c < nr_cpus);
        assert(has_cpu(mask, c));
    }
}

/// A set with one member alone gives that member, and any other set none; the set of all
/// CPUs has exactly the CPUs of the host.
pub proof fn one_and_all(mask: u64, one: Option<u32>, nr_cpus: u64, all: u64, cpu: u64)
    requires
        cpu < 64,
        call_ensures(single_cpu_from_cpuset, (mask,), one),
        call_ensures(full_cpu_mask, (nr_cpus,), all),
    ensures
        one matches Some(c) ==> c < 64 && (has_cpu(mask, cpu) <==> cpu == c),
        one is None ==> mask != 1u64 << cpu,
        has_cpu(all, cpu) <==> cpu < nr_cpus,
{
    if let Some(c) = one {
        let k = c as u64;
        assert(((mask >> cpu) & 1 == 1) <==> cpu == k) by (bit_vector)
            requires
                cpu < 64,
                k < 64,
                mask == 1u64 << k,
        ;
    }
    assert(in_mask(all, cpu) == has_cpu(all, cpu));
}

/// A task ends with the code that it was ended with, and is waited for until then.
pub proof fn task_ends_with_its_code(a: TaskState, b: TaskState, c: &mut TaskState, code: i32, d: &TaskState, r: Option<i32>)
    requires
        call_ensures(TaskState::new, (), a),
        call_ensures(TaskState::new_finished, (code,), b),
        call_ensures(TaskState::finish, (c, code), ()),
        call_ensures(TaskState::wait, (d,), r),
    ensures
        !a.finished,
        b.finished && b.exit_code == code,
        final(c).finished && final(c).exit_code == code,
        d.finished ==> r == Some(d.exit_code),
        !d.finished ==> r is None,
{
}

/// A process id has an entry.
pub open spec fn listed(s: Seq<TaskRegistryEntry>, pid: i32) -> bool {
    exists|i: int| 0 <= i < s.len() && (#[trigger] s[i]).pid == pid
}

/// A task is found under its process id exactly where it is in the table.
pub proof fn task_is_found_by_its_pid(t: &TaskRegistry, pid: i32, r: Option<TaskRegistryEntry>, i: int)
    requires
        pids_distinct(t@),
        call_ensures(TaskRegistry::lookup, (t, pid), r),
    ensures
        0 <= i < t.entries@.len() && t.entries@[i].pid == pid ==> r == Some(t.entries@[i]),
        !listed(t.entries@, pid) ==> r is None,
{
    if 0 <= i < t.entries@.len() && t.entries@[i].pid == pid {
        assert(t@[i].pid == pid);
        let e = r->Some_0;
        let k = choose|k: int| 0 <= k < t@.len() && t@[k] == e;
        if k < i {
            assert(t@[k].pid != t@[i].pid);
        }
        if i < k {
            assert(t@[i].pid != t@[k].pid);
        }
    }
}

/// A task is added at the end, unless its process id is there already or there is no
/// memory; and nothing else changes.
pub proof fn added_task_is_at_the_end(t: &mut TaskRegistry, e: TaskRegistryEntry, room: bool, r: Result<(), i32>)
    requires
        pids_distinct(old(t)@),
        call_ensures(TaskRegistry::register_task_handle, (t, e, room), r),
    ensures
        ({
            let was = old(t).entries@;
            let now = final(t).entries@;
            &&& listed(was, e.pid) ==> r == Err::<(), i32>(already_there()) && now == was
            &&& !listed(was, e.pid) && !room ==> r == Err::<(), i32>(no_memory()) && now == was
            &&& !listed(was, e.pid) && room ==> {
                &&& r is Ok
                &&& now.len() == was.len() + 1 && now[was.len() as int] == e
                &&& forall|i: int| 0 <= i < was.len() ==> #[trigger] now[i] == was[i]
            }
        }),
{
}

proof fn lemma_left(s: Seq<TaskRegistryEntry>, pid: i32, e: TaskRegistryEntry)
    ensures
        without_pid(s, pid).contains(e) <==> s.contains(e) && e.pid != pid,
    decreases s.len(),
{
    reveal(Seq::filter);
    let keep = |x: TaskRegistryEntry| x.pid != pid;
    if s.len() > 0 {
        let rest = s.drop_last();
        lemma_left(rest, pid, e);
        let all = s.filter(keep);
        let kept = rest.filter(keep);
        if s.contains(e) {
            let i = choose|i: int| 0 <= i < s.len() && s[i] == e;
            if i < rest.len() {
                assert(rest[i] == e);
            }
        }
        if rest.contains(e) {
            let i = choose|i: int| 0 <= i < rest.len() && rest[i] == e;
            assert(s[i] == e);
        }
        if kept.contains(e) {
            let i = choose|i: int| 0 <= i < kept.len() && kept[i] == e;
            assert(all[i] == e);
        }
        if all.contains(e) {
            let i = choose|i: int| 0 <= i < all.len() && all[i] == e;
            if i < kept.len() {
                assert(kept[i] == e);
            } else {
                assert(e == s.last());
                assert(s[s.len() - 1] == e);
            }
        }
        if s.last() == e && e.pid != pid {
            assert(all[all.len() - 1] == e);
        }
    }
}

/// Taking a task out takes out that task and no other.
pub proof fn removed_task_is_gone(t: &mut TaskRegistry, pid: i32, e: TaskRegistryEntry)
    requires
        pids_distinct(old(t)@),
        call_ensures(TaskRegistry::unregister_task_handle, (t, pid), ()),
    ensures
        final(t).entries@.contains(e) <==> old(t).entries@.contains(e) && e.pid != pid,
{
    lemma_left(old(t)@, pid, e);
}

/// A handle is the process id: a task is found, joined and named by it. Joining takes the
/// task out of the table and gives the key of its state; without such a task nothing
/// happens.
pub proof fn handle_is_the_pid(
    t: &TaskRegistry,
    pid: i32,
    found: Option<TaskRegistryEntry>,
    j: &mut TaskRegistry,
    joined: Option<u64>,
    room: bool,
    named: usize,
    started: usize,
    i: int,
    e: TaskRegistryEntry,
)
    requires
        pid >= 0,
        pids_distinct(t@),
        pids_distinct(old(j)@),
        call_ensures(lookup_task_record_by_raw, (t, pid as usize), found),
        call_ensures(axvisor_linux_task_join, (j, pid as usize), joined),
        call_ensures(axvisor_linux_task_current, (t, pid, room), named),
        call_ensures(spawned_raw, (&Ok::<i32, i32>(pid),), started),
    ensures
        0 <= i < t.entries@.len() && t.entries@[i].pid == pid ==> found == Some(t.entries@[i]),
        !listed(t.entries@, pid) ==> found is None,
        0 <= i < old(j).entries@.len() && old(j).entries@[i].pid == pid ==> joined == Some(old(j).entries@[i].task) && (
        final(j).entries@.contains(e) <==> old(j).entries@.contains(e) && e.pid != pid),
        !listed(old(j).entries@, pid) ==> joined is None && final(j).entries@ == old(j).entries@,
        listed(t.entries@, pid) || room ==> named == pid,
        !listed(t.entries@, pid) && !room ==> named == 0,
        started == pid,
{
    assert(pid as usize as i32 == pid);
    if 0 <= i < t.entries@.len() && t.entries@[i].pid == pid {
        assert(t@[i].pid == pid);
        let x = found->Some_0;
        let k = choose|k: int| 0 <= k < t@.len() && t@[k] == x;
        if k < i {
            assert(t@[k].pid != t@[i].pid);
        }
        if i < k {
            assert(t@[i].pid != t@[k].pid);
        }
    }
    let s = old(j)@;
    if 0 <= i < s.len() && s[i].pid == pid {
        assert(s[i].pid == pid);
        let x = TaskRegistryEntry { pid, task: joined->Some_0 };
        let k = choose|k: int| 0 <= k < s.len() && s[k] == x;
        if k < i {
            assert(s[k].pid != s[i].pid);
        }
        if i < k {
            assert(s[i].pid != s[k].pid);
        }
        lemma_left(s, pid, e);
    }
}

/// The calling task is that of the table with its process id; any other is a foreign one,
/// where there is memory for its handle.
pub proof fn calling_task_is_known_by_its_pid(t: &TaskRegistry, pid: i32, room: bool, r: Result<CurrentTask, i32>)
    requires
        pids_distinct(t@),
        call_ensures(current_task, (t, pid, room), r),
    ensures
        listed(t.entries@, pid) ==> (r matches Ok(CurrentTask::Registered(e)) && e.pid == pid && t.entries@.contains(e)),
        !listed(t.entries@, pid) && room ==> r == Ok::<CurrentTask, i32>(CurrentTask::Foreign { pid }),
        !listed(t.entries@, pid) && !room ==> r == Err::<CurrentTask, i32>(no_memory()),
{
}

/// Starting begins with memory, for the CPUs that were asked for, or for all of the host's
/// where none were named.
pub proof fn starting_begins_with_memory(
    mask: u64,
    nr_cpus: u64,
    task: u64,
    r: (SpawnTask, SpawnStep),
    present: bool,
    raw: (SpawnTask, SpawnStep),
    cpu: u64,
    status: i32,
    e: i32,
)
    requires
        cpu < 64,
        call_ensures(spawn_task, (mask, nr_cpus, task), r),
        call_ensures(axvisor_linux_task_spawn_raw, (present, mask, nr_cpus, task), raw),
        call_ensures(error_from_errno, (status,), e),
    ensures
        r.1 is Allocate && r.0.mask == mask && r.0.nr_cpus == nr_cpus && r.0.task == task,
        raw.1 is Allocate && raw.0.nr_cpus == nr_cpus && raw.0.task == task,
        present ==> raw.0.mask == mask,
        !present ==> (has_cpu(raw.0.mask, cpu) <==> cpu < nr_cpus),
        -4095 <= status < 0 ==> e == status,
        !(-4095 <= status < 0) ==> e == invalid(),
{
    if !present {
        assert(in_mask(raw.0.mask, cpu) == has_cpu(raw.0.mask, cpu));
    }
}

/// A thread is placed as it was asked to be: refused where its set is empty or has a CPU that
/// the host does not have, bound where the set has one CPU alone, and else allowed on the
/// set.
pub open spec fn places(next: SpawnStep, mask: u64, nr_cpus: u64) -> bool {
    let fits = mask != 0 && forall|c: u64| c < 64 && #[trigger] has_cpu(mask, c) ==> c < nr_cpus;
    match next {
        SpawnStep::StopThread { error } => !fits && error == invalid(),
        SpawnStep::BindCpu { cpu } => fits && cpu < 64 && mask == 1u64 << (cpu as u64),
        SpawnStep::SetCpusAllowed { mask: m } => fits && m == mask && forall|c: u64|
            c < 64 ==> mask != #[trigger] (1u64 << c),
        _ => false,
    }
}

proof fn lemma_places(mask: u64, nr_cpus: u64)
    ensures
        places(crate::tasks::place_thread(mask, nr_cpus), mask, nr_cpus),
{
    let fits = mask != 0 && forall|c: u64| c < 64 && #[trigger] has_cpu(mask, c) ==> c < nr_cpus;
    assert(fits == crate::tasks::mask_fits(mask, nr_cpus)) by {
        if crate::tasks::mask_fits(mask, nr_cpus) {
            assert forall|c: u64| c < 64 && #[trigger] has_cpu(mask, c) implies c < nr_cpus by {
                assert(in_mask(mask, c));
            }
        }
        if fits {
            assert forall|c: u64| c < 64 && #[trigger] in_mask(mask, c) implies c < nr_cpus by {
                assert(has_cpu(mask, c));
            }
        }
    }
    if fits && exists|cpu: u64| cpu < 64 && mask == #[trigger] (1u64 << cpu) {
        let cpu = choose|cpu: u64| cpu < 64 && mask == #[trigger] (1u64 << cpu);
        assert(cpu as u32 as u64 == cpu);
    }
}

/// Starting a task goes from memory to the thread, its CPUs, its wake-up, its process id and
/// its entry in the table, in that order. What fails before the thread is woken stops it, and
/// what fails after that cancels it; a process id that is in the table is not added again; and
/// the result is the process id of the task that was added, or the error.
pub proof fn starting_registers_a_placed_thread(
    spawn: &SpawnTask,
    t: &mut TaskRegistry,
    step: SpawnStep,
    reply: HostReply,
    next: SpawnStep,
)
    requires
        pids_distinct(old(t)@),
        call_ensures(SpawnTask::resume, (spawn, t, step, reply), next),
    ensures
        ({
            let was = old(t).entries@;
            let now = final(t).entries@;
            &&& step is Allocate ==> match reply {
                HostReply::Flag(room) => next == (if room {
                    SpawnStep::CreateThread
                } else {
                    SpawnStep::Done(Err(no_memory()))
                }),
                _ => next == step,
            }
            &&& step is CreateThread ==> match reply {
                HostReply::Outcome(Ok(_)) => next is AllocateMask,
                HostReply::Outcome(Err(e)) => next == SpawnStep::Done(Err(e)),
                _ => next == step,
            }
            &&& step is AllocateMask ==> match reply {
                HostReply::Flag(true) => places(next, spawn.mask, spawn.nr_cpus),
                HostReply::Flag(false) => next == (SpawnStep::StopThread { error: no_memory() }),
                _ => next == step,
            }
            &&& step is BindCpu ==> next == (if reply is Done {
                SpawnStep::WakeThread
            } else {
                step
            })
            &&& step is SetCpusAllowed ==> match reply {
                HostReply::Code(status) => {
                    &&& status >= 0 ==> next is WakeThread
                    &&& -4095 <= status < 0 ==> next == (SpawnStep::StopThread { error: status })
                    &&& status < -4095 ==> next == (SpawnStep::StopThread { error: invalid() })
                },
                _ => next == step,
            }
            &&& step matches SpawnStep::StopThread { error } ==> next == (if reply is Done {
                SpawnStep::Done(Err(error))
            } else {
                step
            })
            &&& step is WakeThread ==> next == (if reply is Done {
                SpawnStep::ReadPid
            } else {
                step
            })
            &&& step is ReadPid ==> match reply {
                HostReply::Code(pid) => next == (SpawnStep::AllocateHandle { pid }),
                _ => next == step,
            }
            &&& step matches SpawnStep::AllocateHandle { pid } ==> match reply {
                HostReply::Flag(false) => next == SpawnStep::Done(Err(no_memory())),
                HostReply::Flag(true) => next == (if listed(was, pid) {
                    SpawnStep::Cancel { error: already_there() }
                } else {
                    SpawnStep::AllocateEntry { pid }
                }),
                _ => next == step,
            }
            &&& step matches SpawnStep::AllocateEntry { pid } ==> match reply {
                HostReply::Flag(room) => {
                    &&& listed(was, pid) ==> next == (SpawnStep::Cancel { error: already_there() })
                    &&& !listed(was, pid) && !room ==> next == (SpawnStep::Cancel { error: no_memory() })
                    &&& !listed(was, pid) && room ==> {
                        &&& next == (SpawnStep::SetRegistered { pid })
                        &&& now.len() == was.len() + 1
                        &&& now[was.len() as int].pid == pid && now[was.len() as int].task == spawn.task
                        &&& forall|i: int| 0 <= i < was.len() ==> #[trigger] now[i] == was[i]
                    }
                },
                _ => next == step,
            }
            &&& step matches SpawnStep::SetRegistered { pid } ==> next == (if reply is Done {
                SpawnStep::Done(Ok(pid))
            } else {
                step
            })
            &&& step matches SpawnStep::Cancel { error } ==> next == (if reply is Done {
                SpawnStep::Done(Err(error))
            } else {
                step
            })
            &&& step is Done ==> next == step
            &&& !(next is SetRegistered) ==> now == was
        }),
{
    lemma_places(spawn.mask, spawn.nr_cpus);
}

/// A thread lets others run until it is registered; then it runs its entry and ends with
/// zero, or ends with the number of a cancelled task where it was cancelled.
pub proof fn thread_runs_once_registered(step: ThreadStep, registered: bool, cancelled: bool, next: ThreadStep)
    requires
        call_ensures(axvisor_kthread_main, (step, registered, cancelled), next),
    ensures
        step is Poll && !registered ==> next is Yield,
        step is Poll && registered && cancelled ==> next == (ThreadStep::Finish { exit_code: (-125) as i32 }),
        step is Poll && registered && !cancelled ==> next is RunEntry,
        step is Yield ==> next is Poll,
        step is RunEntry ==> next == (ThreadStep::Finish { exit_code: 0 }),
        step is Finish || step is Exit ==> next is Exit,
{
}

} // verus!
