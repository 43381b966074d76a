//! Kernel tasks: CPU masks, the table of tasks, and the sequences that start and
//! run a task.
use vstd::prelude::*;

use crate::errno::{EEXIST, EINVAL, ENOMEM};
use crate::host::HostReply;

verus! {

/// The task was cancelled before it ran.
pub const ECANCELED: i32 = 125;

/// The largest number that stands for an error.
pub const MAX_ERRNO: i32 = 4095;

/// Whether a task is over, and with what code.
#[derive(Clone, Copy, Debug, PartialEq, Eq, Structural)]
pub struct TaskState {
    pub finished: bool,
    pub exit_code: i32,
}

impl TaskState {
    /// A task that runs.
    pub fn new() -> (s: TaskState)
        ensures
            s == (TaskState { finished: false, exit_code: 0 }),
    {
        TaskState { finished: false, exit_code: 0 }
    }

    /// A task that is over.
    pub fn new_finished(exit_code: i32) -> (s: TaskState)
        ensures
            s == (TaskState { finished: true, exit_code }),
    {
        TaskState { finished: true, exit_code }
    }

    /// Ends the task; whoever waits for it is to be woken.
    pub fn finish(&mut self, exit_code: i32)
        ensures
            *final(self) == (TaskState { finished: true, exit_code }),
    {
        self.finished = true;
        self.exit_code = exit_code;
    }

    /// The code that the task ended with; nothing as long as it runs, and the caller
    /// sleeps.
    pub fn wait(&self) -> (r: Option<i32>)
        ensures
            r == (if self.finished {
                Some(self.exit_code)
            } else {
                None
            }),
    {
        if self.finished {
            Some(self.exit_code)
        } else {
            None
        }
    }
}

/// A CPU is in a mask.
pub open spec fn in_mask(mask: u64, cpu: u64) -> bool {
    (mask >> cpu) & 1 == 1
}

/// The CPUs of a mask below `n`, in ascending order.
pub open spec fn cpus_below(mask: u64, n: nat) -> Seq<u64>
    decreases n,
{
    if n == 0 {
        seq![]
    } else {
        let rest = cpus_below(mask, (n - 1) as nat);
        if in_mask(mask, (n - 1) as u64) {
            rest.push((n - 1) as u64)
        } else {
            rest
        }
    }
}

/// The mask names some CPU, and no CPU that the host does not have.
pub open spec fn mask_fits(mask: u64, nr_cpus: u64) -> bool {
    &&& mask != 0
    &&& forall|cpu: u64| cpu < 64 && #[trigger] in_mask(mask, cpu) ==> cpu < nr_cpus
}

proof fn lemma_some_cpu(mask: u64)
    requires
        mask != 0,
    ensures
        exists|cpu: u64| cpu < 64 && #[trigger] in_mask(mask, cpu),
{
    if forall|cpu: u64| cpu < 64 ==> !#[trigger] in_mask(mask, cpu) {
        lemma_no_cpu_below(mask, 64);
    }
}

proof fn lemma_no_cpu_below(mask: u64, n: u64)
    requires
        n <= 64,
        forall|cpu: u64| cpu < n ==> !#[trigger] in_mask(mask, cpu),
    ensures
        n < 64 ==> (mask >> n) << n == mask,
        n == 64 ==> mask == 0,
    decreases n,
{
    if n == 0 {
        assert((mask >> 0u64) << 0u64 == mask) by (bit_vector);
    } else {
        let m: u64 = (n - 1) as u64;
        lemma_no_cpu_below(mask, m);
        assert(!in_mask(mask, m));
        if n < 64 {
            assert((mask >> n) << n == mask) by (bit_vector)
                requires
                    n < 64,
                    m == n - 1,
                    (mask >> m) << m == mask,
                    (mask >> m) & 1 != 1,
            ;
        } else {
            assert(mask == 0) by (bit_vector)
                requires
                    m == 63,
                    (mask >> m) << m == mask,
                    (mask >> m) & 1 != 1,
            ;
        }
    }
}

proof fn lemma_cpus_below(mask: u64, n: nat, cpu: u64)
    requires
        cpu < n <= 64,
        in_mask(mask, cpu),
    ensures
        cpus_below(mask, n).len() > 0,
    decreases n,
{
    if cpu < n - 1 {
        lemma_cpus_below(mask, (n - 1) as nat, cpu);
    }
}

/// The CPUs of a mask, in ascending order. It is an error where the mask is empty or
/// names a CPU that the host does not have.
pub fn cpuset_to_cpumask(mask: u64, nr_cpus: u64) -> (r: Result<Vec<u64>, i32>)
    ensures
        r is Ok <==> mask_fits(mask, nr_cpus),
        r matches Ok(cpus) ==> cpus@ == cpus_below(mask, 64) && cpus@.len() > 0,
        r matches Err(e) ==> e == -EINVAL,
{
    if mask == 0 {
        return Err(-EINVAL);
    }
    let mut cpus: Vec<u64> = Vec::new();
    let mut bit: u64 = 0;
    while bit < 64
        invariant
            bit <= 64,
            cpus@ == cpus_below(mask, bit as nat),
            forall|cpu: u64| cpu < bit && #[trigger] in_mask(mask, cpu) ==> cpu < nr_cpus,
        decreases 64 - bit,
    {
        if (mask >> bit) & 1 == 1 {
            assert(in_mask(mask, bit));
            if bit >= nr_cpus {
                return Err(-EINVAL);
            }
            cpus.push(bit);
        }
        bit += 1;
    }
    proof {
        lemma_some_cpu(mask);
        let cpu = choose|cpu: u64| cpu < 64 && #[trigger] in_mask(mask, cpu);
        lemma_cpus_below(mask, 64, cpu);
    }
    Ok(cpus)
}

/// The CPU of a mask that holds one CPU only.
pub fn single_cpu_from_cpuset(mask: u64) -> (r: Option<u32>)
    ensures
        r matches Some(cpu) ==> cpu < 64 && mask == 1u64 << (cpu as u64),
        r is None ==> forall|cpu: u64| #![trigger 1u64 << cpu] cpu < 64 ==> mask != 1u64 << cpu,
{
    let mut bit: u32 = 0;
    while bit < 64
        invariant
            bit <= 64,
            forall|cpu: u64| cpu < bit ==> mask != #[trigger] (1u64 << cpu),
        decreases 64 - bit,
    {
        let one: u64 = 1u64 << (bit as u64);
        if mask == one {
            return Some(bit);
        }
        bit += 1;
    }
    None
}

/// The mask of all CPUs of the host.
pub fn full_cpu_mask(nr_cpus: u64) -> (mask: u64)
    ensures
        forall|cpu: u64| cpu < 64 ==> #[trigger] in_mask(mask, cpu) == (cpu < nr_cpus),
{
    if nr_cpus >= 64 {
        assert forall|cpu: u64| cpu < 64 implies #[trigger] in_mask(u64::MAX, cpu) by {
            assert((0xffff_ffff_ffff_ffffu64 >> cpu) & 1 == 1) by (bit_vector)
                requires
                    cpu < 64,
            ;
        }
        u64::MAX
    } else if nr_cpus == 0 {
        assert forall|cpu: u64| cpu < 64 implies !#[trigger] in_mask(0, cpu) by {
            assert((0u64 >> cpu) & 1 != 1) by (bit_vector);
        }
        0
    } else {
        assert(1u64 << nr_cpus >= 1) by (bit_vector)
            requires
                nr_cpus < 64,
        ;
        let mask: u64 = (1u64 << nr_cpus) - 1;
        assert forall|cpu: u64| cpu < 64 implies #[trigger] in_mask(mask, cpu) == (cpu < nr_cpus) by {
            assert(((mask >> cpu) & 1 == 1) == (cpu < nr_cpus)) by (bit_vector)
                requires
                    cpu < 64,
                    nr_cpus < 64,
                    mask == (1u64 << nr_cpus) - 1,
            ;
        }
        mask
    }
}

/// A task in the table: its process id, and the embedding's key for its state.
#[derive(Clone, Copy, Debug, PartialEq, Eq, Structural)]
pub struct TaskRegistryEntry {
    pub pid: i32,
    pub task: u64,
}

/// The table of tasks that can be joined.
pub struct TaskRegistry {
    pub entries: Vec<TaskRegistryEntry>,
}

impl View for TaskRegistry {
    type V = Seq<TaskRegistryEntry>;

    open spec fn view(&self) -> Seq<TaskRegistryEntry> {
        self.entries@
    }
}

/// A process id is in the table.
pub open spec fn has_pid(entries: Seq<TaskRegistryEntry>, pid: i32) -> bool {
    exists|i: int| 0 <= i < entries.len() && (#[trigger] entries[i]).pid == pid
}

/// No process id is in the table twice.
pub open spec fn pids_distinct(entries: Seq<TaskRegistryEntry>) -> bool {
    forall|i: int, j: int|
        0 <= i < j < entries.len() ==> (#[trigger] entries[i]).pid != (#[trigger] entries[j]).pid
}

/// The table without a process id.
pub open spec fn without_pid(entries: Seq<TaskRegistryEntry>, pid: i32) -> Seq<TaskRegistryEntry> {
    entries.filter(|e: TaskRegistryEntry| e.pid != pid)
}

proof fn lemma_without_pid(entries: Seq<TaskRegistryEntry>, pid: i32)
    requires
        pids_distinct(entries),
    ensures
        pids_distinct(without_pid(entries, pid)),
        !has_pid(without_pid(entries, pid), pid),
        forall|i: int|
            0 <= i < without_pid(entries, pid).len() ==> has_pid(entries, (#[trigger] without_pid(entries, pid)[i]).pid),
    decreases entries.len(),
{
    reveal(Seq::filter);
    let keep = |e: TaskRegistryEntry| e.pid != pid;
    if entries.len() > 0 {
        let rest = entries.drop_last();
        assert(pids_distinct(rest));
        lemma_without_pid(rest, pid);
        let kept = rest.filter(keep);
        assert(kept == without_pid(rest, pid));
        let all = entries.filter(keep);
        assert(all == without_pid(entries, pid));
        let last = entries.last();
        assert forall|i: int| 0 <= i < all.len() implies has_pid(entries, (#[trigger] all[i]).pid) by {
            if i < kept.len() {
                assert(all[i] == kept[i]);
                assert(has_pid(rest, kept[i].pid));
                let k = choose|k: int| 0 <= k < rest.len() && (#[trigger] rest[k]).pid == kept[i].pid;
                assert(entries[k].pid == all[i].pid);
            } else {
                assert(entries[entries.len() - 1].pid == all[i].pid);
            }
        }
        assert forall|i: int, j: int| 0 <= i < j < all.len() implies (#[trigger] all[i]).pid != (
        #[trigger] all[j]).pid by {
            if j < kept.len() {
                assert(all[i] == kept[i] && all[j] == kept[j]);
            } else {
                assert(all[i] == kept[i]);
                let k = choose|k: int| 0 <= k < rest.len() && (#[trigger] rest[k]).pid == kept[i].pid;
                assert(entries[k].pid == kept[i].pid);
                assert(all[j] == last);
            }
        }
        assert forall|i: int| 0 <= i < all.len() implies (#[trigger] all[i]).pid != pid by {
            if i < kept.len() {
                assert(all[i] == kept[i]);
            }
        }
    }
}

impl TaskRegistry {
    /// No tasks.
    pub fn new() -> (t: TaskRegistry)
        ensures
            t@ == Seq::<TaskRegistryEntry>::empty(),
            pids_distinct(t@),
    {
        TaskRegistry { entries: Vec::new() }
    }

    /// Looks a task up by its process id.
    pub fn lookup(&self, pid: i32) -> (r: Option<TaskRegistryEntry>)
        requires
            pids_distinct(self@),
        ensures
            r is Some <==> has_pid(self@, pid),
            r matches Some(e) ==> e.pid == pid && self@.contains(e),
    {
        let mut i: usize = 0;
        while i < self.entries.len()
            invariant
                i <= self.entries@.len(),
                forall|j: int| 0 <= j < i ==> (#[trigger] self.entries@[j]).pid != pid,
            decreases self.entries@.len() - i,
        {
            if self.entries[i].pid == pid {
                assert(self@.contains(self.entries@[i as int]));
                return Some(self.entries[i]);
            }
            i += 1;
        }
        None
    }

    /// Adds a task; `room` says that memory was found. A process id that is there
    /// already is an error.
    pub fn register_task_handle(&mut self, handle: TaskRegistryEntry, room: bool) -> (r: Result<(), i32>)
        requires
            pids_distinct(old(self)@),
        ensures
            pids_distinct(final(self)@),
            r == (if has_pid(old(self)@, handle.pid) {
                Err((-EEXIST) as i32)
            } else if !room {
                Err((-ENOMEM) as i32)
            } else {
                Ok(())
            }),
            final(self)@ == (if r is Ok {
                old(self)@.push(handle)
            } else {
                old(self)@
            }),
    {
        if self.lookup(handle.pid).is_some() {
            return Err(-EEXIST);
        }
        if !room {
            return Err(-ENOMEM);
        }
        self.entries.push(handle);
        Ok(())
    }

    /// Takes a task out.
    pub fn unregister_task_handle(&mut self, pid: i32)
        requires
            pids_distinct(old(self)@),
        ensures
            final(self)@ == without_pid(old(self)@, pid),
            pids_distinct(final(self)@),
    {
        let ghost all = self@;
        let ghost keep = |e: TaskRegistryEntry| e.pid != pid;
        let mut kept: Vec<TaskRegistryEntry> = Vec::new();
        let mut i: usize = 0;
        proof {
            reveal(Seq::filter);
            assert(all.take(0).filter(keep) =~= seq![]);
        }
        while i < self.entries.len()
            invariant
                i <= self.entries@.len(),
                self.entries@ == all,
                keep == (|e: TaskRegistryEntry| e.pid != pid),
                kept@ == all.take(i as int).filter(keep),
            decreases self.entries@.len() - i,
        {
            let entry = self.entries[i];
            proof {
                reveal(Seq::filter);
                assert(all.take(i + 1).drop_last() =~= all.take(i as int));
                assert(all.take(i + 1).last() == entry);
            }
            if entry.pid != pid {
                kept.push(entry);
            }
            i += 1;
        }
        self.entries = kept;
        proof {
            assert(all.take(all.len() as int) =~= all);
            lemma_without_pid(all, pid);
        }
    }
}

/// The process id that a raw handle stands for.
pub open spec fn raw_pid(handle_raw: usize) -> i32 {
    handle_raw as i32
}

/// Looks a task up by its raw handle.
pub fn lookup_task_record_by_raw(registry: &TaskRegistry, handle_raw: usize) -> (r: Option<TaskRegistryEntry>)
    requires
        pids_distinct(registry@),
    ensures
        r is Some <==> has_pid(registry@, raw_pid(handle_raw)),
        r matches Some(e) ==> e.pid == raw_pid(handle_raw) && registry@.contains(e),
{
    let pid: i32 = #[verifier::truncate] (handle_raw as i32);
    registry.lookup(pid)
}

/// Starts to join a task: takes it out of the table, and gives the key of the state
/// to wait for. Nothing where there is no such task.
pub fn axvisor_linux_task_join(registry: &mut TaskRegistry, handle_raw: usize) -> (r: Option<u64>)
    requires
        pids_distinct(old(registry)@),
    ensures
        pids_distinct(final(registry)@),
        r is Some <==> has_pid(old(registry)@, raw_pid(handle_raw)),
        r matches Some(task) ==> old(registry)@.contains(
            TaskRegistryEntry { pid: raw_pid(handle_raw), task },
        ),
        final(registry)@ == (if r is Some {
            without_pid(old(registry)@, raw_pid(handle_raw))
        } else {
            old(registry)@
        }),
{
    match lookup_task_record_by_raw(registry, handle_raw) {
        Some(entry) => {
            registry.unregister_task_handle(entry.pid);
            Some(entry.task)
        },
        None => None,
    }
}

/// The task that calls.
#[derive(Clone, Copy, Debug, PartialEq, Eq, Structural)]
pub enum CurrentTask {
    /// One of the table.
    Registered(TaskRegistryEntry),
    /// Another: it counts as over, with code zero.
    Foreign { pid: i32 },
}

/// The task that calls, which has process id `pid`; `room` says that memory for a
/// handle was found.
pub fn current_task(registry: &TaskRegistry, pid: i32, room: bool) -> (r: Result<CurrentTask, i32>)
    requires
        pids_distinct(registry@),
    ensures
        has_pid(registry@, pid) ==> (r matches Ok(CurrentTask::Registered(e)) && e.pid == pid && registry@.contains(
            e,
        )),
        !has_pid(registry@, pid) ==> r == (if room {
            Ok::<CurrentTask, i32>(CurrentTask::Foreign { pid })
        } else {
            Err((-ENOMEM) as i32)
        }),
{
    match registry.lookup(pid) {
        Some(entry) => Ok(CurrentTask::Registered(entry)),
        None => if room {
            Ok(CurrentTask::Foreign { pid })
        } else {
            Err(-ENOMEM)
        },
    }
}

/// The raw handle of a process id.
pub open spec fn pid_raw(pid: i32) -> usize {
    pid as usize
}

/// The raw handle of the task that calls, or zero.
pub fn axvisor_linux_task_current(registry: &TaskRegistry, pid: i32, room: bool) -> (handle_raw: usize)
    requires
        pids_distinct(registry@),
    ensures
        handle_raw == (if has_pid(registry@, pid) || room {
            pid_raw(pid)
        } else {
            0
        }),
{
    match current_task(registry, pid, room) {
        Ok(CurrentTask::Registered(entry)) => #[verifier::truncate] (entry.pid as usize),
        Ok(CurrentTask::Foreign { pid }) => #[verifier::truncate] (pid as usize),
        Err(_) => 0,
    }
}

/// What starting a task asks the host for next; `Done` holds the process id or the
/// error.
#[derive(Clone, Copy, Debug, PartialEq, Eq)]
pub enum SpawnStep {
    /// Find memory for what the thread starts with. The answer is a flag.
    Allocate,
    /// Make the thread, asleep. The answer is an outcome.
    CreateThread,
    /// Find memory for a CPU mask. The answer is a flag.
    AllocateMask,
    /// Bind the thread to one CPU.
    BindCpu { cpu: u32 },
    /// Let the thread run on the CPUs of a mask. The answer is a code.
    SetCpusAllowed { mask: u64 },
    /// Stop the thread; then starting fails.
    StopThread { error: i32 },
    /// Wake the thread up.
    WakeThread,
    /// Read the thread's process id. The answer is a code.
    ReadPid,
    /// Find memory for a handle. The answer is a flag.
    AllocateHandle { pid: i32 },
    /// Find memory for an entry of the table. The answer is a flag.
    AllocateEntry { pid: i32 },
    /// Tell the thread that it is registered.
    SetRegistered { pid: i32 },
    /// Tell the thread that it is cancelled, then that it is registered.
    Cancel { error: i32 },
    Done(Result<i32, i32>),
}

/// The error that a negative status stands for.
pub open spec fn error_of(status: i32) -> i32 {
    if -MAX_ERRNO <= status < 0 {
        status
    } else {
        (-EINVAL) as i32
    }
}

/// The error that a negative status stands for.
pub fn error_from_errno(status: i32) -> (e: i32)
    ensures
        e == error_of(status),
{
    if -MAX_ERRNO <= status && status < 0 {
        status
    } else {
        -EINVAL
    }
}

/// What follows once there is memory for a mask: an unfit mask stops the thread, one
/// CPU is bound to, and more are allowed.
pub open spec fn place_thread(mask: u64, nr_cpus: u64) -> SpawnStep {
    if !mask_fits(mask, nr_cpus) {
        SpawnStep::StopThread { error: (-EINVAL) as i32 }
    } else if exists|cpu: u64| cpu < 64 && mask == #[trigger] (1u64 << cpu) {
        SpawnStep::BindCpu { cpu: (choose|cpu: u64| cpu < 64 && mask == #[trigger] (1u64 << cpu)) as u32 }
    } else {
        SpawnStep::SetCpusAllowed { mask }
    }
}

/// What follows a reply: the next step, and the table.
pub open spec fn spawn_next(
    step: SpawnStep,
    spawn: SpawnTask,
    entries: Seq<TaskRegistryEntry>,
    reply: HostReply,
) -> (SpawnStep, Seq<TaskRegistryEntry>) {
    match (step, reply) {
        (SpawnStep::Allocate, HostReply::Flag(room)) => (
            if room {
                SpawnStep::CreateThread
            } else {
                SpawnStep::Done(Err((-ENOMEM) as i32))
            },
            entries,
        ),
        (SpawnStep::CreateThread, HostReply::Outcome(made)) => (
            match made {
                Ok(_) => SpawnStep::AllocateMask,
                Err(e) => SpawnStep::Done(Err(e)),
            },
            entries,
        ),
        (SpawnStep::AllocateMask, HostReply::Flag(room)) => (
            if room {
                place_thread(spawn.mask, spawn.nr_cpus)
            } else {
                SpawnStep::StopThread { error: (-ENOMEM) as i32 }
            },
            entries,
        ),
        (SpawnStep::BindCpu { cpu }, HostReply::Done) => (SpawnStep::WakeThread, entries),
        (SpawnStep::SetCpusAllowed { mask }, HostReply::Code(status)) => (
            if status < 0 {
                SpawnStep::StopThread { error: error_of(status) }
            } else {
                SpawnStep::WakeThread
            },
            entries,
        ),
        (SpawnStep::StopThread { error }, HostReply::Done) => (SpawnStep::Done(Err(error)), entries),
        (SpawnStep::WakeThread, HostReply::Done) => (SpawnStep::ReadPid, entries),
        (SpawnStep::ReadPid, HostReply::Code(pid)) => (SpawnStep::AllocateHandle { pid }, entries),
        (SpawnStep::AllocateHandle { pid }, HostReply::Flag(room)) => (
            if !room {
                SpawnStep::Done(Err((-ENOMEM) as i32))
            } else if has_pid(entries, pid) {
                SpawnStep::Cancel { error: (-EEXIST) as i32 }
            } else {
                SpawnStep::AllocateEntry { pid }
            },
            entries,
        ),
        (SpawnStep::AllocateEntry { pid }, HostReply::Flag(room)) => if has_pid(entries, pid) {
            (SpawnStep::Cancel { error: (-EEXIST) as i32 }, entries)
        } else if !room {
            (SpawnStep::Cancel { error: (-ENOMEM) as i32 }, entries)
        } else {
            (SpawnStep::SetRegistered { pid }, entries.push(TaskRegistryEntry { pid, task: spawn.task }))
        },
        (SpawnStep::SetRegistered { pid }, HostReply::Done) => (SpawnStep::Done(Ok(pid)), entries),
        (SpawnStep::Cancel { error }, HostReply::Done) => (SpawnStep::Done(Err(error)), entries),
        _ => (step, entries),
    }
}

/// A task that is being started: the CPUs it may run on, how many the host has, and
/// the embedding's key for its state.
#[derive(Clone, Copy, Debug, PartialEq, Eq, Structural)]
pub struct SpawnTask {
    pub mask: u64,
    pub nr_cpus: u64,
    pub task: u64,
}

proof fn lemma_one_bit(a: u64, b: u64)
    requires
        a < 64,
        b < 64,
        1u64 << a == 1u64 << b,
    ensures
        a == b,
{
    assert(a == b) by (bit_vector)
        requires
            a < 64,
            b < 64,
            1u64 << a == 1u64 << b,
    ;
}

/// Starts a task on the CPUs of a mask.
pub fn spawn_task(mask: u64, nr_cpus: u64, task: u64) -> (r: (SpawnTask, SpawnStep))
    ensures
        r == (SpawnTask { mask, nr_cpus, task }, SpawnStep::Allocate),
{
    (SpawnTask { mask, nr_cpus, task }, SpawnStep::Allocate)
}

/// Starts a task for a caller: without a CPU set it may run on all CPUs.
pub fn axvisor_linux_task_spawn_raw(cpu_set_present: bool, cpu_set: u64, nr_cpus: u64, task: u64) -> (r: (
    SpawnTask,
    SpawnStep,
))
    ensures
        r.0.nr_cpus == nr_cpus,
        r.0.task == task,
        cpu_set_present ==> r.0.mask == cpu_set,
        !cpu_set_present ==> forall|cpu: u64| cpu < 64 ==> #[trigger] in_mask(r.0.mask, cpu) == (cpu < nr_cpus),
        r.1 == SpawnStep::Allocate,
{
    let mask: u64 = if cpu_set_present {
        cpu_set
    } else {
        full_cpu_mask(nr_cpus)
    };
    spawn_task(mask, nr_cpus, task)
}

/// The raw handle of a started task, or zero.
pub fn spawned_raw(result: &Result<i32, i32>) -> (handle_raw: usize)
    ensures
        handle_raw == (match *result {
            Ok(pid) => pid_raw(pid),
            Err(_) => 0,
        }),
{
    match result {
        Ok(pid) => #[verifier::truncate] (*pid as usize),
        Err(_) => 0,
    }
}

impl SpawnTask {
    fn place(&self) -> (step: SpawnStep)
        ensures
            step == place_thread(self.mask, self.nr_cpus),
    {
        match cpuset_to_cpumask(self.mask, self.nr_cpus) {
            Err(_) => SpawnStep::StopThread { error: -EINVAL },
            Ok(_) => match single_cpu_from_cpuset(self.mask) {
                Some(cpu) => {
                    proof {
                        let c = choose|c: u64| c < 64 && self.mask == #[trigger] (1u64 << c);
                        assert(self.mask == 1u64 << (cpu as u64));
                        lemma_one_bit(c, cpu as u64);
                    }
                    SpawnStep::BindCpu { cpu }
                },
                None => SpawnStep::SetCpusAllowed { mask: self.mask },
            },
        }
    }

    /// Goes on with starting a task.
    pub fn resume(&self, registry: &mut TaskRegistry, step: SpawnStep, reply: HostReply) -> (next: SpawnStep)
        requires
            pids_distinct(old(registry)@),
        ensures
            pids_distinct(final(registry)@),
            (next, final(registry)@) == spawn_next(step, *self, old(registry)@, reply),
    {
        match (step, reply) {
            (SpawnStep::Allocate, HostReply::Flag(room)) => if room {
                SpawnStep::CreateThread
            } else {
                SpawnStep::Done(Err(-ENOMEM))
            },
            (SpawnStep::CreateThread, HostReply::Outcome(made)) => match made {
                Ok(_) => SpawnStep::AllocateMask,
                Err(e) => SpawnStep::Done(Err(e)),
            },
            (SpawnStep::AllocateMask, HostReply::Flag(room)) => if room {
                self.place()
            } else {
                SpawnStep::StopThread { error: -ENOMEM }
            },
            (SpawnStep::BindCpu { cpu: _ }, HostReply::Done) => SpawnStep::WakeThread,
            (SpawnStep::SetCpusAllowed { mask: _ }, HostReply::Code(status)) => if status < 0 {
                SpawnStep::StopThread { error: error_from_errno(status) }
            } else {
                SpawnStep::WakeThread
            },
            (SpawnStep::StopThread { error }, HostReply::Done) => SpawnStep::Done(Err(error)),
            (SpawnStep::WakeThread, HostReply::Done) => SpawnStep::ReadPid,
            (SpawnStep::ReadPid, HostReply::Code(pid)) => SpawnStep::AllocateHandle { pid },
            (SpawnStep::AllocateHandle { pid }, HostReply::Flag(room)) => if !room {
                SpawnStep::Done(Err(-ENOMEM))
            } else if registry.lookup(pid).is_some() {
                SpawnStep::Cancel { error: -EEXIST }
            } else {
                SpawnStep::AllocateEntry { pid }
            },
            (SpawnStep::AllocateEntry { pid }, HostReply::Flag(room)) => match registry.register_task_handle(
                TaskRegistryEntry { pid, task: self.task },
                room,
            ) {
                Ok(_) => SpawnStep::SetRegistered { pid },
                Err(error) => SpawnStep::Cancel { error },
            },
            (SpawnStep::SetRegistered { pid }, HostReply::Done) => SpawnStep::Done(Ok(pid)),
            (SpawnStep::Cancel { error }, HostReply::Done) => SpawnStep::Done(Err(error)),
            _ => step,
        }
    }
}

/// Where a new thread stands: what it does next.
#[derive(Clone, Copy, Debug, PartialEq, Eq, Structural)]
pub enum ThreadStep {
    /// See whether it is registered, and whether it is cancelled.
    Poll,
    /// Let others run, then see again.
    Yield,
    /// Run its entry, where it has one.
    RunEntry,
    /// End its task with a code.
    Finish { exit_code: i32 },
    /// Leave.
    Exit,
}

/// What a new thread does next.
pub open spec fn thread_next(step: ThreadStep, registered: bool, cancelled: bool) -> ThreadStep {
    match step {
        ThreadStep::Poll => if !registered {
            ThreadStep::Yield
        } else if cancelled {
            ThreadStep::Finish { exit_code: (-ECANCELED) as i32 }
        } else {
            ThreadStep::RunEntry
        },
        ThreadStep::Yield => ThreadStep::Poll,
        ThreadStep::RunEntry => ThreadStep::Finish { exit_code: 0 },
        ThreadStep::Finish { exit_code } => ThreadStep::Exit,
        ThreadStep::Exit => ThreadStep::Exit,
    }
}

/// The main function of a thread, from [`ThreadStep::Poll`] on: it waits until it is
/// registered, runs its entry unless it is cancelled, and ends its task.
pub fn axvisor_kthread_main(step: ThreadStep, registered: bool, cancelled: bool) -> (next: ThreadStep)
    ensures
        next == thread_next(step, registered, cancelled),
{
    match step {
        ThreadStep::Poll => if !registered {
            ThreadStep::Yield
        } else if cancelled {
            ThreadStep::Finish { exit_code: -ECANCELED }
        } else {
            ThreadStep::RunEntry
        },
        ThreadStep::Yield => ThreadStep::Poll,
        ThreadStep::RunEntry => ThreadStep::Finish { exit_code: 0 },
        ThreadStep::Finish { exit_code: _ } => ThreadStep::Exit,
        ThreadStep::Exit => ThreadStep::Exit,
    }
}

/// A task that was registered is found under its process id, until it is taken out.
pub proof fn registered_task_is_found_until_removed(entries: Seq<TaskRegistryEntry>, handle: TaskRegistryEntry)
    requires
        pids_distinct(entries),
        !has_pid(entries, handle.pid),
    ensures
        has_pid(entries.push(handle), handle.pid),
        pids_distinct(entries.push(handle)),
        !has_pid(without_pid(entries.push(handle), handle.pid), handle.pid),
{
    let more = entries.push(handle);
    assert(more[entries.len() as int].pid == handle.pid);
    lemma_without_pid(more, handle.pid);
}

/// The mask of all CPUs fits a host that has any, and names each of its CPUs.
pub proof fn full_mask_fits(mask: u64, nr_cpus: u64)
    requires
        nr_cpus > 0,
        forall|cpu: u64| cpu < 64 ==> #[trigger] in_mask(mask, cpu) == (cpu < nr_cpus),
    ensures
        mask_fits(mask, nr_cpus),
{
    assert(in_mask(mask, 0));
    assert((0u64 >> 0u64) & 1 != 1) by (bit_vector);
}

/// Starting a task changes the table only by adding the task, and reports success
/// only for a task that is in the table.
pub proof fn spawn_registers_what_it_reports(
    step: SpawnStep,
    spawn: SpawnTask,
    entries: Seq<TaskRegistryEntry>,
    reply: HostReply,
)
    requires
        step !is Done,
        step matches SpawnStep::SetRegistered { pid } ==> has_pid(entries, pid),
    ensures
        ({
            let (next, after) = spawn_next(step, spawn, entries, reply);
            &&& after == entries || (next matches SpawnStep::SetRegistered { pid } && after == entries.push(
                TaskRegistryEntry { pid, task: spawn.task },
            ))
            &&& (next matches SpawnStep::SetRegistered { pid } ==> has_pid(after, pid))
            &&& (next matches SpawnStep::Done(Ok(pid)) ==> has_pid(after, pid))
        }),
{
    let (next, after) = spawn_next(step, spawn, entries, reply);
    if let SpawnStep::AllocateEntry { pid } = step {
        if next is SetRegistered {
            assert(after[entries.len() as int].pid == pid);
        }
    }
}

/// A thread that was made and not woken is stopped before starting fails.
pub proof fn failed_spawn_stops_its_thread(
    step: SpawnStep,
    spawn: SpawnTask,
    entries: Seq<TaskRegistryEntry>,
    reply: HostReply,
)
    requires
        step is AllocateMask || step is BindCpu || step is SetCpusAllowed,
    ensures
        spawn_next(step, spawn, entries, reply).0 !is Done,
        spawn_next(step, spawn, entries, reply).0 is StopThread || spawn_next(step, spawn, entries, reply).0
            is WakeThread || spawn_next(step, spawn, entries, reply).0 is BindCpu || spawn_next(
            step,
            spawn,
            entries,
            reply,
        ).0 is SetCpusAllowed || spawn_next(step, spawn, entries, reply).0 is AllocateMask,
{
}

/// A thread runs its entry only once it is registered and not cancelled, and what it
/// ran ends with code zero.
pub proof fn entry_runs_only_when_registered(step: ThreadStep, registered: bool, cancelled: bool)
    ensures
        thread_next(step, registered, cancelled) is RunEntry ==> registered && !cancelled,
        step is RunEntry ==> thread_next(step, registered, cancelled) == (ThreadStep::Finish { exit_code: 0 }),
{
}

} // verus!
