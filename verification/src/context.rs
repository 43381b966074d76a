//! Which VM and vCPU a host task runs.
use vstd::prelude::*;

use crate::state::MAX_VCPUS;
use crate::timers::{TimerProgram, TimerTables, TimersView, KvmTimerEntry};

verus! {

/// Most tasks with a context.
pub const MAX_RUN_CONTEXTS: usize = 128;

/// The VM and vCPU of one host task; task zero marks a free record.
#[derive(Clone, Copy, Debug, PartialEq, Eq, Structural)]
pub struct RunContext {
    pub task_id: u64,
    pub vm_id: u64,
    pub vcpu_id: usize,
}

impl RunContext {
    /// A free record.
    pub open spec fn spec_empty() -> RunContext {
        RunContext { task_id: 0, vm_id: 0, vcpu_id: 0 }
    }

    /// A free record.
    pub fn empty() -> (r: RunContext)
        ensures
            r == Self::spec_empty(),
    {
        RunContext { task_id: 0, vm_id: 0, vcpu_id: 0 }
    }
}

/// The contexts of all tasks, and the one that was set last.
pub struct RunContexts {
    pub slots: Vec<RunContext>,
    pub fallback_vm_id: u64,
    pub fallback_vcpu_id: usize,
}

/// The contents of the contexts.
#[verifier::ext_equal]
pub struct RunContextsView {
    pub slots: Seq<RunContext>,
    pub fallback_vm_id: u64,
    pub fallback_vcpu_id: usize,
}

impl View for RunContexts {
    type V = RunContextsView;

    open spec fn view(&self) -> RunContextsView {
        RunContextsView {
            slots: self.slots@,
            fallback_vm_id: self.fallback_vm_id,
            fallback_vcpu_id: self.fallback_vcpu_id,
        }
    }
}

impl RunContextsView {
    /// The first record of a task.
    pub open spec fn slot_of(self, task_id: u64, i: int) -> bool {
        &&& 0 <= i < self.slots.len()
        &&& self.slots[i].task_id == task_id
        &&& forall|j: int| 0 <= j < i ==> (#[trigger] self.slots[j]).task_id != task_id
    }

    /// A task has a record.
    pub open spec fn known(self, task_id: u64) -> bool {
        exists|i: int| 0 <= i < self.slots.len() && (#[trigger] self.slots[i]).task_id == task_id
    }

    /// The context of a task: nothing for task zero or a task without a record.
    pub open spec fn context(self, task_id: u64) -> Option<(u64, usize)> {
        if task_id != 0 && self.known(task_id) {
            let i = choose|i: int| #[trigger] self.slot_of(task_id, i);
            Some((self.slots[i].vm_id, self.slots[i].vcpu_id))
        } else {
            None
        }
    }

    /// The VM of a task: that of its context, or of the context set last.
    pub open spec fn vm_of(self, task_id: u64) -> u64 {
        match self.context(task_id) {
            Some(c) => c.0,
            None => self.fallback_vm_id,
        }
    }

    /// The vCPU of a task: that of its context, or of the context set last.
    pub open spec fn vcpu_of(self, task_id: u64) -> usize {
        match self.context(task_id) {
            Some(c) => c.1,
            None => self.fallback_vcpu_id,
        }
    }

    /// There are as many records as there can be.
    pub open spec fn inv(self) -> bool {
        &&& self.slots.len() == MAX_RUN_CONTEXTS
        &&& forall|i: int, j: int|
            0 <= i < self.slots.len() && 0 <= j < self.slots.len() && i != j && (#[trigger] self.slots[i]).task_id != 0
                ==> self.slots[i].task_id != (#[trigger] self.slots[j]).task_id
    }

    /// The position that a task's context goes to: its record, or else the first
    /// free one; nothing for task zero, or where none is free.
    pub open spec fn place(self, task_id: u64) -> Option<int> {
        if task_id == 0 {
            None
        } else if self.known(task_id) {
            Some(choose|i: int| #[trigger] self.slot_of(task_id, i))
        } else if self.known(0) {
            Some(choose|i: int| #[trigger] self.slot_of(0, i))
        } else {
            None
        }
    }

    /// The contexts after a task set its own: the context set last is this one,
    /// and the task's record holds it, where it has one.
    pub open spec fn set(self, task_id: u64, vm_id: u64, vcpu_id: usize) -> RunContextsView {
        RunContextsView {
            slots: match self.place(task_id) {
                Some(i) => self.slots.update(i, RunContext { task_id, vm_id, vcpu_id }),
                None => self.slots,
            },
            fallback_vm_id: vm_id,
            fallback_vcpu_id: vcpu_id,
        }
    }
}

impl RunContexts {
    /// The records satisfy what every call keeps.
    pub open spec fn wf(&self) -> bool {
        self@.inv()
    }

    /// No task has a context.
    pub fn new() -> (c: RunContexts)
        ensures
            c.wf(),
            c@ == (RunContextsView {
                slots: Seq::new(MAX_RUN_CONTEXTS as nat, |i: int| RunContext::spec_empty()),
                fallback_vm_id: 0,
                fallback_vcpu_id: 0,
            }),
    {
        let mut slots: Vec<RunContext> = Vec::new();
        let mut i: usize = 0;
        while i < MAX_RUN_CONTEXTS
            invariant
                i <= MAX_RUN_CONTEXTS,
                slots@ == Seq::new(i as nat, |j: int| RunContext::spec_empty()),
            decreases MAX_RUN_CONTEXTS - i,
        {
            slots.push(RunContext::empty());
            i += 1;
        }
        RunContexts { slots, fallback_vm_id: 0, fallback_vcpu_id: 0 }
    }

    /// Sets the VM and vCPU that a task runs.
    pub fn set_current_vcpu_context(&mut self, task_id: u64, vm_handle: u64, vcpu_id: u32)
        requires
            old(self).wf(),
        ensures
            final(self).wf(),
            final(self)@ == old(self)@.set(task_id, vm_handle, vcpu_id as usize),
    {
        let ghost before = self@;
        let vcpu: usize = vcpu_id as usize;
        self.fallback_vm_id = vm_handle;
        self.fallback_vcpu_id = vcpu;
        if task_id == 0 {
            return ;
        }
        let mut empty: usize = MAX_RUN_CONTEXTS;
        let mut i: usize = 0;
        while i < MAX_RUN_CONTEXTS
            invariant
                i <= MAX_RUN_CONTEXTS,
                task_id != 0,
                vcpu == vcpu_id,
                self@ == (RunContextsView { fallback_vm_id: vm_handle, fallback_vcpu_id: vcpu, ..before }),
                before == old(self)@,
                before.inv(),
                empty <= MAX_RUN_CONTEXTS,
                empty < MAX_RUN_CONTEXTS ==> before.slot_of(0, empty as int) && empty < i,
                empty == MAX_RUN_CONTEXTS ==> forall|j: int| 0 <= j < i ==> (#[trigger] before.slots[j]).task_id != 0,
                forall|j: int| 0 <= j < i ==> (#[trigger] before.slots[j]).task_id != task_id,
            decreases MAX_RUN_CONTEXTS - i,
        {
            let seen: u64 = self.slots[i].task_id;
            assert(before.slots[i as int].task_id == seen);
            if seen == task_id {
                self.slots[i].vm_id = vm_handle;
                self.slots[i].vcpu_id = vcpu;
                proof {
                    lemma_first_slot(before, task_id, i as int);
                    assert(self@.slots =~= before.slots.update(
                        i as int,
                        RunContext { task_id, vm_id: vm_handle, vcpu_id: vcpu },
                    ));
                    lemma_context_write_keeps_inv(before, i as int, task_id, vm_handle, vcpu);
                }
                return ;
            }
            if seen == 0 && empty == MAX_RUN_CONTEXTS {
                empty = i;
            }
            i += 1;
        }
        assert(!before.known(task_id));
        if empty < MAX_RUN_CONTEXTS {
            self.slots[empty] = RunContext { task_id, vm_id: vm_handle, vcpu_id: vcpu };
            proof {
                lemma_first_slot(before, 0, empty as int);
                assert(before.slots[empty as int].task_id == 0);
                assert(self@.slots =~= before.slots.update(
                    empty as int,
                    RunContext { task_id, vm_id: vm_handle, vcpu_id: vcpu },
                ));
                lemma_context_write_keeps_inv(before, empty as int, task_id, vm_handle, vcpu);
            }
        } else {
            assert(!before.known(0));
        }
    }

    /// The context of a task.
    pub fn current_run_context(&self, task_id: u64) -> (r: Option<(u64, usize)>)
        requires
            self.wf(),
        ensures
            r == self@.context(task_id),
    {
        if task_id == 0 {
            return None;
        }
        let mut i: usize = 0;
        while i < MAX_RUN_CONTEXTS
            invariant
                i <= MAX_RUN_CONTEXTS,
                task_id != 0,
                self.wf(),
                forall|j: int| 0 <= j < i ==> (#[trigger] self@.slots[j]).task_id != task_id,
            decreases MAX_RUN_CONTEXTS - i,
        {
            if self.slots[i].task_id == task_id {
                proof {
                    assert(self@.slots[i as int].task_id == task_id);
                    assert(self@.slot_of(task_id, i as int));
                    lemma_context_lookup(self@, task_id, i as int);
                }
                return Some((self.slots[i].vm_id, self.slots[i].vcpu_id));
            }
            i += 1;
        }
        None
    }

    /// The VM that a task runs.
    pub fn current_vm_id(&self, task_id: u64) -> (r: u64)
        requires
            self.wf(),
        ensures
            r == self@.vm_of(task_id),
    {
        match self.current_run_context(task_id) {
            Some(c) => c.0,
            None => self.fallback_vm_id,
        }
    }

    /// The vCPU that a task runs.
    pub fn current_vcpu_id(&self, task_id: u64) -> (r: usize)
        requires
            self.wf(),
        ensures
            r == self@.vcpu_of(task_id),
    {
        match self.current_run_context(task_id) {
            Some(c) => c.1,
            None => self.fallback_vcpu_id,
        }
    }

    /// Registers a timer for the vCPU that a task runs.
    pub fn register_timer<C>(&self, timers: &mut TimerTables<C>, task_id: u64, deadline: u128, callback: C) -> (r: (
        usize,
        Option<TimerProgram>,
    ))
        requires
            self.wf(),
            old(timers).wf(),
        ensures
            final(timers).wf(),
            r.0 == old(timers)@.fresh_token(),
            self@.vcpu_of(task_id) >= MAX_VCPUS ==> r.1 is None,
            r.1 is None ==> {
                &&& final(timers)@ == old(timers)@.token_taken()
                &&& self@.vcpu_of(task_id) < MAX_VCPUS ==> forall|v: int|
                    0 <= v < MAX_VCPUS ==> #[trigger] old(timers)@.full(v)
            },
            r.1 matches Some(p) ==> {
                &&& final(timers)@.programs(p)
                &&& exists|probe: int, i: int|
                    {
                        &&& #[trigger] old(timers)@.register_finds(self@.vcpu_of(task_id), probe, i)
                        &&& final(timers)@ == old(timers)@.token_taken().with_slot(
                            TimersView::<C>::probed(self@.vcpu_of(task_id), probe),
                            i,
                            KvmTimerEntry {
                                in_use: true,
                                token: r.0,
                                vm_id: self@.vm_of(task_id),
                                deadline,
                                callback: Some(callback),
                            },
                        )
                    }
            },
    {
        let vm_id: u64 = self.current_vm_id(task_id);
        let vcpu_id: usize = self.current_vcpu_id(task_id);
        timers.register_kvm_timer_on_table(vm_id, vcpu_id, deadline, callback)
    }
}

proof fn lemma_first_slot(c: RunContextsView, task_id: u64, i: int)
    requires
        c.slot_of(task_id, i),
    ensures
        c.known(task_id),
        (choose|k: int| #[trigger] c.slot_of(task_id, k)) == i,
{
    let k = choose|k: int| #[trigger] c.slot_of(task_id, k);
    assert(c.slot_of(task_id, k));
    if k < i {
        assert(c.slots[k].task_id != task_id);
    }
    if i < k {
        assert(c.slots[i].task_id != task_id);
    }
}

/// A known task has a first record.
proof fn lemma_known_has_first(c: RunContextsView, task_id: u64, k: int)
    requires
        0 <= k < c.slots.len(),
        c.slots[k].task_id == task_id,
    ensures
        exists|i: int| #[trigger] c.slot_of(task_id, i),
    decreases k,
{
    if c.slot_of(task_id, k) {
    } else {
        let j = choose|j: int| 0 <= j < k && (#[trigger] c.slots[j]).task_id == task_id;
        lemma_known_has_first(c, task_id, j);
    }
}

pub(crate) proof fn lemma_place(c: RunContextsView, task_id: u64)
    requires
        task_id != 0,
    ensures
        c.place(task_id) is None ==> !c.known(task_id) && !c.known(0),
        c.place(task_id) matches Some(i) ==> 0 <= i < c.slots.len() && (c.slots[i].task_id == task_id || (
        c.slots[i].task_id == 0 && !c.known(task_id))),
{
    if c.known(task_id) {
        let k = choose|k: int| 0 <= k < c.slots.len() && (#[trigger] c.slots[k]).task_id == task_id;
        lemma_known_has_first(c, task_id, k);
        let i = choose|i: int| #[trigger] c.slot_of(task_id, i);
        assert(c.slot_of(task_id, i));
    } else if c.known(0) {
        let k = choose|k: int| 0 <= k < c.slots.len() && (#[trigger] c.slots[k]).task_id == 0;
        lemma_known_has_first(c, 0, k);
        let i = choose|i: int| #[trigger] c.slot_of(0, i);
        assert(c.slot_of(0, i));
    }
}

proof fn lemma_context_write_keeps_inv(c: RunContextsView, i: int, task_id: u64, vm_id: u64, vcpu_id: usize)
    requires
        c.inv(),
        task_id != 0,
        0 <= i < c.slots.len(),
        c.slots[i].task_id == task_id || (c.slots[i].task_id == 0 && !c.known(task_id)),
    ensures
        (RunContextsView {
            slots: c.slots.update(i, RunContext { task_id, vm_id, vcpu_id }),
            fallback_vm_id: vm_id,
            fallback_vcpu_id: vcpu_id,
        }).inv(),
{
    let s = c.slots.update(i, RunContext { task_id, vm_id, vcpu_id });
    assert forall|a: int, b: int|
        0 <= a < s.len() && 0 <= b < s.len() && a != b && (#[trigger] s[a]).task_id != 0 implies s[a].task_id != (
    #[trigger] s[b]).task_id by {
        if a == i {
            assert(s[b] == c.slots[b]);
            if c.slots[b].task_id == task_id {
                assert(c.known(task_id));
                assert(c.slots[b].task_id != c.slots[i].task_id);
            }
        } else if b == i {
            assert(s[a] == c.slots[a]);
            if c.slots[a].task_id == task_id {
                assert(c.known(task_id));
                assert(c.slots[a].task_id != c.slots[i].task_id);
            }
        } else {
            assert(s[a] == c.slots[a]);
            assert(s[b] == c.slots[b]);
        }
    }
}

pub(crate) proof fn lemma_context_lookup(c: RunContextsView, task_id: u64, i: int)
    requires
        c.inv(),
        task_id != 0,
        0 <= i < c.slots.len(),
        c.slots[i].task_id == task_id,
    ensures
        c.slot_of(task_id, i),
        c.context(task_id) == Some((c.slots[i].vm_id, c.slots[i].vcpu_id)),
{
    assert forall|j: int| 0 <= j < i implies (#[trigger] c.slots[j]).task_id != task_id by {
        assert(c.slots[i].task_id != c.slots[j].task_id);
    }
    assert(c.slot_of(task_id, i));
    let k = choose|k: int| #[trigger] c.slot_of(task_id, k);
    assert(c.slot_of(task_id, k));
    if k != i {
        assert(c.slots[i].task_id != c.slots[k].task_id);
    }
}

/// What a task set is what it reads back, with a record or without one.
pub proof fn set_context_is_current(c: RunContextsView, task_id: u64, vm_id: u64, vcpu_id: usize)
    requires
        c.inv(),
    ensures
        c.set(task_id, vm_id, vcpu_id).inv(),
        c.set(task_id, vm_id, vcpu_id).vm_of(task_id) == vm_id,
        c.set(task_id, vm_id, vcpu_id).vcpu_of(task_id) == vcpu_id,
{
    let after = c.set(task_id, vm_id, vcpu_id);
    if task_id != 0 {
        lemma_place(c, task_id);
        match c.place(task_id) {
            Some(i) => {
                lemma_context_write_keeps_inv(c, i, task_id, vm_id, vcpu_id);
                lemma_context_lookup(after, task_id, i);
            },
            None => {
                assert(!after.known(task_id));
            },
        }
    }
}

/// A task that sets its context leaves the contexts of other tasks as they were.
pub proof fn set_context_keeps_others(c: RunContextsView, task_id: u64, vm_id: u64, vcpu_id: usize, other: u64)
    requires
        c.inv(),
        other != task_id,
    ensures
        c.set(task_id, vm_id, vcpu_id).context(other) == c.context(other),
{
    let after = c.set(task_id, vm_id, vcpu_id);
    set_context_is_current(c, task_id, vm_id, vcpu_id);
    if other != 0 {
        if task_id != 0 {
            lemma_place(c, task_id);
        }
        if c.known(other) {
            let k = choose|k: int| 0 <= k < c.slots.len() && (#[trigger] c.slots[k]).task_id == other;
            assert(after.slots[k] == c.slots[k]);
            lemma_context_lookup(c, other, k);
            lemma_context_lookup(after, other, k);
        } else if after.known(other) {
            let k = choose|k: int| 0 <= k < after.slots.len() && (#[trigger] after.slots[k]).task_id == other;
            assert(c.slots[k] == after.slots[k]);
        }
    }
}

} // verus!
