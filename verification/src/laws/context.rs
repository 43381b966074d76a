//! Which VM and vCPU a task runs.
use vstd::prelude::*;

use crate::context::{
    set_context_is_current, set_context_keeps_others, RunContexts, RunContextsView,
};

verus! {

/// A task's record, where it has one.
pub open spec fn record(c: RunContextsView, task: u64, i: int) -> bool {
    0 <= i < c.slots.len() && c.slots[i].task_id == task
}

/// What a task set is what it reads back, whether it got a record or not, and so does a
/// task without a record; a task with a record keeps what it had.
pub proof fn task_reads_what_it_set(
    c: &mut RunContexts,
    task: u64,
    vm: u64,
    vcpu: u32,
    after: &RunContexts,
    other: u64,
    own_vm: u64,
    own_vcpu: usize,
    other_context: Option<(u64, usize)>,
    other_vm: u64,
    other_vcpu: usize,
    i: int,
)
    requires
        old(c).wf(),
        after.wf(),
        call_ensures(RunContexts::set_current_vcpu_context, (c, task, vm, vcpu), ()),
        call_ensures(RunContexts::current_vm_id, (after, task), own_vm),
        call_ensures(RunContexts::current_vcpu_id, (after, task), own_vcpu),
        call_ensures(RunContexts::current_run_context, (after, other), other_context),
        call_ensures(RunContexts::current_vm_id, (after, other), other_vm),
        call_ensures(RunContexts::current_vcpu_id, (after, other), other_vcpu),
        other != task,
        other != 0,
    ensures
        after@ == final(c)@ ==> {
            &&& own_vm == vm && own_vcpu == vcpu
            &&& record(old(c)@, other, i) ==> other_context == Some((old(c)@.slots[i].vm_id, old(c)@.slots[i].vcpu_id))
                && other_vm == old(c)@.slots[i].vm_id && other_vcpu == old(c)@.slots[i].vcpu_id
            &&& (forall|k: int| !record(old(c)@, other, k)) ==> other_context is None && other_vm == vm && other_vcpu == vcpu
        },
{
    let was = old(c)@;
    set_context_is_current(was, task, vm, vcpu as usize);
    set_context_keeps_others(was, task, vm, vcpu as usize, other);
    if record(was, other, i) {
        crate::context::lemma_context_lookup(was, other, i);
    }
    if forall|k: int| !record(was, other, k) {
        assert forall|k: int| 0 <= k < was.slots.len() implies (#[trigger] was.slots[k]).task_id != other by {
            assert(!record(was, other, k));
        }
    }
}

/// A task that sets its context has a record from then on, where it had one or one was
/// free; task zero never has one.
pub proof fn task_gets_a_record(c: &mut RunContexts, task: u64, vm: u64, vcpu: u32, after: &RunContexts, r: Option<(u64, usize)>)
    requires
        old(c).wf(),
        after.wf(),
        call_ensures(RunContexts::set_current_vcpu_context, (c, task, vm, vcpu), ()),
        call_ensures(RunContexts::current_run_context, (after, task), r),
    ensures
        after@ == final(c)@ ==> {
            &&& task == 0 ==> r is None
            &&& task != 0 && (exists|i: int| record(old(c)@, task, i) || record(old(c)@, 0, i)) ==> r == Some(
                (vm, vcpu as usize),
            )
            &&& task != 0 && !(exists|i: int| record(old(c)@, task, i) || record(old(c)@, 0, i)) ==> r is None
        },
{
    let was = old(c)@;
    if task != 0 && after@ == final(c)@ {
        crate::context::lemma_place(was, task);
        if exists|i: int| record(was, task, i) || record(was, 0, i) {
            let i = choose|i: int| record(was, task, i) || record(was, 0, i);
            assert(was.known(task) || was.known(0));
            let k = was.place(task)->Some_0;
            crate::context::lemma_context_lookup(after@, task, k);
        } else {
            if was.known(task) {
                let k = choose|k: int| 0 <= k < was.slots.len() && (#[trigger] was.slots[k]).task_id == task;
                assert(record(was, task, k));
            }
            if was.known(0) {
                let k = choose|k: int| 0 <= k < was.slots.len() && (#[trigger] was.slots[k]).task_id == 0;
                assert(record(was, 0, k));
            }
        }
    }
}

/// At first no task has a context.
pub proof fn no_task_has_a_context_at_first(c: RunContexts, task: u64, r: Option<(u64, usize)>)
    requires
        call_ensures(RunContexts::new, (), c),
        call_ensures(RunContexts::current_run_context, (&c, task), r),
    ensures
        r is None,
{
    if task != 0 && c@.known(task) {
        let k = choose|k: int| 0 <= k < c@.slots.len() && (#[trigger] c@.slots[k]).task_id == task;
        assert(c@.slots[k].task_id == 0);
    }
}

} // verus!
