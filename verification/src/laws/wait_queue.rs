//! Wait queues.
use vstd::prelude::*;

use crate::laws::codes::no_memory;
use crate::wait_queue::{
    axvisor_linux_sync_create_wait_queue, axvisor_linux_sync_destroy_wait_queue, axvisor_linux_sync_wait_queue_wait,
    axvisor_linux_sync_wait_queue_wait_until, axvisor_linux_sync_wait_queue_wake_all,
    axvisor_linux_sync_wait_queue_wake_one, is_first, lemma_index, LinuxSyncAdapter, UntilStep, WaitQueueRegistryEntry,
    WaitQueueState, WaitStep, WaitQueuesView,
};

verus! {

/// The queue with an id stands at a position: the first entry with that id.
pub open spec fn stands_at(s: Seq<WaitQueueRegistryEntry>, id: usize, i: int) -> bool {
    &&& 0 <= i < s.len()
    &&& s[i].id == id
    &&& forall|j: int| 0 <= j < i ==> (#[trigger] s[j]).id != id
}

/// There is no queue with an id.
pub open spec fn is_gone(s: Seq<WaitQueueRegistryEntry>, id: usize) -> bool {
    forall|j: int| 0 <= j < s.len() ==> (#[trigger] s[j]).id != id
}

/// Queues that differ in the tickets of one alone.
pub open spec fn only_that_queue(was: Seq<WaitQueueRegistryEntry>, now: Seq<WaitQueueRegistryEntry>, i: int) -> bool {
    &&& now.len() == was.len()
    &&& now[i].id == was[i].id
    &&& forall|j: int| 0 <= j < was.len() && j != i ==> #[trigger] now[j] == was[j]
}

proof fn lemma_stands(v: WaitQueuesView, id: usize, i: int)
    ensures
        stands_at(v.entries, id, i) ==> v.index(id) == Some(i) && v.queue(id) == Some(v.entries[i].queue),
        is_gone(v.entries, id) ==> v.index(id) is None && v.queue(id) is None,
{
    if stands_at(v.entries, id, i) {
        assert(is_first(v.entries, id, i));
        lemma_index(v, id, i);
    }
    if is_gone(v.entries, id) {
        assert forall|k: int| !is_first(v.entries, id, k) by {
            if is_first(v.entries, id, k) {
                assert(v.entries[k].id != id);
            }
        }
    }
}

/// A queue is found under its id, with its tickets, exactly where there is one.
pub proof fn queue_is_found_by_its_id(s: &LinuxSyncAdapter, id: usize, i: int, r: Option<WaitQueueState>)
    requires
        call_ensures(LinuxSyncAdapter::lookup_wait_queue, (s, id), r),
    ensures
        stands_at(s.entries@, id, i) ==> r == Some(s.entries@[i].queue),
        is_gone(s.entries@, id) ==> r is None,
{
    lemma_stands(s@, id, i);
}

/// A new queue stands at the end, under an id that is not zero and was next, with no
/// ticket handed out; without memory there is none, and every other queue stays.
pub proof fn new_queue_has_no_tickets(s: &mut LinuxSyncAdapter, room: bool, r: Result<usize, i32>, c: &mut LinuxSyncAdapter, id: usize)
    requires
        old(c)@ == old(s)@,
        call_ensures(LinuxSyncAdapter::create_wait_queue, (s, room), r),
        call_ensures(axvisor_linux_sync_create_wait_queue, (c, room), id),
    ensures
        !room ==> r == Err::<usize, i32>(no_memory()) && final(s).entries@ == old(s).entries@,
        room ==> (r matches Ok(n) && {
            let was = old(s).entries@;
            let now = final(s).entries@;
            &&& n != 0 && (old(s).next_id != 0 ==> n == old(s).next_id)
            &&& now.len() == was.len() + 1
            &&& now[was.len() as int].id == n
            &&& now[was.len() as int].queue.next_ticket == 0 && now[was.len() as int].queue.woken_ticket == 0
            &&& forall|j: int| 0 <= j < was.len() ==> #[trigger] now[j] == was[j]
        }),
        old(s).next_id != 0 && old(s).next_id < usize::MAX ==> final(s).next_id == old(s).next_id + 1,
        final(c)@ == final(s)@,
        id == (match r {
            Ok(n) => n,
            Err(_) => 0,
        }),
{
}

/// A queue that is destroyed is taken out of the table, and no other is; its waiters are to
/// be woken exactly where there was one.
pub proof fn destroyed_queue_is_taken_out(
    s: &mut LinuxSyncAdapter,
    id: usize,
    i: int,
    notify: bool,
    c: &mut LinuxSyncAdapter,
    told: bool,
)
    requires
        old(c)@ == old(s)@,
        call_ensures(LinuxSyncAdapter::destroy_wait_queue, (s, id), notify),
        call_ensures(axvisor_linux_sync_destroy_wait_queue, (c, id), told),
    ensures
        ({
            let was = old(s).entries@;
            let now = final(s).entries@;
            &&& stands_at(was, id, i) ==> {
                &&& notify
                &&& now.len() == was.len() - 1
                &&& forall|j: int| 0 <= j < i ==> #[trigger] now[j] == was[j]
                &&& forall|j: int| i <= j < now.len() ==> #[trigger] now[j] == was[j + 1]
            }
            &&& is_gone(was, id) ==> !notify && now == was
        }),
        final(c)@ == final(s)@ && told == notify,
{
    lemma_stands(old(s)@, id, i);
}

/// A waiter gets the next ticket of its queue, and so does no one else; without a queue
/// there is nothing to wait for.
pub proof fn waiter_gets_the_next_ticket(
    s: &mut LinuxSyncAdapter,
    id: usize,
    i: int,
    step: WaitStep,
    c: &mut LinuxSyncAdapter,
    called: WaitStep,
)
    requires
        old(s)@.wf(),
        old(s)@.has_tickets(id),
        old(c)@ == old(s)@,
        call_ensures(LinuxSyncAdapter::wait_queue_wait, (s, id), step),
        call_ensures(axvisor_linux_sync_wait_queue_wait, (c, id), called),
    ensures
        ({
            let was = old(s).entries@;
            let now = final(s).entries@;
            &&& stands_at(was, id, i) ==> {
                &&& step == (WaitStep::Sleep { ticket: was[i].queue.next_ticket })
                &&& now[i].queue.next_ticket == was[i].queue.next_ticket + 1
                &&& now[i].queue.woken_ticket == was[i].queue.woken_ticket
                &&& only_that_queue(was, now, i)
            }
            &&& is_gone(was, id) ==> step is Return && now == was
        }),
        final(c)@ == final(s)@ && called == step,
{
    lemma_stands(old(s)@, id, i);
}

/// A waiter goes on exactly where its ticket was released or its queue is gone.
pub proof fn waiter_goes_on_when_released(s: &LinuxSyncAdapter, id: usize, ticket: usize, i: int, over: bool)
    requires
        call_ensures(LinuxSyncAdapter::wait_over, (s, id, ticket), over),
    ensures
        stands_at(s.entries@, id, i) ==> (over <==> ticket < s.entries@[i].queue.woken_ticket),
        is_gone(s.entries@, id) ==> over,
{
    lemma_stands(s@, id, i);
}

/// Waking one releases exactly the oldest ticket that was handed out and not released;
/// where there is none nothing changes and no one is told.
pub proof fn wake_one_releases_the_oldest_ticket(
    s: &mut LinuxSyncAdapter,
    id: usize,
    i: int,
    notify: bool,
    c: &mut LinuxSyncAdapter,
    told: bool,
)
    requires
        old(s)@.wf(),
        old(c)@ == old(s)@,
        call_ensures(LinuxSyncAdapter::wait_queue_wake_one, (s, id), notify),
        call_ensures(axvisor_linux_sync_wait_queue_wake_one, (c, id), told),
    ensures
        ({
            let was = old(s).entries@;
            let now = final(s).entries@;
            let q = was[i].queue;
            &&& stands_at(was, id, i) && q.woken_ticket < q.next_ticket ==> {
                &&& notify
                &&& now[i].queue.woken_ticket == q.woken_ticket + 1 && now[i].queue.next_ticket == q.next_ticket
                &&& only_that_queue(was, now, i)
            }
            &&& stands_at(was, id, i) && q.woken_ticket >= q.next_ticket ==> !notify && now == was
            &&& is_gone(was, id) ==> !notify && now == was
        }),
        final(c)@ == final(s)@ && told == notify,
{
    lemma_stands(old(s)@, id, i);
}

/// Waking all releases every ticket that was handed out, and none that was not.
pub proof fn wake_all_releases_every_ticket(
    s: &mut LinuxSyncAdapter,
    id: usize,
    i: int,
    notify: bool,
    c: &mut LinuxSyncAdapter,
    told: bool,
)
    requires
        old(s)@.wf(),
        old(c)@ == old(s)@,
        call_ensures(LinuxSyncAdapter::wait_queue_wake_all, (s, id), notify),
        call_ensures(axvisor_linux_sync_wait_queue_wake_all, (c, id), told),
    ensures
        ({
            let was = old(s).entries@;
            let now = final(s).entries@;
            &&& stands_at(was, id, i) ==> {
                &&& notify
                &&& now[i].queue.woken_ticket == was[i].queue.next_ticket && now[i].queue.next_ticket
                    == was[i].queue.next_ticket
                &&& only_that_queue(was, now, i)
            }
            &&& is_gone(was, id) ==> !notify && now == was
        }),
        final(c)@ == final(s)@ && told == notify,
{
    lemma_stands(old(s)@, id, i);
}

/// A wait for a condition tests it first without a ticket, then under the queue's lock; only
/// then it takes the next ticket. With a ticket it sleeps as long as neither the condition
/// holds nor the ticket was released, and then begins anew. It is over where the condition
/// held before a ticket was taken, or the queue is gone.
pub proof fn conditional_wait_tests_before_it_sleeps(
    s: &mut LinuxSyncAdapter,
    id: usize,
    step: UntilStep,
    held: bool,
    i: int,
    next: UntilStep,
    c: &LinuxSyncAdapter,
    start: UntilStep,
    called: UntilStep,
)
    requires
        old(s)@.wf(),
        old(s)@.has_tickets(id),
        c@ == old(s)@,
        call_ensures(LinuxSyncAdapter::wait_until_resume, (s, id, step, held), next),
        call_ensures(LinuxSyncAdapter::wait_queue_wait_until, (c, id), start),
        call_ensures(axvisor_linux_sync_wait_queue_wait_until, (c, id), called),
    ensures
        ({
            let was = old(s).entries@;
            let now = final(s).entries@;
            let q = was[i].queue;
            &&& stands_at(was, id, i) ==> {
                &&& start is CheckOuter
                &&& step is CheckOuter ==> next == (if held {
                    UntilStep::Done
                } else {
                    UntilStep::CheckLocked
                })
                &&& step is CheckLocked && held ==> next is Done
                &&& step is CheckLocked && !held ==> {
                    &&& next == (UntilStep::CheckAsleep { ticket: q.next_ticket })
                    &&& now[i].queue.next_ticket == q.next_ticket + 1 && now[i].queue.woken_ticket == q.woken_ticket
                    &&& only_that_queue(was, now, i)
                }
                &&& step matches UntilStep::CheckAsleep { ticket } ==> next == (if held || ticket < q.woken_ticket {
                    UntilStep::CheckAfter
                } else {
                    UntilStep::Sleep { ticket }
                })
                &&& step matches UntilStep::Sleep { ticket } ==> next == (UntilStep::CheckAsleep { ticket })
                &&& step is CheckAfter ==> next is CheckOuter
            }
            &&& is_gone(was, id) ==> next is Done && start is Done
            &&& step is Done ==> next is Done
            &&& !(step is CheckLocked && !held && stands_at(was, id, i)) && (stands_at(was, id, i) || is_gone(was, id)) ==> now
                == was
        }),
        called == start,
{
    lemma_stands(old(s)@, id, i);
}

} // verus!
