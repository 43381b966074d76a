//! Wait queues: tickets are handed out in order and released in order.
//!
//! A waiter holds the queue's id and its ticket. A queue that is not in the table
//! has been destroyed, and nobody waits on it.
use crate::errno::ENOMEM;
use vstd::prelude::*;

verus! {

/// The tickets of a queue: `next_ticket` is handed out next, and those below
/// `woken_ticket` are released.
#[derive(Clone, Copy, Debug, PartialEq, Eq, Structural)]
pub struct WaitQueueState {
    pub next_ticket: usize,
    pub woken_ticket: usize,
}

/// A queue in the table.
#[derive(Clone, Copy, Debug, PartialEq, Eq, Structural)]
pub struct WaitQueueRegistryEntry {
    pub id: usize,
    pub queue: WaitQueueState,
}

/// All wait queues.
pub struct LinuxSyncAdapter {
    pub entries: Vec<WaitQueueRegistryEntry>,
    pub next_id: usize,
}

/// The contents of the table of wait queues.
#[verifier::ext_equal]
pub struct WaitQueuesView {
    pub entries: Seq<WaitQueueRegistryEntry>,
    pub next_id: usize,
}

impl View for LinuxSyncAdapter {
    type V = WaitQueuesView;

    open spec fn view(&self) -> WaitQueuesView {
        WaitQueuesView { entries: self.entries@, next_id: self.next_id }
    }
}

/// What a wait comes to.
#[derive(Clone, Copy, Debug, PartialEq, Eq, Structural)]
pub enum WaitStep {
    /// Nothing to wait for.
    Return,
    /// Sleep until the ticket is released.
    Sleep { ticket: usize },
}

/// Where a wait for a condition stands: what to do next.
#[derive(Clone, Copy, Debug, PartialEq, Eq, Structural)]
pub enum UntilStep {
    /// Test the condition, without the queue's lock.
    CheckOuter,
    /// Test the condition under the lock, before a ticket is taken.
    CheckLocked,
    /// Test the condition under the lock, with a ticket.
    CheckAsleep { ticket: usize },
    /// Sleep for a bounded time, or until woken.
    Sleep { ticket: usize },
    /// Test the condition under the lock after the wait; either way it is tested
    /// anew from the start.
    CheckAfter,
    /// The wait is over.
    Done,
}

/// `i` is where the queue with this id stands: the first that has it.
pub open spec fn is_first(entries: Seq<WaitQueueRegistryEntry>, id: usize, i: int) -> bool {
    &&& 0 <= i < entries.len()
    &&& entries[i].id == id
    &&& forall|j: int| 0 <= j < i ==> (#[trigger] entries[j]).id != id
}

impl WaitQueuesView {
    /// Where the queue with this id stands.
    pub open spec fn index(self, id: usize) -> Option<int> {
        if exists|i: int| is_first(self.entries, id, i) {
            Some(choose|i: int| is_first(self.entries, id, i))
        } else {
            None
        }
    }

    /// The state of the queue with this id.
    pub open spec fn queue(self, id: usize) -> Option<WaitQueueState> {
        match self.index(id) {
            Some(i) => Some(self.entries[i].queue),
            None => None,
        }
    }

    /// The table with another state for the queue with this id.
    pub open spec fn with_queue(self, id: usize, queue: WaitQueueState) -> WaitQueuesView {
        match self.index(id) {
            Some(i) => WaitQueuesView {
                entries: self.entries.update(i, WaitQueueRegistryEntry { id, queue }),
                ..self
            },
            None => self,
        }
    }

    /// The id of the next queue: zero is not used.
    pub open spec fn fresh_id(self) -> usize {
        if self.next_id == 0 {
            1
        } else {
            self.next_id
        }
    }

    /// The table with one more queue, or only the id used up where memory ran out.
    pub open spec fn created(self, room: bool) -> WaitQueuesView {
        let id = self.fresh_id();
        WaitQueuesView {
            entries: if room {
                self.entries.push(
                    WaitQueueRegistryEntry {
                        id,
                        queue: WaitQueueState { next_ticket: 0, woken_ticket: 0 },
                    },
                )
            } else {
                self.entries
            },
            next_id: if id == usize::MAX {
                0
            } else {
                (id + 1) as usize
            },
        }
    }

    /// The table without the queue with this id.
    pub open spec fn destroyed(self, id: usize) -> WaitQueuesView {
        match self.index(id) {
            Some(i) => WaitQueuesView { entries: self.entries.remove(i), ..self },
            None => self,
        }
    }

    /// The table after a ticket was handed out.
    pub open spec fn ticketed(self, id: usize) -> WaitQueuesView {
        match self.queue(id) {
            Some(q) => self.with_queue(
                id,
                WaitQueueState { next_ticket: (q.next_ticket + 1) as usize, ..q },
            ),
            None => self,
        }
    }

    /// The table after one waiter was released: the one that waits longest.
    pub open spec fn woken_one(self, id: usize) -> WaitQueuesView {
        match self.queue(id) {
            Some(q) => if q.woken_ticket < q.next_ticket {
                self.with_queue(
                    id,
                    WaitQueueState { woken_ticket: (q.woken_ticket + 1) as usize, ..q },
                )
            } else {
                self
            },
            None => self,
        }
    }

    /// The table after all waiters were released.
    pub open spec fn woken_all(self, id: usize) -> WaitQueuesView {
        match self.queue(id) {
            Some(q) => self.with_queue(id, WaitQueueState { woken_ticket: q.next_ticket, ..q }),
            None => self,
        }
    }

    /// A waiter with this ticket goes on.
    pub open spec fn released(self, id: usize, ticket: usize) -> bool {
        match self.queue(id) {
            Some(q) => q.woken_ticket > ticket,
            None => true,
        }
    }

    /// No ticket is released before it is handed out.
    pub open spec fn wf(self) -> bool {
        forall|i: int|
            0 <= i < self.entries.len() ==> (#[trigger] self.entries[i]).queue.woken_ticket
                <= self.entries[i].queue.next_ticket
    }

    /// Another ticket of this queue can be numbered.
    pub open spec fn has_tickets(self, id: usize) -> bool {
        self.queue(id) matches Some(q) ==> q.next_ticket < usize::MAX
    }
}

pub(crate) proof fn lemma_index(v: WaitQueuesView, id: usize, i: int)
    requires
        is_first(v.entries, id, i),
    ensures
        v.index(id) == Some(i),
{
    let k = choose|k: int| is_first(v.entries, id, k);
    assert(is_first(v.entries, id, k));
    if k < i {
        assert(v.entries[k].id != id);
    } else if i < k {
        assert(v.entries[i].id != id);
    }
}

/// What follows a test of the condition, or a sleep, and whether a ticket is taken
/// on the way.
pub open spec fn until_next(step: UntilStep, v: WaitQueuesView, id: usize, held: bool) -> (UntilStep, WaitQueuesView) {
    let gone = v.queue(id) is None;
    match step {
        UntilStep::CheckOuter => (
            if held || gone {
                UntilStep::Done
            } else {
                UntilStep::CheckLocked
            },
            v,
        ),
        UntilStep::CheckLocked => if held {
            (UntilStep::Done, v)
        } else {
            match v.queue(id) {
                Some(q) => (UntilStep::CheckAsleep { ticket: q.next_ticket }, v.ticketed(id)),
                None => (UntilStep::Done, v),
            }
        },
        UntilStep::CheckAsleep { ticket } => (
            if gone {
                UntilStep::Done
            } else if held || v.released(id, ticket) {
                UntilStep::CheckAfter
            } else {
                UntilStep::Sleep { ticket }
            },
            v,
        ),
        UntilStep::Sleep { ticket } => (
            if gone {
                UntilStep::Done
            } else {
                UntilStep::CheckAsleep { ticket }
            },
            v,
        ),
        UntilStep::CheckAfter => (
            if gone {
                UntilStep::Done
            } else {
                UntilStep::CheckOuter
            },
            v,
        ),
        UntilStep::Done => (UntilStep::Done, v),
    }
}

impl LinuxSyncAdapter {
    /// No queues.
    pub fn new() -> (s: LinuxSyncAdapter)
        ensures
            s@ == (WaitQueuesView { entries: seq![], next_id: 1 }),
            s@.wf(),
    {
        LinuxSyncAdapter { entries: Vec::new(), next_id: 1 }
    }

    fn find(&self, id: usize) -> (r: Option<usize>)
        ensures
            r matches Some(i) ==> is_first(self@.entries, id, i as int) && self@.index(id) == Some(i as int),
            r is None ==> self@.index(id) is None,
    {
        let mut i: usize = 0;
        while i < self.entries.len()
            invariant
                i <= self.entries@.len(),
                forall|j: int| 0 <= j < i ==> (#[trigger] self.entries@[j]).id != id,
            decreases self.entries@.len() - i,
        {
            if self.entries[i].id == id {
                proof {
                    lemma_index(self@, id, i as int);
                }
                return Some(i);
            }
            i += 1;
        }
        None
    }

    /// Looks a queue up.
    pub fn lookup_wait_queue(&self, id: usize) -> (r: Option<WaitQueueState>)
        ensures
            r == self@.queue(id),
    {
        match self.find(id) {
            Some(i) => Some(self.entries[i].queue),
            None => None,
        }
    }

    /// Makes a queue and gives its id; `room` says that memory was found. A failure
    /// uses up the id.
    pub fn create_wait_queue(&mut self, room: bool) -> (r: Result<usize, i32>)
        ensures
            final(self)@ == old(self)@.created(room),
            r == (if room {
                Ok::<usize, i32>(old(self)@.fresh_id())
            } else {
                Err((-ENOMEM) as i32)
            }),
            old(self)@.wf() ==> final(self)@.wf(),
    {
        let id: usize = if self.next_id == 0 {
            1
        } else {
            self.next_id
        };
        self.next_id = if id == usize::MAX {
            0
        } else {
            id + 1
        };
        if !room {
            return Err(-ENOMEM);
        }
        self.entries.push(
            WaitQueueRegistryEntry { id, queue: WaitQueueState { next_ticket: 0, woken_ticket: 0 } },
        );
        assert forall|i: int| old(self)@.wf() && 0 <= i < self@.entries.len() implies (
        #[trigger] self@.entries[i]).queue.woken_ticket <= self@.entries[i].queue.next_ticket by {
            if i < old(self)@.entries.len() {
                assert(self@.entries[i] == old(self)@.entries[i]);
            }
        }
        Ok(id)
    }

    /// Destroys a queue; says whether there was one whose waiters are to be woken.
    pub fn destroy_wait_queue(&mut self, queue: usize) -> (notify: bool)
        ensures
            final(self)@ == old(self)@.destroyed(queue),
            notify == (old(self)@.queue(queue) is Some),
            old(self)@.wf() ==> final(self)@.wf(),
    {
        match self.find(queue) {
            Some(i) => {
                let _removed = self.entries.remove(i);
                true
            },
            None => false,
        }
    }

    /// Starts a wait: takes a ticket where there is a queue.
    pub fn wait_queue_wait(&mut self, queue: usize) -> (step: WaitStep)
        requires
            old(self)@.wf(),
            old(self)@.has_tickets(queue),
        ensures
            final(self)@ == old(self)@.ticketed(queue),
            final(self)@.wf(),
            step == (match old(self)@.queue(queue) {
                Some(q) => WaitStep::Sleep { ticket: q.next_ticket },
                None => WaitStep::Return,
            }),
    {
        match self.find(queue) {
            Some(i) => {
                let entry = self.entries[i];
                let ticket: usize = entry.queue.next_ticket;
                self.entries[i] = WaitQueueRegistryEntry {
                    id: queue,
                    queue: WaitQueueState { next_ticket: ticket + 1, ..entry.queue },
                };
                WaitStep::Sleep { ticket }
            },
            None => WaitStep::Return,
        }
    }

    /// Whether a waiter goes on.
    pub fn wait_over(&self, queue: usize, ticket: usize) -> (r: bool)
        ensures
            r == self@.released(queue, ticket),
    {
        match self.lookup_wait_queue(queue) {
            Some(q) => q.woken_ticket > ticket,
            None => true,
        }
    }

    /// Starts a wait for a condition.
    pub fn wait_queue_wait_until(&self, queue: usize) -> (step: UntilStep)
        ensures
            step == (if self@.queue(queue) is Some {
                UntilStep::CheckOuter
            } else {
                UntilStep::Done
            }),
    {
        match self.find(queue) {
            Some(_) => UntilStep::CheckOuter,
            None => UntilStep::Done,
        }
    }

    /// Goes on with a wait for a condition: `held` is what the test of the condition
    /// gave. It does not matter after a sleep.
    pub fn wait_until_resume(&mut self, queue: usize, step: UntilStep, held: bool) -> (next: UntilStep)
        requires
            old(self)@.wf(),
            old(self)@.has_tickets(queue),
        ensures
            (next, final(self)@) == until_next(step, old(self)@, queue, held),
            final(self)@.wf(),
    {
        let gone: bool = self.find(queue).is_none();
        match step {
            UntilStep::CheckOuter => if held || gone {
                UntilStep::Done
            } else {
                UntilStep::CheckLocked
            },
            UntilStep::CheckLocked => if held {
                UntilStep::Done
            } else {
                match self.wait_queue_wait(queue) {
                    WaitStep::Sleep { ticket } => UntilStep::CheckAsleep { ticket },
                    WaitStep::Return => UntilStep::Done,
                }
            },
            UntilStep::CheckAsleep { ticket } => if gone {
                UntilStep::Done
            } else if held || self.wait_over(queue, ticket) {
                UntilStep::CheckAfter
            } else {
                UntilStep::Sleep { ticket }
            },
            UntilStep::Sleep { ticket } => if gone {
                UntilStep::Done
            } else {
                UntilStep::CheckAsleep { ticket }
            },
            UntilStep::CheckAfter => if gone {
                UntilStep::Done
            } else {
                UntilStep::CheckOuter
            },
            UntilStep::Done => UntilStep::Done,
        }
    }

    /// Releases the waiter that waits longest; says whether there was one.
    pub fn wait_queue_wake_one(&mut self, queue: usize) -> (notify: bool)
        requires
            old(self)@.wf(),
        ensures
            final(self)@ == old(self)@.woken_one(queue),
            final(self)@.wf(),
            notify == (old(self)@.queue(queue) matches Some(q) && q.woken_ticket < q.next_ticket),
    {
        match self.find(queue) {
            Some(i) => {
                let entry = self.entries[i];
                if entry.queue.woken_ticket >= entry.queue.next_ticket {
                    return false;
                }
                self.entries[i] = WaitQueueRegistryEntry {
                    id: queue,
                    queue: WaitQueueState { woken_ticket: entry.queue.woken_ticket + 1, ..entry.queue },
                };
                true
            },
            None => false,
        }
    }

    /// Releases all waiters; says whether there is such a queue.
    pub fn wait_queue_wake_all(&mut self, queue: usize) -> (notify: bool)
        requires
            old(self)@.wf(),
        ensures
            final(self)@ == old(self)@.woken_all(queue),
            final(self)@.wf(),
            notify == (old(self)@.queue(queue) is Some),
    {
        match self.find(queue) {
            Some(i) => {
                let entry = self.entries[i];
                self.entries[i] = WaitQueueRegistryEntry {
                    id: queue,
                    queue: WaitQueueState { woken_ticket: entry.queue.next_ticket, ..entry.queue },
                };
                true
            },
            None => false,
        }
    }
}

/// Makes a queue for a caller: its id, or zero.
pub fn axvisor_linux_sync_create_wait_queue(sync: &mut LinuxSyncAdapter, room: bool) -> (id: usize)
    ensures
        final(sync)@ == old(sync)@.created(room),
        id == (if room {
            old(sync)@.fresh_id()
        } else {
            0
        }),
        old(sync)@.wf() ==> final(sync)@.wf(),
{
    match sync.create_wait_queue(room) {
        Ok(id) => id,
        Err(_) => 0,
    }
}

/// Destroys a queue for a caller; says whether waiters are to be woken.
pub fn axvisor_linux_sync_destroy_wait_queue(sync: &mut LinuxSyncAdapter, queue: usize) -> (notify: bool)
    ensures
        final(sync)@ == old(sync)@.destroyed(queue),
        notify == (old(sync)@.queue(queue) is Some),
        old(sync)@.wf() ==> final(sync)@.wf(),
{
    sync.destroy_wait_queue(queue)
}

/// Starts a wait for a caller.
pub fn axvisor_linux_sync_wait_queue_wait(sync: &mut LinuxSyncAdapter, queue: usize) -> (step: WaitStep)
    requires
        old(sync)@.wf(),
        old(sync)@.has_tickets(queue),
    ensures
        final(sync)@ == old(sync)@.ticketed(queue),
        final(sync)@.wf(),
        step == (match old(sync)@.queue(queue) {
            Some(q) => WaitStep::Sleep { ticket: q.next_ticket },
            None => WaitStep::Return,
        }),
{
    sync.wait_queue_wait(queue)
}

/// Starts a wait for a condition for a caller.
pub fn axvisor_linux_sync_wait_queue_wait_until(sync: &LinuxSyncAdapter, queue: usize) -> (step: UntilStep)
    ensures
        step == (if sync@.queue(queue) is Some {
            UntilStep::CheckOuter
        } else {
            UntilStep::Done
        }),
{
    sync.wait_queue_wait_until(queue)
}

/// Releases one waiter for a caller; says whether there was one.
pub fn axvisor_linux_sync_wait_queue_wake_one(sync: &mut LinuxSyncAdapter, queue: usize) -> (notify: bool)
    requires
        old(sync)@.wf(),
    ensures
        final(sync)@ == old(sync)@.woken_one(queue),
        final(sync)@.wf(),
        notify == (old(sync)@.queue(queue) matches Some(q) && q.woken_ticket < q.next_ticket),
{
    sync.wait_queue_wake_one(queue)
}

/// Releases all waiters for a caller; says whether there is such a queue.
pub fn axvisor_linux_sync_wait_queue_wake_all(sync: &mut LinuxSyncAdapter, queue: usize) -> (notify: bool)
    requires
        old(sync)@.wf(),
    ensures
        final(sync)@ == old(sync)@.woken_all(queue),
        final(sync)@.wf(),
        notify == (old(sync)@.queue(queue) is Some),
{
    sync.wait_queue_wake_all(queue)
}

/// Another state for a queue is what a lookup of it gives, and no other queue
/// changes.
pub proof fn queue_update_is_local(v: WaitQueuesView, id: usize, queue: WaitQueueState, other: usize)
    requires
        v.queue(id) is Some,
    ensures
        v.with_queue(id, queue).queue(other) == (if other == id {
            Some(queue)
        } else {
            v.queue(other)
        }),
{
    let i = v.index(id).unwrap();
    assert(is_first(v.entries, id, i));
    let w = v.with_queue(id, queue);
    if other == id {
        assert(is_first(w.entries, id, i));
        lemma_index(w, id, i);
    } else {
        match v.index(other) {
            Some(k) => {
                assert(is_first(v.entries, other, k));
                assert(is_first(w.entries, other, k));
                lemma_index(w, other, k);
            },
            None => {
                assert forall|k: int| !is_first(w.entries, other, k) by {
                    if is_first(w.entries, other, k) {
                        assert forall|j: int| 0 <= j < k implies (#[trigger] v.entries[j]).id != other by {
                            assert(w.entries[j].id != other);
                        }
                        assert(is_first(v.entries, other, k));
                    }
                }
            },
        }
    }
}

/// Waking one waiter releases exactly the one that waits longest: whoever held an
/// earlier ticket was released before, and later tickets stay as they were.
pub proof fn one_wake_releases_the_oldest(v: WaitQueuesView, id: usize, ticket: usize)
    requires
        v.wf(),
        v.queue(id) matches Some(q) && q.woken_ticket < q.next_ticket,
    ensures
        v.woken_one(id).released(id, ticket) == (v.released(id, ticket) || ticket == v.queue(id)->0.woken_ticket),
{
    let q = v.queue(id)->0;
    queue_update_is_local(v, id, WaitQueueState { woken_ticket: (q.woken_ticket + 1) as usize, ..q }, id);
}

/// Waking all waiters releases every ticket that was handed out.
pub proof fn full_wake_releases_everyone(v: WaitQueuesView, id: usize, ticket: usize)
    requires
        v.wf(),
        v.queue(id) matches Some(q) ==> ticket < q.next_ticket,
    ensures
        v.woken_all(id).released(id, ticket),
{
    if let Some(q) = v.queue(id) {
        queue_update_is_local(v, id, WaitQueueState { woken_ticket: q.next_ticket, ..q }, id);
    }
}

/// A new waiter is not released by earlier wakes.
pub proof fn fresh_ticket_waits(v: WaitQueuesView, id: usize)
    requires
        v.wf(),
        v.queue(id) matches Some(q) && q.next_ticket < usize::MAX,
    ensures
        !v.ticketed(id).released(id, v.queue(id)->0.next_ticket),
{
    let q = v.queue(id)->0;
    let i = v.index(id).unwrap();
    assert(is_first(v.entries, id, i));
    queue_update_is_local(v, id, WaitQueueState { next_ticket: (q.next_ticket + 1) as usize, ..q }, id);
}

/// Destroying a queue releases all its waiters, as long as no other queue has its
/// id.
pub proof fn destroyed_queue_releases_everyone(v: WaitQueuesView, id: usize, ticket: usize)
    requires
        forall|i: int, j: int|
            0 <= i < j < v.entries.len() && (#[trigger] v.entries[i]).id == id ==> (#[trigger] v.entries[j]).id
                != id,
    ensures
        v.destroyed(id).released(id, ticket),
{
    let w = v.destroyed(id);
    if let Some(i) = v.index(id) {
        assert(is_first(v.entries, id, i));
        assert forall|k: int| !is_first(w.entries, id, k) by {
            if is_first(w.entries, id, k) {
                if k < i {
                    assert(v.entries[k].id == id);
                } else {
                    assert(w.entries[k] == v.entries[k + 1]);
                    assert(v.entries[i].id == id);
                }
            }
        }
    }
}

/// A queue that was made is found, with no waiters, as long as no other queue has
/// its id.
pub proof fn created_queue_is_found(v: WaitQueuesView)
    requires
        forall|i: int| 0 <= i < v.entries.len() ==> (#[trigger] v.entries[i]).id != v.fresh_id(),
    ensures
        v.created(true).queue(v.fresh_id()) == Some(WaitQueueState { next_ticket: 0, woken_ticket: 0 }),
        v.fresh_id() != 0,
{
    let w = v.created(true);
    let i = v.entries.len() as int;
    assert(is_first(w.entries, v.fresh_id(), i));
    lemma_index(w, v.fresh_id(), i);
}

/// A wait for a condition ends only where the condition was found to hold, or where
/// the queue is gone.
pub proof fn conditional_wait_ends_on_its_condition(step: UntilStep, v: WaitQueuesView, id: usize, held: bool)
    requires
        step !is Done,
        until_next(step, v, id, held).0 is Done,
    ensures
        v.queue(id) is None || held && (step is CheckOuter || step is CheckLocked),
{
}

/// A condition that holds at the first test ends the wait at once, and a wait whose
/// queue is gone ends at the next step.
pub proof fn conditional_wait_can_end(step: UntilStep, v: WaitQueuesView, id: usize, held: bool)
    ensures
        held && (step is CheckOuter || step is CheckLocked) ==> until_next(step, v, id, held).0 is Done,
        v.queue(id) is None ==> until_next(step, v, id, held).0 is Done,
{
}

} // verus!
