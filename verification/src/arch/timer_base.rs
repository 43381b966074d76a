//! What the one-shot timers of all architectures share: counters, the events that
//! are due, and who is told of them.
use vstd::prelude::*;

verus! {

/// No deadline: the timer is off.
pub const NO_DEADLINE_NANOS: u64 = 0xffff_ffff_ffff_ffff;

/// No CPU yet.
pub const NO_CPU: u64 = 0xffff_ffff_ffff_ffff;

/// A deadline that a CPU asked for.
#[derive(Clone, Copy, Debug, PartialEq, Eq, Structural)]
pub struct TimerEvent {
    pub cpu_id: usize,
    pub deadline_nanos: u64,
}

/// The state of a timer's callback.
#[derive(Clone, Copy, Debug, PartialEq, Eq, Structural)]
pub struct TimerCallbackState {
    pub cpu_id: u64,
    pub deadline_nanos: u64,
    pub generation: u64,
}

/// What the host does with its timer: first cancel, then start.
#[derive(Clone, Copy, Debug, PartialEq, Eq)]
pub struct OneshotAction {
    /// Cancel the timer that runs.
    pub cancel: bool,
    /// Start the timer, to expire after so many nanoseconds.
    pub start: Option<i64>,
}

/// Tell a handler that a timer expired.
#[derive(Clone, Copy, Debug, PartialEq, Eq, Structural)]
pub struct BridgeCall {
    pub handler: u64,
    pub cpu_id: usize,
    pub deadline_nanos: u64,
}

/// A counter that wraps, after one more.
pub open spec fn bumped(n: u64) -> u64 {
    if n == u64::MAX {
        0
    } else {
        (n + 1) as u64
    }
}

/// Counts one more.
pub fn bump(n: u64) -> (r: u64)
    ensures
        r == bumped(n),
{
    if n == u64::MAX {
        0
    } else {
        n + 1
    }
}

/// The events that stay when those of a CPU go: all of them, or those with one
/// deadline.
pub open spec fn events_left(events: Seq<TimerEvent>, cpu_id: usize, deadline: Option<u64>) -> Seq<TimerEvent> {
    events.filter(
        |e: TimerEvent|
            !(e.cpu_id == cpu_id && (match deadline {
                Some(d) => e.deadline_nanos == d,
                None => true,
            })),
    )
}

fn drop_events(events: &mut Vec<TimerEvent>, cpu_id: usize, deadline: Option<u64>)
    ensures
        final(events)@ == events_left(old(events)@, cpu_id, deadline),
{
    let ghost all = events@;
    let ghost keep = |e: TimerEvent|
        !(e.cpu_id == cpu_id && (match deadline {
            Some(d) => e.deadline_nanos == d,
            None => true,
        }));
    let mut kept: Vec<TimerEvent> = Vec::new();
    let mut i: usize = 0;
    proof {
        reveal(Seq::filter);
        assert(all.take(0).filter(keep) =~= seq![]);
    }
    while i < events.len()
        invariant
            i <= events@.len(),
            events@ == all,
            keep == (|e: TimerEvent|
                !(e.cpu_id == cpu_id && (match deadline {
                    Some(d) => e.deadline_nanos == d,
                    None => true,
                }))),
            kept@ == all.take(i as int).filter(keep),
        decreases events@.len() - i,
    {
        let event = events[i];
        proof {
            reveal(Seq::filter);
            assert(all.take(i + 1).drop_last() =~= all.take(i as int));
            assert(all.take(i + 1).last() == event);
        }
        let gone: bool = event.cpu_id == cpu_id && (match deadline {
            Some(d) => event.deadline_nanos == d,
            None => true,
        });
        if !gone {
            kept.push(event);
        }
        i += 1;
    }
    *events = kept;
    assert(all.take(all.len() as int) =~= all);
}

/// How long until a deadline, in nanoseconds: nothing if it is past. Deadlines
/// beyond the range of signed numbers count as its end.
pub open spec fn nanos_until(deadline_nanos: u64, now_nanos: i64) -> i64 {
    let end = if deadline_nanos <= i64::MAX {
        deadline_nanos as int
    } else {
        i64::MAX as int
    };
    if end > now_nanos {
        (end - now_nanos) as i64
    } else {
        0
    }
}

/// How long until a deadline.
pub fn relative_nanos(deadline_nanos: u64, now_nanos: i64) -> (r: i64)
    requires
        now_nanos >= 0,
    ensures
        r == nanos_until(deadline_nanos, now_nanos),
{
    let end: i64 = if deadline_nanos <= 0x7fff_ffff_ffff_ffff {
        deadline_nanos as i64
    } else {
        i64::MAX
    };
    if end > now_nanos {
        end - now_nanos
    } else {
        0
    }
}

/// What the timers of all architectures share.
pub struct TimerBase {
    /// Who is told of a timer that expired.
    pub bridge: Option<u64>,
    pub events: Vec<TimerEvent>,
    pub percpu_ready: bool,
    pub deadline_nanos: u64,
    pub fire_count: u64,
    pub program_count: u64,
    pub cancel_count: u64,
    pub last_percpu_cpu_id: u64,
    pub last_callback_cpu_id: u64,
    pub last_program_cpu_id: u64,
    pub last_cancel_cpu_id: u64,
}

/// The contents of the shared part.
#[verifier::ext_equal]
pub struct BaseView {
    pub bridge: Option<u64>,
    pub events: Seq<TimerEvent>,
    pub percpu_ready: bool,
    pub deadline_nanos: u64,
    pub fire_count: u64,
    pub program_count: u64,
    pub cancel_count: u64,
    pub last_percpu_cpu_id: u64,
    pub last_callback_cpu_id: u64,
    pub last_program_cpu_id: u64,
    pub last_cancel_cpu_id: u64,
}

impl View for TimerBase {
    type V = BaseView;

    open spec fn view(&self) -> BaseView {
        BaseView {
            bridge: self.bridge,
            events: self.events@,
            percpu_ready: self.percpu_ready,
            deadline_nanos: self.deadline_nanos,
            fire_count: self.fire_count,
            program_count: self.program_count,
            cancel_count: self.cancel_count,
            last_percpu_cpu_id: self.last_percpu_cpu_id,
            last_callback_cpu_id: self.last_callback_cpu_id,
            last_program_cpu_id: self.last_program_cpu_id,
            last_cancel_cpu_id: self.last_cancel_cpu_id,
        }
    }
}

impl BaseView {
    /// Nothing happened yet.
    pub open spec fn initial() -> BaseView {
        BaseView {
            bridge: None,
            events: seq![],
            percpu_ready: false,
            deadline_nanos: NO_DEADLINE_NANOS,
            fire_count: 0,
            program_count: 0,
            cancel_count: 0,
            last_percpu_cpu_id: NO_CPU,
            last_callback_cpu_id: NO_CPU,
            last_program_cpu_id: NO_CPU,
            last_cancel_cpu_id: NO_CPU,
        }
    }

    /// After a CPU asked for a deadline: its earlier events are gone, and there is one
    /// for the deadline where memory was found.
    pub open spec fn programmed(self, cpu_id: usize, deadline_nanos: u64, room: bool) -> BaseView {
        let rest = events_left(self.events, cpu_id, None);
        BaseView {
            events: if deadline_nanos != NO_DEADLINE_NANOS && room {
                rest.push(TimerEvent { cpu_id, deadline_nanos })
            } else {
                rest
            },
            deadline_nanos,
            program_count: bumped(self.program_count),
            last_program_cpu_id: cpu_id as u64,
            ..self
        }
    }

    /// After the timer was cancelled for a CPU.
    pub open spec fn cancelled(self, cpu_id: usize) -> BaseView {
        BaseView { cancel_count: bumped(self.cancel_count), last_cancel_cpu_id: cpu_id as u64, ..self }
    }

    /// After a timer expired.
    pub open spec fn fired(self, cpu_id: usize, deadline_nanos: u64) -> BaseView {
        BaseView {
            events: events_left(self.events, cpu_id, Some(deadline_nanos)),
            deadline_nanos: NO_DEADLINE_NANOS,
            fire_count: bumped(self.fire_count),
            last_callback_cpu_id: cpu_id as u64,
            ..self
        }
    }

    /// Who is told of a timer that expired.
    pub open spec fn bridge_call(self, cpu_id: usize, deadline_nanos: u64) -> Option<BridgeCall> {
        match self.bridge {
            Some(handler) => Some(BridgeCall { handler, cpu_id, deadline_nanos }),
            None => None,
        }
    }
}

impl TimerBase {
    /// Nothing happened yet.
    pub fn new() -> (b: TimerBase)
        ensures
            b@ == BaseView::initial(),
    {
        TimerBase {
            bridge: None,
            events: Vec::new(),
            percpu_ready: false,
            deadline_nanos: NO_DEADLINE_NANOS,
            fire_count: 0,
            program_count: 0,
            cancel_count: 0,
            last_percpu_cpu_id: NO_CPU,
            last_callback_cpu_id: NO_CPU,
            last_program_cpu_id: NO_CPU,
            last_cancel_cpu_id: NO_CPU,
        }
    }

    /// Records that a CPU is ready.
    pub fn init_percpu(&mut self, cpu_id: usize)
        ensures
            final(self)@ == (BaseView {
                percpu_ready: true,
                last_percpu_cpu_id: cpu_id as u64,
                ..old(self)@
            }),
    {
        self.percpu_ready = true;
        self.last_percpu_cpu_id = cpu_id as u64;
    }

    /// Records that a CPU asked for a deadline; `room` says that memory for the event
    /// was found.
    pub fn program(&mut self, cpu_id: usize, deadline_nanos: u64, room: bool)
        ensures
            final(self)@ == old(self)@.programmed(cpu_id, deadline_nanos, room),
    {
        self.program_count = bump(self.program_count);
        self.last_program_cpu_id = cpu_id as u64;
        self.deadline_nanos = deadline_nanos;
        drop_events(&mut self.events, cpu_id, None);
        if deadline_nanos != NO_DEADLINE_NANOS && room {
            self.events.push(TimerEvent { cpu_id, deadline_nanos });
        }
        assert(self@ =~= old(self)@.programmed(cpu_id, deadline_nanos, room));
    }

    /// Records that the timer was cancelled for a CPU.
    pub fn cancel(&mut self, cpu_id: usize)
        ensures
            final(self)@ == old(self)@.cancelled(cpu_id),
    {
        self.cancel_count = bump(self.cancel_count);
        self.last_cancel_cpu_id = cpu_id as u64;
    }

    /// Records that a timer expired, and says who is told.
    pub fn fire(&mut self, cpu_id: usize, deadline_nanos: u64) -> (call: Option<BridgeCall>)
        ensures
            final(self)@ == old(self)@.fired(cpu_id, deadline_nanos),
            call == old(self)@.bridge_call(cpu_id, deadline_nanos),
    {
        self.deadline_nanos = NO_DEADLINE_NANOS;
        self.fire_count = bump(self.fire_count);
        self.last_callback_cpu_id = cpu_id as u64;
        drop_events(&mut self.events, cpu_id, Some(deadline_nanos));
        match self.bridge {
            Some(handler) => Some(BridgeCall { handler, cpu_id, deadline_nanos }),
            None => None,
        }
    }
}

proof fn lemma_events_left(events: Seq<TimerEvent>, cpu_id: usize, deadline: Option<u64>, e: TimerEvent)
    ensures
        events_left(events, cpu_id, deadline).contains(e) <==> events.contains(e) && !(e.cpu_id == cpu_id && (
        deadline matches Some(d) ==> e.deadline_nanos == d)),
    decreases events.len(),
{
    reveal(Seq::filter);
    if events.len() > 0 {
        let rest = events.drop_last();
        let last = events.last();
        lemma_events_left(rest, cpu_id, deadline, e);
        let kept = events_left(rest, cpu_id, deadline);
        let left = events_left(events, cpu_id, deadline);
        assert(events =~= rest.push(last));
        assert(events.contains(e) <==> rest.contains(e) || e == last) by {
            lemma_push_contains(rest, last, e);
        }
        if left != kept {
            assert(left == kept.push(last));
            lemma_push_contains(kept, last, e);
        }
    }
}

proof fn lemma_push_contains(events: Seq<TimerEvent>, new: TimerEvent, e: TimerEvent)
    ensures
        events.push(new).contains(e) <==> events.contains(e) || e == new,
{
    let more = events.push(new);
    assert(more[events.len() as int] == new);
    if events.contains(e) {
        let i = choose|i: int| 0 <= i < events.len() && events[i] == e;
        assert(more[i] == e);
    }
    if more.contains(e) {
        let i = choose|i: int| 0 <= i < more.len() && more[i] == e;
        if i < events.len() {
            assert(events[i] == e);
        }
    }
}

/// With memory for the event, a CPU that asks for a deadline has that event and no
/// other; the events of other CPUs stay.
pub proof fn programmed_cpu_has_one_event(base: BaseView, cpu_id: usize, deadline_nanos: u64, e: TimerEvent)
    ensures
        base.programmed(cpu_id, deadline_nanos, true).events.contains(e) <==> (if e.cpu_id == cpu_id {
            deadline_nanos != NO_DEADLINE_NANOS && e.deadline_nanos == deadline_nanos
        } else {
            base.events.contains(e)
        }),
{
    let rest = events_left(base.events, cpu_id, None);
    lemma_events_left(base.events, cpu_id, None, e);
    let after = base.programmed(cpu_id, deadline_nanos, true).events;
    if deadline_nanos != NO_DEADLINE_NANOS {
        let new = TimerEvent { cpu_id, deadline_nanos };
        assert(after == rest.push(new));
        lemma_push_contains(rest, new, e);
    }
}

/// A timer that expired leaves no event of its own, and all others.
pub proof fn expired_event_is_gone(base: BaseView, cpu_id: usize, deadline_nanos: u64, e: TimerEvent)
    ensures
        base.fired(cpu_id, deadline_nanos).events.contains(e) <==> base.events.contains(e) && e != (TimerEvent {
            cpu_id,
            deadline_nanos,
        }),
{
    lemma_events_left(base.events, cpu_id, Some(deadline_nanos), e);
}

/// A timer is never set to expire before its deadline, nor after it unless the
/// deadline is past; the deadline must be in the range of signed numbers.
pub proof fn timer_expires_at_its_deadline(deadline_nanos: u64, now_nanos: i64)
    requires
        now_nanos >= 0,
        deadline_nanos <= i64::MAX,
    ensures
        nanos_until(deadline_nanos, now_nanos) >= 0,
        now_nanos + nanos_until(deadline_nanos, now_nanos) == (if deadline_nanos > now_nanos {
            deadline_nanos as int
        } else {
            now_nanos as int
        }),
{
}

} // verus!
