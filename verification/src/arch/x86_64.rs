//! The host timer on x86-64: one timer for each CPU.
use vstd::prelude::*;

use crate::arch::timer_base::{
    bump, bumped, nanos_until, relative_nanos, BaseView, BridgeCall, OneshotAction, TimerBase, TimerCallbackState,
    NO_DEADLINE_NANOS,
};

verus! {

/// The timer of a CPU.
#[derive(Clone, Copy, Debug, PartialEq, Eq, Structural)]
pub struct X86TimerSlot {
    pub cpu_id: usize,
    pub callback: TimerCallbackState,
    /// The timer runs.
    pub armed: bool,
}

/// The host timer on x86-64.
pub struct X86Arch {
    pub base: TimerBase,
    pub slots: Vec<X86TimerSlot>,
}

/// The contents of the host timer on x86-64.
#[verifier::ext_equal]
pub struct X86View {
    pub base: BaseView,
    pub slots: Seq<X86TimerSlot>,
}

impl View for X86Arch {
    type V = X86View;

    open spec fn view(&self) -> X86View {
        X86View { base: self.base@, slots: self.slots@ }
    }
}

/// `i` is where the timer of a CPU stands.
pub open spec fn is_slot(slots: Seq<X86TimerSlot>, cpu_id: usize, i: int) -> bool {
    0 <= i < slots.len() && slots[i].cpu_id == cpu_id
}

/// Where the timer of a CPU stands.
pub open spec fn slot_index(slots: Seq<X86TimerSlot>, cpu_id: usize) -> Option<int> {
    if exists|i: int| is_slot(slots, cpu_id, i) {
        Some(choose|i: int| is_slot(slots, cpu_id, i))
    } else {
        None
    }
}

impl X86View {
    /// A CPU has one timer at most; a timer knows its CPU, and runs exactly if it has a
    /// deadline.
    pub open spec fn wf(self) -> bool {
        &&& forall|i: int, j: int|
            0 <= i < j < self.slots.len() ==> (#[trigger] self.slots[i]).cpu_id != (#[trigger] self.slots[j]).cpu_id
        &&& forall|i: int|
            0 <= i < self.slots.len() ==> (#[trigger] self.slots[i]).callback.cpu_id == self.slots[i].cpu_id
                && self.slots[i].armed == (self.slots[i].callback.deadline_nanos != NO_DEADLINE_NANOS)
    }

    /// The timer of a CPU.
    pub open spec fn slot(self, cpu_id: usize) -> Option<X86TimerSlot> {
        match slot_index(self.slots, cpu_id) {
            Some(i) => Some(self.slots[i]),
            None => None,
        }
    }

    /// With a timer for a CPU, where it had none and memory was found.
    pub open spec fn with_slot(self, cpu_id: usize, room: bool) -> X86View {
        if self.slot(cpu_id) is None && room {
            X86View {
                slots: self.slots.push(
                    X86TimerSlot {
                        cpu_id,
                        callback: TimerCallbackState {
                            cpu_id: cpu_id as u64,
                            deadline_nanos: NO_DEADLINE_NANOS,
                            generation: 0,
                        },
                        armed: false,
                    },
                ),
                ..self
            }
        } else {
            self
        }
    }

    /// After the timer of a CPU was set to a deadline, or off.
    pub open spec fn armed(self, cpu_id: usize, deadline_nanos: u64) -> X86View {
        match slot_index(self.slots, cpu_id) {
            Some(i) => X86View {
                base: if self.slots[i].armed {
                    self.base.cancelled(cpu_id)
                } else {
                    self.base
                },
                slots: self.slots.update(
                    i,
                    X86TimerSlot {
                        cpu_id,
                        callback: TimerCallbackState {
                            cpu_id: cpu_id as u64,
                            deadline_nanos,
                            generation: bumped(self.slots[i].callback.generation),
                        },
                        armed: deadline_nanos != NO_DEADLINE_NANOS,
                    },
                ),
            },
            None => self,
        }
    }

    /// After a CPU asked for a deadline. The flags say whether memory was found for the
    /// event and for a timer.
    pub open spec fn oneshot(self, cpu_id: usize, deadline_nanos: u64, event_room: bool, slot_room: bool) -> X86View {
        X86View { base: self.base.programmed(cpu_id, deadline_nanos, event_room), ..self }.with_slot(
            cpu_id,
            slot_room,
        ).armed(cpu_id, deadline_nanos)
    }

    /// What the host does with the timer of a CPU that asked for a deadline.
    pub open spec fn oneshot_action(self, cpu_id: usize, deadline_nanos: u64, slot_room: bool, now: i64) -> OneshotAction {
        OneshotAction {
            cancel: self.slot(cpu_id) matches Some(slot) && slot.armed,
            start: if deadline_nanos != NO_DEADLINE_NANOS && (self.slot(cpu_id) is Some || slot_room) {
                Some(nanos_until(deadline_nanos, now))
            } else {
                None
            },
        }
    }

    /// After the timer of a CPU expired.
    pub open spec fn expired(self, cpu_id: usize) -> X86View {
        match slot_index(self.slots, cpu_id) {
            Some(i) => X86View {
                base: self.base.fired(cpu_id, self.slots[i].callback.deadline_nanos),
                slots: self.slots.update(
                    i,
                    X86TimerSlot {
                        callback: TimerCallbackState {
                            deadline_nanos: NO_DEADLINE_NANOS,
                            ..self.slots[i].callback
                        },
                        armed: false,
                        ..self.slots[i]
                    },
                ),
            },
            None => self,
        }
    }
}

proof fn lemma_slot(v: X86View, cpu_id: usize, i: int)
    requires
        v.wf(),
        is_slot(v.slots, cpu_id, i),
    ensures
        slot_index(v.slots, cpu_id) == Some(i),
{
    let k = choose|k: int| is_slot(v.slots, cpu_id, k);
    assert(is_slot(v.slots, cpu_id, k));
    if k < i {
        assert(v.slots[k].cpu_id != v.slots[i].cpu_id);
    } else if i < k {
        assert(v.slots[i].cpu_id != v.slots[k].cpu_id);
    }
}

impl X86Arch {
    /// No timers yet.
    pub fn new() -> (a: X86Arch)
        ensures
            a@ == (X86View { base: BaseView::initial(), slots: seq![] }),
            a@.wf(),
    {
        X86Arch { base: TimerBase::new(), slots: Vec::new() }
    }

    fn find_slot(&self, cpu_id: usize) -> (r: Option<usize>)
        requires
            self@.wf(),
        ensures
            r matches Some(i) ==> is_slot(self@.slots, cpu_id, i as int) && slot_index(self@.slots, cpu_id) == Some(
                i as int,
            ),
            r is None ==> slot_index(self@.slots, cpu_id) is None,
    {
        let mut i: usize = 0;
        while i < self.slots.len()
            invariant
                self@.wf(),
                i <= self.slots@.len(),
                forall|j: int| 0 <= j < i ==> (#[trigger] self.slots@[j]).cpu_id != cpu_id,
            decreases self.slots@.len() - i,
        {
            if self.slots[i].cpu_id == cpu_id {
                proof {
                    lemma_slot(self@, cpu_id, i as int);
                }
                return Some(i);
            }
            i += 1;
        }
        None
    }

    /// Sets the timer of a CPU to a deadline, or turns it off, at time `now_nanos`. The
    /// flags say whether memory was found for the event and for a timer.
    pub fn set_oneshot_timer(
        &mut self,
        cpu_id: usize,
        deadline_nanos: u64,
        now_nanos: i64,
        event_room: bool,
        slot_room: bool,
    ) -> (action: OneshotAction)
        requires
            old(self)@.wf(),
            now_nanos >= 0,
        ensures
            final(self)@ == old(self)@.oneshot(cpu_id, deadline_nanos, event_room, slot_room),
            action == old(self)@.oneshot_action(cpu_id, deadline_nanos, slot_room, now_nanos),
            final(self)@.wf(),
    {
        self.base.program(cpu_id, deadline_nanos, event_room);
        let ghost programmed = self@;
        if self.find_slot(cpu_id).is_none() && slot_room {
            self.slots.push(
                X86TimerSlot {
                    cpu_id,
                    callback: TimerCallbackState {
                        cpu_id: cpu_id as u64,
                        deadline_nanos: NO_DEADLINE_NANOS,
                        generation: 0,
                    },
                    armed: false,
                },
            );
            proof {
                assert forall|i: int| 0 <= i < programmed.slots.len() implies (
                #[trigger] programmed.slots[i]).cpu_id != cpu_id by {
                    if programmed.slots[i].cpu_id == cpu_id {
                        assert(is_slot(programmed.slots, cpu_id, i));
                    }
                }
            }
        }
        let ghost placed = self@;
        assert(placed =~= programmed.with_slot(cpu_id, slot_room));
        assert(placed.wf());
        match self.find_slot(cpu_id) {
            None => {
                proof {
                    if programmed.slot(cpu_id) is None && slot_room {
                        assert(is_slot(placed.slots, cpu_id, programmed.slots.len() as int));
                    }
                }
                OneshotAction { cancel: false, start: None }
            },
            Some(i) => {
                let slot = self.slots[i];
                proof {
                    if programmed.slot(cpu_id) is None {
                        lemma_slot(placed, cpu_id, programmed.slots.len() as int);
                    } else {
                        assert(placed.slots == programmed.slots);
                    }
                }
                if slot.armed {
                    self.base.cancel(cpu_id);
                }
                self.slots[i] = X86TimerSlot {
                    cpu_id,
                    callback: TimerCallbackState {
                        cpu_id: cpu_id as u64,
                        deadline_nanos,
                        generation: bump(slot.callback.generation),
                    },
                    armed: deadline_nanos != NO_DEADLINE_NANOS,
                };
                assert(self@ =~= placed.armed(cpu_id, deadline_nanos));
                let start: Option<i64> = if deadline_nanos != NO_DEADLINE_NANOS {
                    Some(relative_nanos(deadline_nanos, now_nanos))
                } else {
                    None
                };
                OneshotAction { cancel: slot.armed, start }
            },
        }
    }

    /// The timer of a CPU expired; says who is told.
    pub fn run(&mut self, cpu_id: usize) -> (call: Option<BridgeCall>)
        requires
            old(self)@.wf(),
            old(self)@.slot(cpu_id) is Some,
        ensures
            final(self)@ == old(self)@.expired(cpu_id),
            final(self)@.wf(),
            call == old(self)@.base.bridge_call(cpu_id, old(self)@.slot(cpu_id)->0.callback.deadline_nanos),
    {
        match self.find_slot(cpu_id) {
            None => None,
            Some(i) => {
                let slot = self.slots[i];
                let call = self.base.fire(cpu_id, slot.callback.deadline_nanos);
                self.slots[i] = X86TimerSlot {
                    callback: TimerCallbackState { deadline_nanos: NO_DEADLINE_NANOS, ..slot.callback },
                    armed: false,
                    ..slot
                };
                assert(self@ =~= old(self)@.expired(cpu_id));
                call
            },
        }
    }
}

/// A CPU that asks for a deadline does not touch the timer of another CPU.
pub proof fn oneshot_is_local_to_its_cpu(
    v: X86View,
    cpu_id: usize,
    deadline_nanos: u64,
    event_room: bool,
    slot_room: bool,
    other: usize,
)
    requires
        v.wf(),
        other != cpu_id,
    ensures
        v.oneshot(cpu_id, deadline_nanos, event_room, slot_room).slot(other) == v.slot(other),
{
    let p = X86View { base: v.base.programmed(cpu_id, deadline_nanos, event_room), ..v };
    let w = p.with_slot(cpu_id, slot_room);
    let z = w.armed(cpu_id, deadline_nanos);
    assert(z == v.oneshot(cpu_id, deadline_nanos, event_room, slot_room));
    assert(w.wf()) by {
        assert forall|i: int| p.slot(cpu_id) is None && 0 <= i < p.slots.len() implies (
        #[trigger] p.slots[i]).cpu_id != cpu_id by {
            if p.slots[i].cpu_id == cpu_id {
                assert(is_slot(p.slots, cpu_id, i));
            }
        }
    }
    if let Some(c) = slot_index(w.slots, cpu_id) {
        assert(is_slot(w.slots, cpu_id, c));
        assert(z.wf());
    }
    match slot_index(v.slots, other) {
        Some(i) => {
            assert(is_slot(v.slots, other, i));
            assert(w.slots[i] == v.slots[i]);
            assert(is_slot(w.slots, other, i));
            if let Some(c) = slot_index(w.slots, cpu_id) {
                assert(is_slot(w.slots, cpu_id, c));
                assert(c != i);
            }
            assert(is_slot(z.slots, other, i));
            lemma_slot(z, other, i);
        },
        None => {
            assert forall|i: int| !is_slot(z.slots, other, i) by {
                if is_slot(z.slots, other, i) {
                    if let Some(c) = slot_index(w.slots, cpu_id) {
                        assert(is_slot(w.slots, cpu_id, c));
                        assert(c != i);
                    }
                    assert(w.slots[i].cpu_id == other);
                    assert(i < v.slots.len());
                    assert(is_slot(v.slots, other, i));
                }
            }
        },
    }
}

} // verus!
