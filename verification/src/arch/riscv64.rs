//! The host timer and interrupt vectors on RISC-V: one timer for all CPUs.
use vstd::prelude::*;

use crate::arch::timer_base::{
    bump, bumped, nanos_until, relative_nanos, BaseView, BridgeCall, OneshotAction, TimerBase, TimerCallbackState,
    NO_DEADLINE_NANOS,
};

verus! {

/// How many interrupt vectors there are.
pub const MAX_ARCH_IRQ_VECTORS: usize = 256;

/// The cause of a supervisor external interrupt, without the interrupt bit.
pub const RISCV_S_EXT_CAUSE: usize = 9;

/// The vector of a supervisor external interrupt: the cause with the highest bit
/// set.
pub open spec fn s_ext_vector() -> int {
    (usize::MAX as int + 1) / 2 + RISCV_S_EXT_CAUSE
}

/// A vector stands for a supervisor external interrupt, with the interrupt bit or
/// without.
pub open spec fn is_s_ext(vector: usize) -> bool {
    vector == s_ext_vector() || vector == RISCV_S_EXT_CAUSE
}

/// The vector of a supervisor external interrupt.
pub fn riscv_supervisor_external_vector() -> (v: usize)
    ensures
        v == s_ext_vector(),
{
    usize::MAX / 2 + 1 + RISCV_S_EXT_CAUSE
}

/// Whether a vector stands for a supervisor external interrupt.
pub fn is_supervisor_external_vector(vector: usize) -> (r: bool)
    ensures
        r == is_s_ext(vector),
{
    vector == riscv_supervisor_external_vector() || vector == RISCV_S_EXT_CAUSE
}

/// The host timer and the interrupt vectors on RISC-V.
pub struct RiscvArch {
    pub base: TimerBase,
    pub callback: Option<TimerCallbackState>,
    /// The timer runs.
    pub armed: bool,
    pub vectors: Vec<bool>,
    pub s_ext_enabled: bool,
}

/// The contents of the host timer and the vectors.
#[verifier::ext_equal]
pub struct RiscvView {
    pub base: BaseView,
    pub callback: Option<TimerCallbackState>,
    pub armed: bool,
    pub vectors: Seq<bool>,
    pub s_ext_enabled: bool,
}

impl View for RiscvArch {
    type V = RiscvView;

    open spec fn view(&self) -> RiscvView {
        RiscvView {
            base: self.base@,
            callback: self.callback,
            armed: self.armed,
            vectors: self.vectors@,
            s_ext_enabled: self.s_ext_enabled,
        }
    }
}

impl RiscvView {
    /// There is a flag for each vector, and the timer runs exactly if it has a deadline.
    pub open spec fn wf(self) -> bool {
        &&& self.vectors.len() == MAX_ARCH_IRQ_VECTORS
        &&& self.armed == (self.callback matches Some(c) && c.deadline_nanos != NO_DEADLINE_NANOS)
    }

    /// After the callback was set up, where there was none and memory was found.
    pub open spec fn with_callback(self, cpu_id: usize, room: bool) -> RiscvView {
        if self.callback is None && room {
            RiscvView {
                callback: Some(
                    TimerCallbackState { cpu_id: cpu_id as u64, deadline_nanos: NO_DEADLINE_NANOS, generation: 0 },
                ),
                ..self
            }
        } else {
            self
        }
    }

    /// After a CPU asked for a deadline; `event_room` says that memory for the event was
    /// found.
    pub open spec fn oneshot(self, cpu_id: usize, deadline_nanos: u64, event_room: bool) -> RiscvView {
        let base = self.base.programmed(cpu_id, deadline_nanos, event_room);
        match self.callback {
            Some(c) => RiscvView {
                base: if self.armed {
                    base.cancelled(cpu_id)
                } else {
                    base
                },
                callback: Some(
                    TimerCallbackState {
                        cpu_id: cpu_id as u64,
                        deadline_nanos,
                        generation: bumped(c.generation),
                    },
                ),
                armed: deadline_nanos != NO_DEADLINE_NANOS,
                ..self
            },
            None => RiscvView { base, ..self },
        }
    }

    /// What the host does with the timer when a CPU asked for a deadline.
    pub open spec fn oneshot_action(self, deadline_nanos: u64, now: i64) -> OneshotAction {
        OneshotAction {
            cancel: self.callback is Some && self.armed,
            start: if self.callback is Some && deadline_nanos != NO_DEADLINE_NANOS {
                Some(nanos_until(deadline_nanos, now))
            } else {
                None
            },
        }
    }

    /// After the timer expired.
    pub open spec fn expired(self) -> RiscvView {
        match self.callback {
            Some(c) => RiscvView {
                base: self.base.fired(c.cpu_id as usize, c.deadline_nanos),
                callback: Some(TimerCallbackState { deadline_nanos: NO_DEADLINE_NANOS, ..c }),
                armed: false,
                ..self
            },
            None => self,
        }
    }

    /// A vector is one that the architecture takes.
    pub open spec fn dispatches(self, vector: usize) -> bool {
        is_s_ext(vector) || vector < MAX_ARCH_IRQ_VECTORS && self.vectors[vector as int]
    }

    /// A vector can be registered: it exists and was not registered before.
    pub open spec fn can_register(self, vector: usize) -> bool {
        if is_s_ext(vector) {
            !self.s_ext_enabled
        } else {
            vector < MAX_ARCH_IRQ_VECTORS && !self.vectors[vector as int]
        }
    }

    /// After a vector was asked to be registered.
    pub open spec fn registered(self, vector: usize) -> RiscvView {
        if !self.can_register(vector) {
            self
        } else if is_s_ext(vector) {
            RiscvView { s_ext_enabled: true, ..self }
        } else {
            RiscvView { vectors: self.vectors.update(vector as int, true), ..self }
        }
    }
}

impl RiscvArch {
    /// No timer and no vectors yet.
    pub fn new() -> (a: RiscvArch)
        ensures
            a@ == (RiscvView {
                base: BaseView::initial(),
                callback: None,
                armed: false,
                vectors: Seq::new(MAX_ARCH_IRQ_VECTORS as nat, |i: int| false),
                s_ext_enabled: false,
            }),
            a@.wf(),
    {
        let mut vectors: Vec<bool> = Vec::new();
        let mut i: usize = 0;
        while i < MAX_ARCH_IRQ_VECTORS
            invariant
                i <= MAX_ARCH_IRQ_VECTORS,
                vectors@ == Seq::new(i as nat, |j: int| false),
            decreases MAX_ARCH_IRQ_VECTORS - i,
        {
            vectors.push(false);
            i += 1;
        }
        RiscvArch { base: TimerBase::new(), callback: None, armed: false, vectors, s_ext_enabled: false }
    }

    /// Sets up the timer's callback for the CPU that calls; `room` says that memory was
    /// found.
    pub fn init_backend(&mut self, cpu_id: usize, room: bool)
        requires
            old(self)@.wf(),
        ensures
            final(self)@ == old(self)@.with_callback(cpu_id, room),
            final(self)@.wf(),
    {
        if self.callback.is_none() && room {
            self.callback = Some(
                TimerCallbackState { cpu_id: cpu_id as u64, deadline_nanos: NO_DEADLINE_NANOS, generation: 0 },
            );
        }
    }

    /// Sets the timer to a deadline for a CPU, or turns it off, at time `now_nanos`;
    /// `event_room` says that memory for the event was found.
    pub fn set_oneshot_timer(
        &mut self,
        cpu_id: usize,
        deadline_nanos: u64,
        now_nanos: i64,
        event_room: bool,
    ) -> (action: OneshotAction)
        requires
            old(self)@.wf(),
            now_nanos >= 0,
        ensures
            final(self)@ == old(self)@.oneshot(cpu_id, deadline_nanos, event_room),
            action == old(self)@.oneshot_action(deadline_nanos, now_nanos),
            final(self)@.wf(),
    {
        self.base.program(cpu_id, deadline_nanos, event_room);
        match self.callback {
            None => OneshotAction { cancel: false, start: None },
            Some(callback) => {
                let cancel: bool = self.armed;
                self.callback = Some(
                    TimerCallbackState {
                        cpu_id: cpu_id as u64,
                        deadline_nanos,
                        generation: bump(callback.generation),
                    },
                );
                if cancel {
                    self.base.cancel(cpu_id);
                }
                self.armed = deadline_nanos != NO_DEADLINE_NANOS;
                let start: Option<i64> = if deadline_nanos != NO_DEADLINE_NANOS {
                    Some(relative_nanos(deadline_nanos, now_nanos))
                } else {
                    None
                };
                OneshotAction { cancel, start }
            },
        }
    }

    /// The timer expired; says who is told.
    pub fn run(&mut self) -> (call: Option<BridgeCall>)
        requires
            old(self)@.wf(),
            old(self)@.callback matches Some(c) && c.cpu_id <= usize::MAX,
        ensures
            final(self)@ == old(self)@.expired(),
            final(self)@.wf(),
            call == old(self)@.base.bridge_call(
                old(self)@.callback->0.cpu_id as usize,
                old(self)@.callback->0.deadline_nanos,
            ),
    {
        match self.callback {
            None => None,
            Some(callback) => {
                let call = self.base.fire(callback.cpu_id as usize, callback.deadline_nanos);
                self.callback = Some(TimerCallbackState { deadline_nanos: NO_DEADLINE_NANOS, ..callback });
                self.armed = false;
                call
            },
        }
    }

    /// The deadline that was asked for last, or none.
    pub fn timer_deadline_nanos(&self) -> (r: u64)
        ensures
            r == self@.base.deadline_nanos,
    {
        self.base.deadline_nanos
    }

    /// How often a deadline was asked for.
    pub fn timer_program_count(&self) -> (r: u64)
        ensures
            r == self@.base.program_count,
    {
        self.base.program_count
    }

    /// How often the timer was cancelled.
    pub fn timer_cancel_count(&self) -> (r: u64)
        ensures
            r == self@.base.cancel_count,
    {
        self.base.cancel_count
    }

    /// Whether a deadline is set.
    pub fn timer_is_armed(&self) -> (r: bool)
        ensures
            r == (self@.base.deadline_nanos != NO_DEADLINE_NANOS),
    {
        self.base.deadline_nanos != NO_DEADLINE_NANOS
    }

    /// The CPU of the timer that expired last.
    pub fn last_timer_callback_cpu_id(&self) -> (r: u64)
        ensures
            r == self@.base.last_callback_cpu_id,
    {
        self.base.last_callback_cpu_id
    }

    /// The CPU that asked for a deadline last.
    pub fn last_timer_program_cpu_id(&self) -> (r: u64)
        ensures
            r == self@.base.last_program_cpu_id,
    {
        self.base.last_program_cpu_id
    }

    /// The CPU for which the timer was cancelled last.
    pub fn last_timer_cancel_cpu_id(&self) -> (r: u64)
        ensures
            r == self@.base.last_cancel_cpu_id,
    {
        self.base.last_cancel_cpu_id
    }

    /// Whether supervisor external interrupts are registered.
    pub fn external_irq_registered(&self) -> (r: bool)
        ensures
            r == self@.s_ext_enabled,
    {
        self.s_ext_enabled
    }

    /// Whether the architecture takes a vector.
    pub fn dispatch_external_irq(&self, vector: usize) -> (r: bool)
        requires
            self@.wf(),
        ensures
            r == self@.dispatches(vector),
    {
        if is_supervisor_external_vector(vector) {
            return true;
        }
        if vector >= MAX_ARCH_IRQ_VECTORS {
            return false;
        }
        self.vectors[vector]
    }

    /// Registers a vector; says whether it could be.
    pub fn register_irq_vector(&mut self, vector: usize) -> (r: bool)
        requires
            old(self)@.wf(),
        ensures
            r == old(self)@.can_register(vector),
            final(self)@ == old(self)@.registered(vector),
            final(self)@.wf(),
    {
        if is_supervisor_external_vector(vector) {
            if self.s_ext_enabled {
                return false;
            }
            self.s_ext_enabled = true;
            return true;
        }
        if vector >= MAX_ARCH_IRQ_VECTORS {
            return false;
        }
        if self.vectors[vector] {
            return false;
        }
        self.vectors.set(vector, true);
        true
    }
}

/// A vector can be registered once only.
pub proof fn vector_is_registered_once(v: RiscvView, vector: usize)
    requires
        v.wf(),
    ensures
        !v.registered(vector).can_register(vector),
{
}

/// A vector that was registered is dispatched from then on; no other vector's
/// dispatch changes.
pub proof fn registered_vector_is_dispatched(v: RiscvView, vector: usize, other: usize)
    requires
        v.wf(),
        v.can_register(vector),
    ensures
        v.registered(vector).dispatches(vector),
        other != vector ==> v.registered(vector).dispatches(other) == v.dispatches(other),
{
}

/// Both encodings of a supervisor external interrupt are taken, registered or not,
/// and they are registered together.
pub proof fn supervisor_external_encodings_agree(v: RiscvView, a: usize, b: usize)
    requires
        is_s_ext(a),
        is_s_ext(b),
    ensures
        v.dispatches(a) && v.dispatches(b),
        v.can_register(a) == v.can_register(b),
        v.registered(a) == v.registered(b),
{
}

} // verus!
