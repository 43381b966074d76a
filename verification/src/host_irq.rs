//! Interrupts of the host: handlers, external interrupts that wait for injection,
//! and the sequence that handles one.
use vstd::prelude::*;

use crate::arch::timer_base::{bump, bumped};
use crate::arch::{dispatch_external_irq, is_supervisor_external_vector, register_irq_vector, Arch};
use crate::core_link::{inject_external_interrupt, injectable, CoreEntry, ExternalIrqEvent};
use crate::errno::ENOMEM;
use crate::host::HostReply;

verus! {

/// How many vectors can have a handler.
pub const MAX_IRQ_VECTORS: usize = 256;

/// The handler that looks its function up in the bridge tables.
pub const BRIDGE_HANDLER: u64 = 1;

/// The registration for external interrupts.
#[derive(Clone, Copy, Debug, PartialEq, Eq, Structural)]
pub struct ExternalIrqRegistration {
    pub vector: usize,
    pub pending_pushes: u64,
    pub drain_calls: u64,
    pub last_drained_count: usize,
    pub last_event_cpu_id: usize,
    pub last_event_call_index: u64,
}

/// What happened to interrupts so far.
#[derive(Clone, Copy, Debug, PartialEq, Eq, Structural)]
pub struct IrqStats {
    pub event_calls: u64,
    pub handle_calls: u64,
    pub last_external_matched: bool,
    pub last_external_consumed: bool,
    pub last_local_hit: bool,
    pub last_final_result: bool,
    pub registration_calls: u64,
    pub pending_pushes: u64,
    pub drain_calls: u64,
    pub last_pending_depth: usize,
    pub last_drain_event_cpu_id: usize,
    pub last_drain_event_call_index: u64,
    pub last_register_vector: usize,
    pub last_register_external: bool,
    pub last_register_arch_ok: bool,
    pub last_register_local_installed: bool,
    pub last_register_result: bool,
    pub local_handlers: u64,
    pub external_slot_claimed: bool,
    pub glue_vector: usize,
    pub glue_external_matched: bool,
    pub glue_call_index: u64,
    pub glue_consumed: bool,
    pub event_vector: usize,
    pub event_irq_id: usize,
    pub event_cpu_id: usize,
    pub event_call_index: u64,
    pub event_consumed: bool,
}

/// Nothing happened yet.
pub open spec fn no_irqs_yet() -> IrqStats {
    IrqStats {
        event_calls: 0,
        handle_calls: 0,
        last_external_matched: false,
        last_external_consumed: false,
        last_local_hit: false,
        last_final_result: false,
        registration_calls: 0,
        pending_pushes: 0,
        drain_calls: 0,
        last_pending_depth: 0,
        last_drain_event_cpu_id: usize::MAX,
        last_drain_event_call_index: 0,
        last_register_vector: usize::MAX,
        last_register_external: false,
        last_register_arch_ok: false,
        last_register_local_installed: false,
        last_register_result: false,
        local_handlers: 0,
        external_slot_claimed: false,
        glue_vector: usize::MAX,
        glue_external_matched: false,
        glue_call_index: 0,
        glue_consumed: false,
        event_vector: usize::MAX,
        event_irq_id: 0,
        event_cpu_id: usize::MAX,
        event_call_index: 0,
        event_consumed: false,
    }
}

/// Interrupt handlers and external interrupts that wait.
pub struct LinuxIrqAdapter {
    /// The handler of each vector, zero for none.
    pub handlers: Vec<u64>,
    /// The function behind the bridge for each vector, zero for none, and what it is
    /// called with.
    pub bridge_fn: Vec<u64>,
    pub bridge_ctx: Vec<u64>,
    /// The same for external interrupts.
    pub external_fn: u64,
    pub external_ctx: u64,
    pub pending: Vec<ExternalIrqEvent>,
    pub registration: Option<ExternalIrqRegistration>,
    pub stats: IrqStats,
}

/// The contents of the interrupt tables.
#[verifier::ext_equal]
pub struct IrqView {
    pub handlers: Seq<u64>,
    pub bridge_fn: Seq<u64>,
    pub bridge_ctx: Seq<u64>,
    pub external_fn: u64,
    pub external_ctx: u64,
    pub pending: Seq<ExternalIrqEvent>,
    pub registration: Option<ExternalIrqRegistration>,
    pub stats: IrqStats,
}

impl View for LinuxIrqAdapter {
    type V = IrqView;

    open spec fn view(&self) -> IrqView {
        IrqView {
            handlers: self.handlers@,
            bridge_fn: self.bridge_fn@,
            bridge_ctx: self.bridge_ctx@,
            external_fn: self.external_fn,
            external_ctx: self.external_ctx,
            pending: self.pending@,
            registration: self.registration,
            stats: self.stats,
        }
    }
}

/// What handling an interrupt asks the host for next; `Done` says whether it was
/// handled.
#[derive(Clone, Copy, Debug, PartialEq, Eq, Structural)]
pub enum IrqStep {
    /// Inject an interrupt into a VM. The answer is a flag.
    Inject { vm_id: usize, irq_id: usize },
    /// Call the handler of the vector.
    CallLocal { handler: u64 },
    Done(bool),
}

/// An interrupt that is being handled: the events that wait for injection, which of
/// them is next, and whether some were taken.
pub struct HandleIrq {
    pub vector: usize,
    pub events: Vec<ExternalIrqEvent>,
    pub at: usize,
    pub consumed: bool,
    pub step: IrqStep,
}

/// The contents of an interrupt that is being handled.
#[verifier::ext_equal]
pub struct HandleView {
    pub vector: usize,
    pub events: Seq<ExternalIrqEvent>,
    pub at: int,
    pub consumed: bool,
    pub step: IrqStep,
}

impl View for HandleIrq {
    type V = HandleView;

    open spec fn view(&self) -> HandleView {
        HandleView {
            vector: self.vector,
            events: self.events@,
            at: self.at as int,
            consumed: self.consumed,
            step: self.step,
        }
    }
}

/// The registration after an event was added: it counts those of its vector.
pub open spec fn registration_pushed(
    registration: Option<ExternalIrqRegistration>,
    event: ExternalIrqEvent,
) -> Option<ExternalIrqRegistration> {
    match registration {
        Some(r) => Some(
            if r.vector == event.vector {
                ExternalIrqRegistration {
                    pending_pushes: (r.pending_pushes + 1) as u64,
                    last_event_cpu_id: event.cpu_id,
                    last_event_call_index: event.call_index,
                    ..r
                }
            } else {
                r
            },
        ),
        None => None,
    }
}

/// The registration after `count` events were taken from those that wait.
pub open spec fn registration_drained(
    registration: Option<ExternalIrqRegistration>,
    count: usize,
) -> Option<ExternalIrqRegistration> {
    match registration {
        Some(r) => Some(
            ExternalIrqRegistration { drain_calls: (r.drain_calls + 1) as u64, last_drained_count: count, ..r },
        ),
        None => None,
    }
}

fn count_push(registration: Option<ExternalIrqRegistration>, event: ExternalIrqEvent) -> (r: Option<
    ExternalIrqRegistration,
>)
    requires
        registration matches Some(r) ==> r.pending_pushes < u64::MAX,
    ensures
        r == registration_pushed(registration, event),
{
    match registration {
        Some(record) => if record.vector == event.vector {
            Some(
                ExternalIrqRegistration {
                    pending_pushes: record.pending_pushes + 1,
                    last_event_cpu_id: event.cpu_id,
                    last_event_call_index: event.call_index,
                    ..record
                },
            )
        } else {
            Some(record)
        },
        None => None,
    }
}

fn count_drain(registration: Option<ExternalIrqRegistration>, count: usize) -> (r: Option<ExternalIrqRegistration>)
    requires
        registration matches Some(r) ==> r.drain_calls < u64::MAX,
    ensures
        r == registration_drained(registration, count),
{
    match registration {
        Some(record) => Some(
            ExternalIrqRegistration {
                drain_calls: record.drain_calls + 1,
                last_drained_count: count,
                ..record
            },
        ),
        None => None,
    }
}

impl IrqView {
    /// Each vector has its places.
    pub open spec fn wf(self) -> bool {
        &&& self.handlers.len() == MAX_IRQ_VECTORS
        &&& self.bridge_fn.len() == MAX_IRQ_VECTORS
        &&& self.bridge_ctx.len() == MAX_IRQ_VECTORS
    }

    /// The counters of the registration have room for one more.
    pub open spec fn countable(self) -> bool {
        self.registration matches Some(r) ==> r.pending_pushes < u64::MAX && r.drain_calls < u64::MAX
    }

    /// After an event was added to those that wait.
    pub open spec fn pushed(self, event: ExternalIrqEvent) -> IrqView {
        IrqView {
            pending: self.pending.push(event),
            stats: IrqStats {
                pending_pushes: bumped(self.stats.pending_pushes),
                last_pending_depth: (self.pending.len() + 1) as usize,
                ..self.stats
            },
            registration: registration_pushed(self.registration, event),
            ..self
        }
    }

    /// The events that are handed out: all that wait, as far as memory goes.
    pub open spec fn drained(self, granted: int) -> Seq<ExternalIrqEvent> {
        if granted < self.pending.len() {
            self.pending.take(granted)
        } else {
            self.pending
        }
    }

    /// After the events that wait were handed out.
    pub open spec fn after_drain(self, granted: int) -> IrqView {
        let out = self.drained(granted);
        IrqView {
            pending: seq![],
            stats: IrqStats {
                drain_calls: bumped(self.stats.drain_calls),
                last_pending_depth: 0,
                last_drain_event_cpu_id: if out.len() > 0 {
                    out.last().cpu_id
                } else {
                    usize::MAX
                },
                last_drain_event_call_index: if out.len() > 0 {
                    out.last().call_index
                } else {
                    0
                },
                ..self.stats
            },
            registration: registration_drained(self.registration, self.pending.len() as usize),
            ..self
        }
    }

    /// After external interrupts were registered, where they were not before.
    pub open spec fn with_registration(self, vector: usize) -> IrqView {
        if self.registration is Some {
            self
        } else {
            IrqView {
                registration: Some(
                    ExternalIrqRegistration {
                        vector,
                        pending_pushes: 0,
                        drain_calls: 0,
                        last_drained_count: 0,
                        last_event_cpu_id: usize::MAX,
                        last_event_call_index: 0,
                    },
                ),
                stats: IrqStats { registration_calls: bumped(self.stats.registration_calls), ..self.stats },
                ..self
            }
        }
    }

    /// After an attempt to register was recorded.
    pub open spec fn attempted(
        self,
        vector: usize,
        is_external: bool,
        arch_ok: bool,
        local_installed: bool,
        result: bool,
    ) -> IrqView {
        IrqView {
            stats: IrqStats {
                last_register_vector: vector,
                last_register_external: is_external,
                last_register_arch_ok: arch_ok,
                last_register_local_installed: local_installed,
                last_register_result: result,
                external_slot_claimed: self.stats.external_slot_claimed || result && is_external,
                local_handlers: if result && !is_external && local_installed {
                    bumped(self.stats.local_handlers)
                } else {
                    self.stats.local_handlers
                },
                ..self.stats
            },
            ..self
        }
    }

    /// A handler can be registered: the vector is an external one without a
    /// registration, or has a place that is free.
    pub open spec fn can_register(self, vector: usize, is_external: bool) -> bool {
        if is_external {
            self.registration is None
        } else {
            vector < MAX_IRQ_VECTORS && self.handlers[vector as int] == 0
        }
    }

    /// After a handler was asked to be registered; `arch_ok` says that the architecture
    /// let it.
    pub open spec fn registered(self, vector: usize, handler: u64, is_external: bool, arch_ok: bool) -> IrqView {
        if !is_external && vector >= MAX_IRQ_VECTORS {
            self.attempted(vector, false, false, false, false)
        } else if !arch_ok {
            self.attempted(vector, is_external, false, false, false)
        } else if is_external {
            self.with_registration(vector).attempted(vector, true, true, false, self.registration is None)
        } else if self.handlers[vector as int] == 0 {
            IrqView { handlers: self.handlers.update(vector as int, handler), ..self }.attempted(
                vector,
                false,
                true,
                true,
                true,
            )
        } else {
            self.attempted(vector, false, true, false, false)
        }
    }

    /// After the function behind the bridge was set for a vector that has a place.
    pub open spec fn bridged(self, vector: usize, is_external: bool, handler_fn: u64, handler_ctx: u64) -> IrqView {
        if is_external {
            IrqView { external_fn: handler_fn, external_ctx: handler_ctx, ..self }
        } else if vector < MAX_IRQ_VECTORS {
            IrqView {
                bridge_fn: self.bridge_fn.update(vector as int, handler_fn),
                bridge_ctx: self.bridge_ctx.update(vector as int, handler_ctx),
                ..self
            }
        } else {
            self
        }
    }

    /// After an event was turned to.
    pub open spec fn turned_to(self, event: ExternalIrqEvent) -> IrqView {
        IrqView {
            stats: IrqStats {
                event_vector: event.vector,
                event_irq_id: event.irq_id,
                event_cpu_id: event.cpu_id,
                event_call_index: event.call_index,
                event_consumed: false,
                ..self.stats
            },
            ..self
        }
    }

    /// After an interrupt came in: calls are counted, and it is known whether the
    /// architecture takes it.
    pub open spec fn entered(self, matched: bool) -> IrqView {
        IrqView {
            stats: IrqStats {
                handle_calls: bumped(self.stats.handle_calls),
                last_external_matched: matched,
                event_calls: bumped(self.stats.event_calls),
                ..self.stats
            },
            ..self
        }
    }

    /// After the external path was left.
    pub open spec fn left_external(self, consumed: bool) -> IrqView {
        IrqView { stats: IrqStats { last_external_consumed: consumed, ..self.stats }, ..self }
    }

    /// After the processor of external interrupts was left.
    pub open spec fn left_processor(self, consumed: bool) -> IrqView {
        IrqView { stats: IrqStats { glue_consumed: consumed, ..self.stats }, ..self }
    }

    /// After an interrupt came to an end.
    pub open spec fn finished(self, handled: bool) -> IrqView {
        IrqView { stats: IrqStats { last_final_result: handled, ..self.stats }, ..self }
    }

    /// After the local path was left.
    pub open spec fn left_local(self, hit: bool) -> IrqView {
        IrqView { stats: IrqStats { last_local_hit: hit, ..self.stats }, ..self }
    }
}

/// The local path: the vector's handler is called, where there is one.
pub open spec fn local_path(v: IrqView, h: HandleView) -> (IrqView, HandleView) {
    if h.vector < MAX_IRQ_VECTORS && v.handlers[h.vector as int] != 0 {
        (v, HandleView { step: IrqStep::CallLocal { handler: v.handlers[h.vector as int] }, ..h })
    } else {
        (v.left_local(false).finished(false), HandleView { step: IrqStep::Done(false), ..h })
    }
}

/// All events were turned to: if some was taken the interrupt is handled, else the
/// local path follows.
pub open spec fn events_over(v: IrqView, h: HandleView) -> (IrqView, HandleView) {
    let left = v.left_processor(h.consumed).left_external(h.consumed);
    if h.consumed {
        (left.finished(true), HandleView { step: IrqStep::Done(true), ..h })
    } else {
        local_path(left, h)
    }
}

/// Turns to the events in order, up to the first that is to be injected.
pub open spec fn walk(v: IrqView, h: HandleView) -> (IrqView, HandleView)
    decreases h.events.len() - h.at,
{
    if h.at < 0 || h.at >= h.events.len() {
        events_over(v, h)
    } else {
        let event = h.events[h.at];
        if injectable(event) {
            (
                v.turned_to(event),
                HandleView { step: IrqStep::Inject { vm_id: event.vm_id, irq_id: event.irq_id }, ..h },
            )
        } else {
            walk(v.turned_to(event), HandleView { at: h.at + 1, ..h })
        }
    }
}

/// An interrupt comes in. The architecture may take it; else the processor of
/// external interrupts, where there is one, turns to the events that wait; else the
/// local path follows.
pub open spec fn handle_start(
    v: IrqView,
    vector: usize,
    matched: bool,
    processor: bool,
    granted: int,
) -> (IrqView, HandleView) {
    let h = HandleView { vector, events: seq![], at: 0, consumed: false, step: IrqStep::Done(false) };
    let entered = v.entered(matched);
    if matched {
        (entered.left_external(true).finished(true), HandleView { step: IrqStep::Done(true), ..h })
    } else if processor {
        let recorded = IrqView {
            stats: IrqStats {
                glue_vector: vector,
                glue_external_matched: matched,
                glue_call_index: entered.stats.event_calls,
                glue_consumed: false,
                ..entered.stats
            },
            ..entered
        };
        walk(recorded.after_drain(granted), HandleView { events: recorded.drained(granted), ..h })
    } else {
        local_path(entered.left_external(false), h)
    }
}

/// What follows a reply.
pub open spec fn handle_next(v: IrqView, h: HandleView, reply: HostReply) -> (IrqView, HandleView) {
    match (h.step, reply) {
        (IrqStep::Inject { vm_id, irq_id }, HostReply::Flag(taken)) => walk(
            IrqView { stats: IrqStats { event_consumed: taken, ..v.stats }, ..v },
            HandleView { at: h.at + 1, consumed: h.consumed || taken, ..h },
        ),
        (IrqStep::CallLocal { handler }, HostReply::Done) => (
            v.left_local(true).finished(true),
            HandleView { step: IrqStep::Done(true), ..h },
        ),
        _ => (v, h),
    }
}

fn zeros() -> (v: Vec<u64>)
    ensures
        v@ == Seq::new(MAX_IRQ_VECTORS as nat, |i: int| 0u64),
{
    let mut v: Vec<u64> = Vec::new();
    let mut i: usize = 0;
    while i < MAX_IRQ_VECTORS
        invariant
            i <= MAX_IRQ_VECTORS,
            v@ == Seq::new(i as nat, |j: int| 0u64),
        decreases MAX_IRQ_VECTORS - i,
    {
        v.push(0);
        i += 1;
    }
    v
}

fn take_events(pending: &mut Vec<ExternalIrqEvent>, granted: usize) -> (drained: Vec<ExternalIrqEvent>)
    ensures
        final(pending)@ == Seq::<ExternalIrqEvent>::empty(),
        drained@ == (if granted < old(pending)@.len() {
            old(pending)@.take(granted as int)
        } else {
            old(pending)@
        }),
{
    let mut drained: Vec<ExternalIrqEvent> = Vec::new();
    drained.append(pending);
    assert(drained@ =~= old(pending)@);
    if granted < drained.len() {
        drained.truncate(granted);
    }
    drained
}

impl LinuxIrqAdapter {
    /// No handlers, and nothing waits.
    pub fn new() -> (a: LinuxIrqAdapter)
        ensures
            a@ == (IrqView {
                handlers: Seq::new(MAX_IRQ_VECTORS as nat, |i: int| 0u64),
                bridge_fn: Seq::new(MAX_IRQ_VECTORS as nat, |i: int| 0u64),
                bridge_ctx: Seq::new(MAX_IRQ_VECTORS as nat, |i: int| 0u64),
                external_fn: 0,
                external_ctx: 0,
                pending: seq![],
                registration: None,
                stats: no_irqs_yet(),
            }),
            a@.wf(),
    {
        LinuxIrqAdapter {
            handlers: zeros(),
            bridge_fn: zeros(),
            bridge_ctx: zeros(),
            external_fn: 0,
            external_ctx: 0,
            pending: Vec::new(),
            registration: None,
            stats: IrqStats {
                event_calls: 0,
                handle_calls: 0,
                last_external_matched: false,
                last_external_consumed: false,
                last_local_hit: false,
                last_final_result: false,
                registration_calls: 0,
                pending_pushes: 0,
                drain_calls: 0,
                last_pending_depth: 0,
                last_drain_event_cpu_id: usize::MAX,
                last_drain_event_call_index: 0,
                last_register_vector: usize::MAX,
                last_register_external: false,
                last_register_arch_ok: false,
                last_register_local_installed: false,
                last_register_result: false,
                local_handlers: 0,
                external_slot_claimed: false,
                glue_vector: usize::MAX,
                glue_external_matched: false,
                glue_call_index: 0,
                glue_consumed: false,
                event_vector: usize::MAX,
                event_irq_id: 0,
                event_cpu_id: usize::MAX,
                event_call_index: 0,
                event_consumed: false,
            },
        }
    }

    /// Adds an external interrupt to those that wait; `room` says that memory was found.
    pub fn push_external_pending(&mut self, event: ExternalIrqEvent, room: bool) -> (r: Result<(), i32>)
        requires
            old(self)@.countable(),
        ensures
            r == (if room {
                Ok::<(), i32>(())
            } else {
                Err((-ENOMEM) as i32)
            }),
            final(self)@ == (if room {
                old(self)@.pushed(event)
            } else {
                old(self)@
            }),
            old(self)@.wf() ==> final(self)@.wf(),
    {
        if !room {
            return Err(-ENOMEM);
        }
        self.pending.push(event);
        self.stats = IrqStats {
            pending_pushes: bump(self.stats.pending_pushes),
            last_pending_depth: self.pending.len(),
            ..self.stats
        };
        self.registration = count_push(self.registration, event);
        Ok(())
    }

    /// Hands out the external interrupts that wait, oldest first; `granted` is how many
    /// find memory. None is left.
    pub fn drain_external_pending(&mut self, granted: usize) -> (events: Vec<ExternalIrqEvent>)
        requires
            old(self)@.countable(),
        ensures
            events@ == old(self)@.drained(granted as int),
            final(self)@ == old(self)@.after_drain(granted as int),
            old(self)@.wf() ==> final(self)@.wf(),
    {
        let drained_count: usize = self.pending.len();
        let drained: Vec<ExternalIrqEvent> = take_events(&mut self.pending, granted);
        let (last_cpu_id, last_call_index): (usize, u64) = if drained.len() > 0 {
            let last = drained[drained.len() - 1];
            (last.cpu_id, last.call_index)
        } else {
            (usize::MAX, 0)
        };
        self.stats = IrqStats {
            drain_calls: bump(self.stats.drain_calls),
            last_pending_depth: 0,
            last_drain_event_cpu_id: last_cpu_id,
            last_drain_event_call_index: last_call_index,
            ..self.stats
        };
        self.registration = count_drain(self.registration, drained_count);
        drained
    }

    /// Registers external interrupts; says whether they were not before.
    pub fn install_external_registration(&mut self, vector: usize) -> (r: bool)
        ensures
            r == (old(self)@.registration is None),
            final(self)@ == old(self)@.with_registration(vector),
    {
        if self.registration.is_some() {
            return false;
        }
        self.stats = IrqStats { registration_calls: bump(self.stats.registration_calls), ..self.stats };
        self.registration = Some(
            ExternalIrqRegistration {
                vector,
                pending_pushes: 0,
                drain_calls: 0,
                last_drained_count: 0,
                last_event_cpu_id: usize::MAX,
                last_event_call_index: 0,
            },
        );
        true
    }

    /// Records an attempt to register.
    pub fn record_registration_attempt(
        &mut self,
        vector: usize,
        is_external: bool,
        arch_ok: bool,
        local_installed: bool,
        result: bool,
    )
        ensures
            final(self)@ == old(self)@.attempted(vector, is_external, arch_ok, local_installed, result),
    {
        let claimed: bool = self.stats.external_slot_claimed || result && is_external;
        let local_handlers: u64 = if result && !is_external && local_installed {
            bump(self.stats.local_handlers)
        } else {
            self.stats.local_handlers
        };
        self.stats = IrqStats {
            last_register_vector: vector,
            last_register_external: is_external,
            last_register_arch_ok: arch_ok,
            last_register_local_installed: local_installed,
            last_register_result: result,
            external_slot_claimed: claimed,
            local_handlers,
            ..self.stats
        };
    }

    /// Registers a handler for a vector; says whether it could be. For external
    /// interrupts the handler itself is not kept.
    pub fn register_irq_handler(&mut self, arch: &mut Arch, vector: usize, handler: u64) -> (r: bool)
        requires
            old(self)@.wf(),
            old(arch)@.wf(),
            handler != 0,
        ensures
            final(self)@.wf(),
            final(arch)@.wf(),
            ({
                let external = old(arch)@.is_external(vector);
                let placeable = external || vector < MAX_IRQ_VECTORS;
                let arch_ok = placeable && old(arch)@.can_register(vector);
                &&& r == (arch_ok && old(self)@.can_register(vector, external))
                &&& final(self)@ == old(self)@.registered(vector, handler, external, arch_ok)
                &&& final(arch)@ == (if placeable {
                    old(arch)@.registered(vector)
                } else {
                    old(arch)@
                })
            }),
    {
        let is_external: bool = is_supervisor_external_vector(arch, vector);
        if !is_external && vector >= MAX_IRQ_VECTORS {
            self.record_registration_attempt(vector, false, false, false, false);
            return false;
        }
        if !register_irq_vector(arch, vector) {
            self.record_registration_attempt(vector, is_external, false, false, false);
            return false;
        }
        if is_external {
            let installed: bool = self.install_external_registration(vector);
            self.record_registration_attempt(vector, true, true, false, installed);
            return installed;
        }
        let installed: bool = self.handlers[vector] == 0;
        if installed {
            self.handlers.set(vector, handler);
        }
        self.record_registration_attempt(vector, false, true, installed, installed);
        installed
    }

    /// The function behind the bridge for a vector, and what it is called with; nothing
    /// where none is set.
    pub fn bridge_handler_dispatch(&self, arch: &Arch, vector: usize) -> (r: Option<(u64, u64)>)
        requires
            self@.wf(),
            arch@.is_external(vector) || vector < MAX_IRQ_VECTORS,
        ensures
            ({
                let (f, ctx) = if arch@.is_external(vector) {
                    (self@.external_fn, self@.external_ctx)
                } else {
                    (self@.bridge_fn[vector as int], self@.bridge_ctx[vector as int])
                };
                r == (if f == 0 {
                    None
                } else {
                    Some((f, ctx))
                })
            }),
    {
        let (raw_fn, raw_ctx): (u64, u64) = if is_supervisor_external_vector(arch, vector) {
            (self.external_fn, self.external_ctx)
        } else {
            (self.bridge_fn[vector], self.bridge_ctx[vector])
        };
        if raw_fn == 0 {
            None
        } else {
            Some((raw_fn, raw_ctx))
        }
    }

    fn process_external_irq_events(&mut self, handle: &mut HandleIrq)
        requires
            old(self)@.wf(),
            old(handle).at <= old(handle).events@.len(),
        ensures
            final(self)@.wf(),
            final(handle).at <= final(handle).events@.len(),
            final(handle).step is Inject ==> final(handle).at < final(handle).events@.len(),
            (final(self)@, final(handle)@) == walk(old(self)@, old(handle)@),
    {
        while handle.at < handle.events.len()
            invariant
                self@.wf(),
                handle.at <= handle.events@.len(),
                walk(self@, handle@) == walk(old(self)@, old(handle)@),
            decreases handle.events@.len() - handle.at,
        {
            let event = handle.events[handle.at];
            let ghost before = handle@;
            let ghost was = self@;
            self.stats = IrqStats {
                event_vector: event.vector,
                event_irq_id: event.irq_id,
                event_cpu_id: event.cpu_id,
                event_call_index: event.call_index,
                event_consumed: false,
                ..self.stats
            };
            assert(self@ =~= was.turned_to(event));
            match inject_external_interrupt(event) {
                Some(CoreEntry::InjectInterrupt { vm_id, irq_id }) => {
                    handle.step = IrqStep::Inject { vm_id, irq_id };
                    assert(handle@ =~= (HandleView { step: handle.step, ..before }));
                    return ;
                },
                _ => {
                    handle.at = handle.at + 1;
                    assert(handle@ =~= (HandleView { at: before.at + 1, ..before }));
                },
            }
        }
        self.stats = IrqStats {
            glue_consumed: handle.consumed,
            last_external_consumed: handle.consumed,
            ..self.stats
        };
        if handle.consumed {
            self.stats = IrqStats { last_final_result: true, ..self.stats };
            handle.step = IrqStep::Done(true);
        } else {
            self.handle_local_irq_path(handle);
        }
    }

    fn handle_local_irq_path(&mut self, handle: &mut HandleIrq)
        requires
            old(self)@.wf(),
            old(handle).at <= old(handle).events@.len(),
        ensures
            final(self)@.wf(),
            final(handle).at <= final(handle).events@.len(),
            final(handle).step !is Inject,
            (final(self)@, final(handle)@) == local_path(old(self)@, old(handle)@),
    {
        if handle.vector < MAX_IRQ_VECTORS && self.handlers[handle.vector] != 0 {
            handle.step = IrqStep::CallLocal { handler: self.handlers[handle.vector] };
        } else {
            self.stats = IrqStats { last_local_hit: false, last_final_result: false, ..self.stats };
            handle.step = IrqStep::Done(false);
        }
    }

    /// Handles an interrupt; `processor` says that a processor of external interrupts is
    /// installed, and `granted` how many of the events that wait find memory.
    pub fn handle_irq(&mut self, arch: &Arch, vector: usize, processor: bool, granted: usize) -> (handle: HandleIrq)
        requires
            old(self)@.wf(),
            old(self)@.countable(),
            arch@.wf(),
        ensures
            final(self)@.wf(),
            handle.wf(),
            (final(self)@, handle@) == handle_start(
                old(self)@,
                vector,
                arch@.dispatches(vector),
                processor,
                granted as int,
            ),
    {
        let mut handle = HandleIrq {
            vector,
            events: Vec::new(),
            at: 0,
            consumed: false,
            step: IrqStep::Done(false),
        };
        let matched: bool = dispatch_external_irq(arch, vector);
        self.stats = IrqStats {
            handle_calls: bump(self.stats.handle_calls),
            last_external_matched: matched,
            event_calls: bump(self.stats.event_calls),
            ..self.stats
        };
        assert(self@ =~= old(self)@.entered(matched));
        if matched {
            self.stats = IrqStats { last_external_consumed: true, last_final_result: true, ..self.stats };
            handle.step = IrqStep::Done(true);
            return handle;
        }
        if processor {
            self.stats = IrqStats {
                glue_vector: vector,
                glue_external_matched: matched,
                glue_call_index: self.stats.event_calls,
                glue_consumed: false,
                ..self.stats
            };
            handle.events = self.drain_external_pending(granted);
            self.process_external_irq_events(&mut handle);
            return handle;
        }
        self.stats = IrqStats { last_external_consumed: false, ..self.stats };
        self.handle_local_irq_path(&mut handle);
        handle
    }

    /// Goes on with an interrupt.
    pub fn handle_irq_resume(&mut self, handle: &mut HandleIrq, reply: HostReply)
        requires
            old(self)@.wf(),
            old(handle).wf(),
        ensures
            final(self)@.wf(),
            final(handle).wf(),
            (final(self)@, final(handle)@) == handle_next(old(self)@, old(handle)@, reply),
    {
        match (handle.step, reply) {
            (IrqStep::Inject { vm_id: _, irq_id: _ }, HostReply::Flag(taken)) => {
                self.stats = IrqStats { event_consumed: taken, ..self.stats };
                let total: usize = handle.events.len();
                assert(handle.at < total);
                handle.at = handle.at + 1;
                handle.consumed = handle.consumed || taken;
                self.process_external_irq_events(handle);
            },
            (IrqStep::CallLocal { handler: _ }, HostReply::Done) => {
                self.stats = IrqStats { last_local_hit: true, last_final_result: true, ..self.stats };
                handle.step = IrqStep::Done(true);
            },
            _ => {},
        }
    }
}

impl HandleIrq {
    /// The event that is being injected is one of the events.
    pub open spec fn wf(&self) -> bool {
        &&& self.at <= self.events@.len()
        &&& self.step is Inject ==> self.at < self.events@.len()
    }
}

/// Registers a function behind the bridge for a vector; says whether it could be.
pub fn axvisor_linux_irq_register(
    irqs: &mut LinuxIrqAdapter,
    arch: &mut Arch,
    vector: usize,
    handler_ctx: u64,
    handler_fn: u64,
) -> (r: bool)
    requires
        old(irqs)@.wf(),
        old(arch)@.wf(),
    ensures
        final(irqs)@.wf(),
        final(arch)@.wf(),
        ({
            let external = old(arch)@.is_external(vector);
            if !external && vector >= MAX_IRQ_VECTORS {
                &&& !r
                &&& final(irqs)@ == old(irqs)@
                &&& final(arch)@ == old(arch)@
            } else {
                let arch_ok = old(arch)@.can_register(vector);
                &&& r == (arch_ok && old(irqs)@.can_register(vector, external))
                &&& final(irqs)@ == old(irqs)@.bridged(vector, external, handler_fn, handler_ctx).registered(
                    vector,
                    BRIDGE_HANDLER,
                    external,
                    arch_ok,
                )
                &&& final(arch)@ == old(arch)@.registered(vector)
            }
        }),
{
    let external: bool = is_supervisor_external_vector(arch, vector);
    if vector >= MAX_IRQ_VECTORS && !external {
        return false;
    }
    if external {
        irqs.external_ctx = handler_ctx;
        irqs.external_fn = handler_fn;
    } else {
        irqs.bridge_ctx.set(vector, handler_ctx);
        irqs.bridge_fn.set(vector, handler_fn);
    }
    assert(irqs@ =~= old(irqs)@.bridged(vector, external, handler_fn, handler_ctx));
    irqs.register_irq_handler(arch, vector, BRIDGE_HANDLER)
}

/// Handles an interrupt for a caller.
pub fn axvisor_linux_irq_handle(
    irqs: &mut LinuxIrqAdapter,
    arch: &Arch,
    vector: usize,
    processor: bool,
    granted: usize,
) -> (handle: HandleIrq)
    requires
        old(irqs)@.wf(),
        old(irqs)@.countable(),
        arch@.wf(),
    ensures
        final(irqs)@.wf(),
        handle.wf(),
        (final(irqs)@, handle@) == handle_start(
            old(irqs)@,
            vector,
            arch@.dispatches(vector),
            processor,
            granted as int,
        ),
{
    irqs.handle_irq(arch, vector, processor, granted)
}

/// With memory for all of them, external interrupts are handed out in the order in
/// which they came, each once.
pub proof fn pending_interrupts_come_out_in_order(v: IrqView, event: ExternalIrqEvent, granted: int)
    requires
        granted > v.pending.len(),
    ensures
        v.pushed(event).drained(granted) == v.pending.push(event),
        v.pushed(event).after_drain(granted).pending == Seq::<ExternalIrqEvent>::empty(),
{
}

/// A vector that the architecture takes is handled at once: nothing is injected and
/// no handler is called, and what waits stays.
pub proof fn architecture_vector_is_only_latched(v: IrqView, vector: usize, processor: bool, granted: int)
    ensures
        handle_start(v, vector, true, processor, granted).1.step == IrqStep::Done(true),
        handle_start(v, vector, true, processor, granted).0.pending == v.pending,
{
}

/// What is injected is the event whose turn it is; events before it that name no
/// interrupt or no VM are passed over, and none is skipped that names both.
pub proof fn injection_follows_the_queue(v: IrqView, h: HandleView)
    requires
        0 <= h.at <= h.events.len(),
    ensures
        ({
            let after = walk(v, h).1;
            &&& h.at <= after.at <= h.events.len()
            &&& after.events == h.events
            &&& after.consumed == h.consumed
            &&& forall|i: int| h.at <= i < after.at ==> !injectable(#[trigger] h.events[i])
            &&& (after.step matches IrqStep::Inject { vm_id, irq_id } ==> after.at < h.events.len() && injectable(
                h.events[after.at],
            ) && vm_id == h.events[after.at].vm_id && irq_id == h.events[after.at].irq_id)
            &&& after.step !is Inject ==> after.at == h.events.len()
        }),
    decreases h.events.len() - h.at,
{
    if h.at < h.events.len() && !injectable(h.events[h.at]) {
        injection_follows_the_queue(v.turned_to(h.events[h.at]), HandleView { at: h.at + 1, ..h });
    }
}

/// The result that is reported is the result that is recorded, after any walk.
pub proof fn walked_result_is_recorded(v: IrqView, h: HandleView)
    ensures
        walk(v, h).1.step matches IrqStep::Done(handled) ==> walk(v, h).0.stats.last_final_result == handled,
    decreases h.events.len() - h.at,
{
    if 0 <= h.at < h.events.len() && !injectable(h.events[h.at]) {
        walked_result_is_recorded(v.turned_to(h.events[h.at]), HandleView { at: h.at + 1, ..h });
    }
}

/// An interrupt of which some event was taken counts as handled, and its vector's
/// handler is not called.
pub proof fn taken_event_ends_the_interrupt(v: IrqView, h: HandleView)
    requires
        h.consumed,
    ensures
        walk(v, h).1.step is Inject || walk(v, h).1.step == IrqStep::Done(true),
    decreases h.events.len() - h.at,
{
    if 0 <= h.at < h.events.len() && !injectable(h.events[h.at]) {
        taken_event_ends_the_interrupt(v.turned_to(h.events[h.at]), HandleView { at: h.at + 1, ..h });
    }
}

/// A vector's handler can be registered once: the same attempt fails afterwards.
pub proof fn handler_is_registered_once(v: IrqView, vector: usize, handler: u64, is_external: bool)
    requires
        v.wf(),
        handler != 0,
        v.can_register(vector, is_external),
    ensures
        !v.registered(vector, handler, is_external, true).can_register(vector, is_external),
{
}

/// A registered handler is called for its vector when the external path does not take
/// the interrupt.
pub proof fn registered_handler_is_called(v: IrqView, vector: usize, handler: u64)
    requires
        v.wf(),
        handler != 0,
        v.can_register(vector, false),
    ensures
        handle_start(v.registered(vector, handler, false, true), vector, false, false, 0).1.step
            == (IrqStep::CallLocal { handler }),
{
}

} // verus!
