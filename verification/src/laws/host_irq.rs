//! Interrupts of the host.
use vstd::prelude::*;

use crate::arch::Arch;
use crate::core_link::{
    axvisor_core_boot_entry, boot_run, inject_external_interrupt, injectable, timer_check_events, AxvisorRuntimeStartContext,
    AxvisorTimerEventContext, CoreEntry, ExternalIrqEvent,
};
use crate::host::HostReply;
use crate::host_irq::{
    axvisor_linux_irq_handle, axvisor_linux_irq_register, events_over, handle_next, injection_follows_the_queue, walk,
    walked_result_is_recorded, HandleIrq, HandleView, IrqStats, IrqStep, IrqView, LinuxIrqAdapter,
};
use crate::laws::arch::{external_vector, one_more, taken_vector};
use crate::laws::codes::no_memory;

verus! {

/// An event names an interrupt and a VM.
pub open spec fn names_both(event: ExternalIrqEvent) -> bool {
    event.irq_id != 0 && event.vm_id != usize::MAX
}

/// Every start boots, every timer has the timers looked at, and an interrupt is injected into
/// the VM that its event names, unless it names none or no interrupt.
pub proof fn entries_are_those_of_their_events(
    entry: CoreEntry,
    start: AxvisorRuntimeStartContext,
    started: CoreEntry,
    timer: AxvisorTimerEventContext,
    ticked: CoreEntry,
    event: ExternalIrqEvent,
    injected: Option<CoreEntry>,
)
    requires
        call_ensures(axvisor_core_boot_entry, (), entry),
        call_ensures(boot_run, (start,), started),
        call_ensures(timer_check_events, (timer,), ticked),
        call_ensures(inject_external_interrupt, (event,), injected),
    ensures
        entry is BootRun,
        started is BootRun,
        ticked is TimerCheckEvents,
        injected is Some <==> names_both(event),
        injected matches Some(e) ==> (e matches CoreEntry::InjectInterrupt { vm_id, irq_id } && vm_id == event.vm_id
            && irq_id == event.irq_id),
{
}

/// No vector has a handler at first, and nothing waits.
pub proof fn no_interrupt_waits_at_first(a: LinuxIrqAdapter, vector: int)
    requires
        call_ensures(LinuxIrqAdapter::new, (), a),
        0 <= vector < 256,
    ensures
        a.handlers@.len() == 256 && a.bridge_fn@.len() == 256 && a.bridge_ctx@.len() == 256,
        a.handlers@[vector] == 0 && a.bridge_fn@[vector] == 0 && a.bridge_ctx@[vector] == 0,
        a.external_fn == 0 && a.external_ctx == 0,
        a.pending@.len() == 0,
        a.registration is None,
        a.stats.event_calls == 0 && a.stats.handle_calls == 0 && a.stats.registration_calls == 0,
        a.stats.pending_pushes == 0 && a.stats.drain_calls == 0 && a.stats.local_handlers == 0,
        !a.stats.external_slot_claimed && !a.stats.last_final_result && !a.stats.last_local_hit,
        !a.stats.last_external_matched && !a.stats.last_external_consumed && a.stats.last_pending_depth == 0,
        a.stats.last_drain_event_cpu_id == usize::MAX && a.stats.last_drain_event_call_index == 0,
        a.stats.last_register_vector == usize::MAX && !a.stats.last_register_external && !a.stats.last_register_arch_ok,
        !a.stats.last_register_local_installed && !a.stats.last_register_result,
        a.stats.glue_vector == usize::MAX && !a.stats.glue_external_matched && a.stats.glue_call_index == 0,
        !a.stats.glue_consumed && a.stats.event_vector == usize::MAX && a.stats.event_irq_id == 0,
        a.stats.event_cpu_id == usize::MAX && a.stats.event_call_index == 0 && !a.stats.event_consumed,
{
    assert(a.handlers@ == a@.handlers && a.bridge_fn@ == a@.bridge_fn && a.bridge_ctx@ == a@.bridge_ctx);
    assert(a.stats == a@.stats && a.pending@ == a@.pending && a.registration == a@.registration);
    assert(a.external_fn == a@.external_fn && a.external_ctx == a@.external_ctx);
}

/// An interrupt that finds memory waits behind those before it, and is counted with the
/// registration of its vector; without memory nothing changes.
pub proof fn pushed_interrupt_waits_last(a: &mut LinuxIrqAdapter, event: ExternalIrqEvent, room: bool, r: Result<(), i32>)
    requires
        old(a)@.countable(),
        call_ensures(LinuxIrqAdapter::push_external_pending, (a, event, room), r),
    ensures
        !room ==> r == Err::<(), i32>(no_memory()) && final(a)@ == old(a)@,
        room ==> {
            &&& r is Ok
            &&& final(a).pending@ == old(a).pending@.push(event)
            &&& final(a).stats.last_pending_depth == final(a).pending@.len()
            &&& final(a).stats.pending_pushes == one_more(old(a).stats.pending_pushes)
            &&& final(a).handlers@ == old(a).handlers@
            &&& final(a).registration is Some <==> old(a).registration is Some
            &&& (old(a).registration matches Some(was) ==> (final(a).registration matches Some(now) && now.vector
                == was.vector && now.drain_calls == was.drain_calls && now.last_drained_count == was.last_drained_count
                && (was.vector == event.vector ==> now.pending_pushes == was.pending_pushes + 1
                && now.last_event_cpu_id == event.cpu_id && now.last_event_call_index == event.call_index) && (was.vector
                != event.vector ==> now == was)))
        },
{
    assert(final(a)@.pending == final(a).pending@ && final(a)@.stats == final(a).stats);
    assert(final(a)@.registration == final(a).registration && final(a)@.handlers == final(a).handlers@);
    vec_fits(final(a).pending);
}

/// The interrupts that wait are handed out in order, as many as find memory, and none is left.
pub proof fn waiting_interrupts_are_handed_out(a: &mut LinuxIrqAdapter, granted: usize, out: Vec<ExternalIrqEvent>, i: int)
    requires
        old(a)@.countable(),
        call_ensures(LinuxIrqAdapter::drain_external_pending, (a, granted), out),
    ensures
        final(a).pending@.len() == 0,
        out@.len() == (if granted < old(a).pending@.len() {
            granted as nat
        } else {
            old(a).pending@.len()
        }),
        0 <= i < out@.len() ==> out@[i] == old(a).pending@[i],
        final(a).stats.drain_calls == one_more(old(a).stats.drain_calls),
        final(a).stats.last_pending_depth == 0,
        out@.len() > 0 ==> final(a).stats.last_drain_event_cpu_id == out@[out@.len() - 1].cpu_id && final(
            a).stats.last_drain_event_call_index == out@[out@.len() - 1].call_index,
        out@.len() == 0 ==> final(a).stats.last_drain_event_cpu_id == usize::MAX && final(
            a).stats.last_drain_event_call_index == 0,
        final(a).handlers@ == old(a).handlers@,
        old(a).registration is None ==> final(a).registration is None,
        old(a).registration matches Some(was) ==> (final(a).registration matches Some(now) && now.vector == was.vector
            && now.drain_calls == was.drain_calls + 1 && now.last_drained_count == old(a).pending@.len()
            && now.pending_pushes == was.pending_pushes),
{
    assert(final(a)@.pending == final(a).pending@ && final(a)@.stats == final(a).stats);
    assert(final(a)@.registration == final(a).registration && final(a)@.handlers == final(a).handlers@);
    vec_fits(old(a).pending);
}

proof fn vec_fits(v: Vec<ExternalIrqEvent>)
    ensures
        v@.len() <= usize::MAX,
{
    assert(v.len() == v@.len());
}

/// A handler is registered for a vector below 256 that has none, if the architecture lets it;
/// the handlers of other vectors stay. An external vector is registered once, and keeps no
/// handler.
pub proof fn registered_handler_is_held(
    a: &mut LinuxIrqAdapter,
    arch: &mut Arch,
    vector: usize,
    handler: u64,
    r: bool,
    other: int,
)
    requires
        old(a)@.wf(),
        old(arch)@.wf(),
        handler != 0,
        call_ensures(LinuxIrqAdapter::register_irq_handler, (a, arch, vector, handler), r),
        0 <= other < 256,
    ensures
        final(a).handlers@.len() == 256,
        !external_vector(old(arch)@, vector) && vector < 256 ==> (r <==> old(arch)@.can_register(vector) && old(
            a).handlers@[vector as int] == 0),
        !external_vector(old(arch)@, vector) && vector >= 256 ==> !r && final(arch)@ == old(arch)@,
        !external_vector(old(arch)@, vector) && r ==> final(a).handlers@[vector as int] == handler,
        other != vector || external_vector(old(arch)@, vector) || !r ==> final(a).handlers@[other] == old(
            a).handlers@[other],
        external_vector(old(arch)@, vector) ==> (r <==> old(arch)@.can_register(vector) && old(a).registration is None),
        external_vector(old(arch)@, vector) && r ==> (final(a).registration matches Some(now) && now.vector == vector
            && now.pending_pushes == 0 && now.drain_calls == 0 && now.last_drained_count == 0 && now.last_event_cpu_id
            == usize::MAX && now.last_event_call_index == 0),
        !(external_vector(old(arch)@, vector) && r) ==> final(a).registration == old(a).registration,
        final(a).pending@ == old(a).pending@,
        final(a).stats.last_register_vector == vector,
        final(a).stats.last_register_result == r,
        final(a).stats.last_register_external == external_vector(old(arch)@, vector),
        final(a).stats.last_register_local_installed == (r && !external_vector(old(arch)@, vector)),
        final(a).stats.last_register_arch_ok == ((external_vector(old(arch)@, vector) || vector < 256) && old(
            arch)@.can_register(vector)),
        final(a).stats.external_slot_claimed == (old(a).stats.external_slot_claimed || r && external_vector(
            old(arch)@,
            vector,
        )),
        final(a).stats.local_handlers == (if r && !external_vector(old(arch)@, vector) {
            one_more(old(a).stats.local_handlers)
        } else {
            old(a).stats.local_handlers
        }),
{
    assert(final(a)@.pending == final(a).pending@ && final(a)@.stats == final(a).stats);
    assert(final(a)@.registration == final(a).registration && final(a)@.handlers == final(a).handlers@);
    assert(old(a)@.stats == old(a).stats && old(a)@.handlers == old(a).handlers@);
}

/// External interrupts are registered once, and an attempt to register is recorded as it was.
pub proof fn attempts_are_recorded(
    a: &mut LinuxIrqAdapter,
    vector: usize,
    fresh: bool,
    b: &mut LinuxIrqAdapter,
    external: bool,
    arch_ok: bool,
    local: bool,
    result: bool,
)
    requires
        call_ensures(LinuxIrqAdapter::install_external_registration, (a, vector), fresh),
        call_ensures(
            LinuxIrqAdapter::record_registration_attempt,
            (b, vector, external, arch_ok, local, result),
            (),
        ),
    ensures
        fresh <==> old(a).registration is None,
        !fresh ==> final(a)@ == old(a)@,
        fresh ==> (final(a).registration matches Some(now) && now.vector == vector && now.pending_pushes == 0
            && now.drain_calls == 0 && now.last_drained_count == 0) && final(a).stats.registration_calls == one_more(
            old(a).stats.registration_calls,
        ),
        final(a).handlers@ == old(a).handlers@ && final(a).pending@ == old(a).pending@,
        final(b).stats.last_register_vector == vector,
        final(b).stats.last_register_external == external,
        final(b).stats.last_register_arch_ok == arch_ok,
        final(b).stats.last_register_local_installed == local,
        final(b).stats.last_register_result == result,
        final(b).stats.external_slot_claimed == (old(b).stats.external_slot_claimed || result && external),
        final(b).stats.local_handlers == (if result && !external && local {
            one_more(old(b).stats.local_handlers)
        } else {
            old(b).stats.local_handlers
        }),
        final(b).handlers@ == old(b).handlers@ && final(b).registration == old(b).registration,
{
    assert(final(a)@.registration == final(a).registration && final(a)@.stats == final(a).stats);
    assert(final(a)@.handlers == final(a).handlers@ && final(a)@.pending == final(a).pending@);
    assert(final(b)@.stats == final(b).stats && final(b)@.handlers == final(b).handlers@);
    assert(final(b)@.registration == final(b).registration && old(b)@.stats == old(b).stats);
}

/// A function behind the bridge is held for its vector, or for external interrupts, with what
/// it is called with, and is found there again; a vector without a place is refused.
pub proof fn bridged_function_is_found(
    a: &mut LinuxIrqAdapter,
    arch: &mut Arch,
    vector: usize,
    ctx: u64,
    f: u64,
    r: bool,
    found: Option<(u64, u64)>,
    other: int,
)
    requires
        old(a)@.wf(),
        old(arch)@.wf(),
        call_ensures(axvisor_linux_irq_register, (a, arch, vector, ctx, f), r),
        call_ensures(LinuxIrqAdapter::bridge_handler_dispatch, (final(a), final(arch), vector), found),
        0 <= other < 256,
    ensures
        !external_vector(old(arch)@, vector) && vector >= 256 ==> !r && final(a)@ == old(a)@,
        external_vector(old(arch)@, vector) || vector < 256 ==> {
            &&& f == 0 ==> found is None
            &&& f != 0 ==> (found matches Some(p) && p.0 == f && p.1 == ctx)
            &&& r && !external_vector(old(arch)@, vector) ==> final(a).handlers@[vector as int] != 0
        },
        !external_vector(old(arch)@, vector) && vector < 256 ==> (r <==> old(arch)@.can_register(vector) && old(
            a).handlers@[vector as int] == 0),
        external_vector(old(arch)@, vector) ==> (r <==> old(arch)@.can_register(vector) && old(a).registration is None),
        other != vector || external_vector(old(arch)@, vector) ==> final(a).bridge_fn@[other] == old(
            a).bridge_fn@[other] && final(a).bridge_ctx@[other] == old(a).bridge_ctx@[other],
        !external_vector(old(arch)@, vector) ==> final(a).external_fn == old(a).external_fn && final(a).external_ctx
            == old(a).external_ctx,
{
    assert(final(a)@.bridge_fn == final(a).bridge_fn@ && final(a)@.bridge_ctx == final(a).bridge_ctx@);
    assert(final(a)@.handlers == final(a).handlers@ && final(a)@.external_fn == final(a).external_fn);
    assert(final(a)@.external_ctx == final(a).external_ctx);
    assert(old(a)@.handlers == old(a).handlers@);
}

/// An interrupt goes on with the first event from a place on that names an interrupt and a
/// VM. After the last one it is handled if some event was taken; else the handler of its
/// vector is called, and without one it is not handled.
pub open spec fn goes_on_with_events(handlers: Seq<u64>, from: int, consumed: bool, h: HandleIrq) -> bool {
    &&& from <= h.at <= h.events@.len()
    &&& h.consumed == consumed
    &&& forall|i: int| from <= i < h.at ==> !names_both(#[trigger] h.events@[i])
    &&& match h.step {
        IrqStep::Inject { vm_id, irq_id } => h.at < h.events@.len() && names_both(h.events@[h.at as int]) && vm_id
            == h.events@[h.at as int].vm_id && irq_id == h.events@[h.at as int].irq_id,
        IrqStep::CallLocal { handler } => h.at == h.events@.len() && !consumed && h.vector < 256 && handler != 0
            && handler == handlers[h.vector as int],
        IrqStep::Done(true) => h.at == h.events@.len() && consumed,
        IrqStep::Done(false) => h.at == h.events@.len() && !consumed && (h.vector >= 256 || handlers[h.vector as int]
            == 0),
    }
}

/// The handlers, what waits and the counts of two tables are the same.
pub open spec fn same_but_last(a: IrqView, b: IrqView) -> bool {
    &&& a.handlers == b.handlers
    &&& a.pending == b.pending
    &&& a.stats.handle_calls == b.stats.handle_calls
    &&& a.stats.event_calls == b.stats.event_calls
    &&& a.stats.drain_calls == b.stats.drain_calls
    &&& a.stats.last_external_matched == b.stats.last_external_matched
}

proof fn lemma_events_over_keeps(v: IrqView, h: HandleView)
    ensures
        same_but_last(events_over(v, h).0, v),
        events_over(v, h).1.vector == h.vector,
{
}

proof fn lemma_turned_keeps(v: IrqView, event: ExternalIrqEvent)
    ensures
        same_but_last(v.turned_to(event), v),
{
}

proof fn lemma_walk_keeps(v: IrqView, h: HandleView)
    ensures
        same_but_last(walk(v, h).0, v),
        walk(v, h).1.vector == h.vector,
    decreases h.events.len() - h.at,
{
    if h.at < 0 || h.at >= h.events.len() {
        lemma_events_over_keeps(v, h);
    } else {
        let event = h.events[h.at];
        lemma_turned_keeps(v, event);
        if !injectable(event) {
            lemma_walk_keeps(v.turned_to(event), HandleView { at: h.at + 1, ..h });
        }
    }
}

proof fn lemma_walk_ends(v: IrqView, h: HandleView)
    ensures
        match walk(v, h).1.step {
            IrqStep::Inject { vm_id, irq_id } => true,
            IrqStep::CallLocal { handler } => !h.consumed && h.vector < 256 && handler != 0 && handler
                == v.handlers[h.vector as int],
            IrqStep::Done(true) => h.consumed,
            IrqStep::Done(false) => !h.consumed && (h.vector >= 256 || v.handlers[h.vector as int] == 0),
        },
    decreases h.events.len() - h.at,
{
    if 0 <= h.at < h.events.len() && !names_both(h.events[h.at]) {
        lemma_walk_ends(v.turned_to(h.events[h.at]), HandleView { at: h.at + 1, ..h });
    }
}

proof fn lemma_walk(v: IrqView, h: HandleView, now: IrqView, after: HandleIrq)
    requires
        0 <= h.at <= h.events.len(),
        walk(v, h) == (now, after@),
    ensures
        same_but_last(now, v),
        after.step matches IrqStep::Done(handled) ==> now.stats.last_final_result == handled,
        after.vector == h.vector,
        after.events@ == h.events,
        goes_on_with_events(v.handlers, h.at, h.consumed, after),
{
    lemma_walk_keeps(v, h);
    lemma_walk_ends(v, h);
    walked_result_is_recorded(v, h);
    injection_follows_the_queue(v, h);
    assert(after@.events == after.events@ && after@.at == after.at && after@.step == after.step);
    assert(after@.vector == after.vector && after@.consumed == after.consumed);
    assert forall|i: int| h.at <= i < after.at implies !names_both(#[trigger] after.events@[i]) by {
        assert(!injectable(h.events[i]));
    }
}

/// An interrupt that the architecture takes is handled at once, and what waits stays. Without
/// a processor of external interrupts the handler of the vector is called. With one, the
/// events that wait are taken out, and the first that names an interrupt and a VM is injected
/// into that VM.
pub proof fn interrupt_is_handled_in_order(
    a: &mut LinuxIrqAdapter,
    arch: &Arch,
    vector: usize,
    processor: bool,
    granted: usize,
    h: HandleIrq,
    i: int,
)
    requires
        old(a)@.wf(),
        old(a)@.countable(),
        arch@.wf(),
        call_ensures(LinuxIrqAdapter::handle_irq, (a, arch, vector, processor, granted), h) || call_ensures(
            axvisor_linux_irq_handle,
            (a, arch, vector, processor, granted),
            h,
        ),
    ensures
        h.vector == vector,
        final(a).handlers@ == old(a).handlers@,
        final(a).stats.handle_calls == one_more(old(a).stats.handle_calls),
        final(a).stats.event_calls == one_more(old(a).stats.event_calls),
        final(a).stats.last_external_matched == taken_vector(arch@, vector),
        h.step matches IrqStep::Done(handled) ==> final(a).stats.last_final_result == handled,
        taken_vector(arch@, vector) ==> h.step == IrqStep::Done(true) && final(a).pending@ == old(a).pending@,
        !taken_vector(arch@, vector) && !processor ==> h.events@.len() == 0 && goes_on_with_events(
            old(a).handlers@,
            0,
            false,
            h,
        ) && final(a).pending@ == old(a).pending@,
        !taken_vector(arch@, vector) && processor ==> {
            &&& h.events@.len() == (if granted < old(a).pending@.len() {
                granted as nat
            } else {
                old(a).pending@.len()
            })
            &&& 0 <= i < h.events@.len() ==> h.events@[i] == old(a).pending@[i]
            &&& goes_on_with_events(old(a).handlers@, 0, false, h)
            &&& final(a).pending@.len() == 0
            &&& final(a).stats.drain_calls == one_more(old(a).stats.drain_calls)
        },
{
    assert(final(a)@.pending == final(a).pending@ && final(a)@.stats == final(a).stats);
    assert(final(a)@.handlers == final(a).handlers@ && old(a)@.handlers == old(a).handlers@);
    assert(old(a)@.pending == old(a).pending@ && old(a)@.stats == old(a).stats);
    assert(h@.events == h.events@ && h@.at == h.at && h@.step == h.step && h@.vector == h.vector);
    if !taken_vector(arch@, vector) && processor {
        let entered = old(a)@.entered(false);
        let recorded = IrqView {
            stats: IrqStats {
                glue_vector: vector,
                glue_external_matched: false,
                glue_call_index: entered.stats.event_calls,
                glue_consumed: false,
                ..entered.stats
            },
            ..entered
        };
        let begun = HandleView {
            vector,
            events: recorded.drained(granted as int),
            at: 0,
            consumed: false,
            step: IrqStep::Done(false),
        };
        lemma_walk(recorded.after_drain(granted as int), begun, final(a)@, h);
    }
}

/// What a VM did with an injected interrupt is noted, and the next event follows.
pub proof fn interrupt_goes_on_with_the_next_event(a: &mut LinuxIrqAdapter, h: &mut HandleIrq, taken: bool)
    requires
        old(a)@.wf(),
        old(h).wf(),
        old(h).step is Inject,
        call_ensures(LinuxIrqAdapter::handle_irq_resume, (a, h, HostReply::Flag(taken)), ()),
    ensures
        final(h).vector == old(h).vector,
        final(h).events@ == old(h).events@,
        final(a).handlers@ == old(a).handlers@,
        final(a).pending@ == old(a).pending@,
        goes_on_with_events(old(a).handlers@, old(h).at + 1, old(h).consumed || taken, *final(h)),
{
    let v = old(a)@;
    let was = old(h)@;
    let noted = IrqView { stats: IrqStats { event_consumed: taken, ..v.stats }, ..v };
    let next = HandleView { at: was.at + 1, consumed: was.consumed || taken, ..was };
    assert(was.step is Inject);
    lemma_flag(v, was, taken);
    lemma_walk(noted, next, final(a)@, *final(h));
    assert(final(a)@.pending == final(a).pending@ && final(a)@.handlers == final(a).handlers@);
    assert(v.pending == old(a).pending@ && v.handlers == old(a).handlers@ && was.events == old(h).events@);
}

proof fn lemma_flag(v: IrqView, h: HandleView, taken: bool)
    requires
        h.step is Inject,
    ensures
        handle_next(v, h, HostReply::Flag(taken)) == walk(
            IrqView { stats: IrqStats { event_consumed: taken, ..v.stats }, ..v },
            HandleView { at: h.at + 1, consumed: h.consumed || taken, ..h },
        ),
{
}

/// A handler that was called ends the interrupt, which is handled then.
pub proof fn called_handler_ends_the_interrupt(a: &mut LinuxIrqAdapter, h: &mut HandleIrq)
    requires
        old(a)@.wf(),
        old(h).wf(),
        old(h).step is CallLocal,
        call_ensures(LinuxIrqAdapter::handle_irq_resume, (a, h, HostReply::Done), ()),
    ensures
        final(h).step == IrqStep::Done(true),
        final(a).stats.last_local_hit,
        final(a).stats.last_final_result,
        final(a).handlers@ == old(a).handlers@,
        final(a).pending@ == old(a).pending@,
{
    assert(final(a)@.pending == final(a).pending@ && final(a)@.handlers == final(a).handlers@);
    assert(final(a)@.stats == final(a).stats && final(h)@.step == final(h).step);
}

} // verus!
