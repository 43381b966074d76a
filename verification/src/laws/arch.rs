//! The host's timers and interrupt vectors.
use vstd::prelude::*;

use crate::arch::riscv64::RiscvArch;
use crate::arch::timer_base::{
    bump, expired_event_is_gone, programmed_cpu_has_one_event, relative_nanos, BaseView, BridgeCall, OneshotAction,
    TimerBase, TimerEvent,
};
use crate::arch::x86_64::{is_slot, X86Arch, X86View};
use crate::arch::{
    dispatch_external_irq, host_fdt_size, host_fdt_vaddr, host_tsc_frequency_mhz, init_backend, init_percpu,
    is_supervisor_external_vector, last_percpu_cpu_id, percpu_ready, register_irq_vector, register_timer_bridge,
    riscv_supervisor_external_vector, set_oneshot_timer, timer_expired, timer_fire_count, Arch, ArchView,
};

verus! {

/// A counter after one more, from its end on to zero.
pub open spec fn one_more(n: u64) -> u64 {
    if n == u64::MAX {
        0
    } else {
        (n + 1) as u64
    }
}

/// A vector stands for a supervisor external interrupt: on RISC-V, cause nine, with the
/// highest bit or without.
pub open spec fn external_vector(v: ArchView, vector: usize) -> bool {
    v is Riscv64 && (vector == 9 || vector - 9 == usize::MAX as int - usize::MAX as int / 2)
}

/// The architecture takes a vector: it is an external one, or registered with it.
pub open spec fn taken_vector(v: ArchView, vector: usize) -> bool {
    external_vector(v, vector) || (v matches ArchView::Riscv64(r) && vector < 256 && r.vectors[vector as int])
}

/// What the architectures share, where there is an architecture.
pub open spec fn shared(v: ArchView) -> BaseView {
    match v {
        ArchView::X86_64(x) => x.base,
        ArchView::Riscv64(r) => r.base,
        ArchView::Other => BaseView::initial(),
    }
}

/// A wait that ends at a deadline, or at once where that is past; deadlines beyond the
/// largest signed number count as that.
pub open spec fn ends_at(deadline: u64, now: i64, wait: i64) -> bool {
    &&& deadline <= i64::MAX && deadline >= now ==> now + wait == deadline
    &&& deadline <= i64::MAX && deadline < now ==> wait == 0
    &&& deadline > i64::MAX ==> now + wait == i64::MAX
}

/// A timer waits until its deadline.
pub proof fn wait_ends_at_the_deadline(deadline: u64, now: i64, wait: i64)
    requires
        now >= 0,
        call_ensures(relative_nanos, (deadline, now), wait),
    ensures
        ends_at(deadline, now, wait),
{
}

/// A CPU that asks for a deadline has the timer that runs cancelled and its own started, to
/// expire at the deadline; the largest number turns it off. On RISC-V there is one timer, set
/// up before; on x86-64 each CPU has its own, made where memory is found.
pub proof fn timer_is_set_to_its_deadline(
    arch: &mut Arch,
    cpu: usize,
    deadline: u64,
    now: i64,
    event_room: bool,
    slot_room: bool,
    action: OneshotAction,
)
    requires
        old(arch)@.wf(),
        now >= 0,
        call_ensures(set_oneshot_timer, (arch, cpu, deadline, now, event_room, slot_room), action),
    ensures
        action.start matches Some(wait) ==> deadline != u64::MAX && ends_at(deadline, now, wait),
        old(arch)@ is Other ==> !action.cancel && action.start is None,
        old(arch)@ matches ArchView::Riscv64(r) ==> {
            &&& action.cancel <==> r.armed
            &&& action.start is Some <==> r.callback is Some && deadline != u64::MAX
            &&& (final(arch)@ matches ArchView::Riscv64(n) && n.vectors == r.vectors && n.s_ext_enabled
                == r.s_ext_enabled && (n.callback is Some <==> r.callback is Some) && (r.callback matches Some(c) ==> (
            n.callback matches Some(d) && d.cpu_id == cpu && d.deadline_nanos == deadline && d.generation == one_more(
                c.generation,
            ) && (n.armed <==> deadline != u64::MAX))))
        },
        old(arch)@ matches ArchView::X86_64(x) ==> {
            let has = exists|i: int| is_slot(x.slots, cpu, i);
            &&& action.cancel <==> exists|i: int| is_slot(x.slots, cpu, i) && x.slots[i].armed
            &&& action.start is Some <==> deadline != u64::MAX && (has || slot_room)
            &&& final(arch)@ is X86_64
        },
{
    if let ArchView::X86_64(x) = old(arch)@ {
        if exists|i: int| is_slot(x.slots, cpu, i) {
            let k = choose|i: int| is_slot(x.slots, cpu, i);
            assert(is_slot(x.slots, cpu, k));
            assert forall|i: int| is_slot(x.slots, cpu, i) implies i == k by {
                if i < k {
                    assert(x.slots[i].cpu_id != x.slots[k].cpu_id);
                } else if k < i {
                    assert(x.slots[k].cpu_id != x.slots[i].cpu_id);
                }
            }
        }
    }
}

/// The timer of the CPU on x86-64 holds the deadline and has run once more; those of other
/// CPUs stay as they are, and there is at most one new one, which is that of the CPU.
pub proof fn cpu_has_its_own_timer(
    a: &mut X86Arch,
    cpu: usize,
    deadline: u64,
    now: i64,
    event_room: bool,
    slot_room: bool,
    action: OneshotAction,
    i: int,
)
    requires
        old(a)@.wf(),
        now >= 0,
        call_ensures(X86Arch::set_oneshot_timer, (a, cpu, deadline, now, event_room, slot_room), action),
    ensures
        old(a).slots@.len() <= final(a).slots@.len() <= old(a).slots@.len() + 1,
        0 <= i < old(a).slots@.len() && old(a).slots@[i].cpu_id != cpu ==> final(a).slots@[i] == old(a).slots@[i],
        0 <= i < old(a).slots@.len() && old(a).slots@[i].cpu_id == cpu ==> {
            &&& final(a).slots@.len() == old(a).slots@.len()
            &&& final(a).slots@[i].cpu_id == cpu
            &&& final(a).slots@[i].callback.cpu_id == cpu
            &&& final(a).slots@[i].callback.deadline_nanos == deadline
            &&& final(a).slots@[i].callback.generation == one_more(old(a).slots@[i].callback.generation)
            &&& final(a).slots@[i].armed <==> deadline != u64::MAX
        },
        (exists|k: int| is_slot(old(a).slots@, cpu, k)) || !slot_room ==> final(a).slots@.len() == old(a).slots@.len(),
        !(exists|k: int| is_slot(old(a).slots@, cpu, k)) && slot_room ==> {
            let last = final(a).slots@[old(a).slots@.len() as int];
            &&& final(a).slots@.len() == old(a).slots@.len() + 1
            &&& last.cpu_id == cpu && last.callback.cpu_id == cpu && last.callback.deadline_nanos == deadline
            &&& last.callback.generation == 1
            &&& last.armed <==> deadline != u64::MAX
        },
{
    let v = old(a)@;
    assert(old(a).slots@ == v.slots && final(a).slots@ == final(a)@.slots);
    let p = X86View { base: v.base.programmed(cpu, deadline, event_room), ..v };
    let w = p.with_slot(cpu, slot_room);
    if exists|k: int| is_slot(v.slots, cpu, k) {
        let k = choose|k: int| is_slot(v.slots, cpu, k);
        assert(is_slot(v.slots, cpu, k));
        if is_slot(v.slots, cpu, i) {
            if i < k {
                assert(v.slots[i].cpu_id != v.slots[k].cpu_id);
            } else if k < i {
                assert(v.slots[k].cpu_id != v.slots[i].cpu_id);
            }
        }
    } else if slot_room {
        let n = v.slots.len() as int;
        assert(is_slot(w.slots, cpu, n));
        let k = choose|k: int| is_slot(w.slots, cpu, k);
        assert(is_slot(w.slots, cpu, k));
        if k < n {
            assert(is_slot(v.slots, cpu, k));
        }
        assert(k == n);
        if 0 <= i < n && v.slots[i].cpu_id == cpu {
            assert(is_slot(v.slots, cpu, i));
        }
    } else if 0 <= i < v.slots.len() && v.slots[i].cpu_id == cpu {
        assert(is_slot(v.slots, cpu, i));
    }
}

/// A CPU that asks for a deadline has the event of that deadline and no other, none if the
/// timer is turned off or memory was not found; other CPUs keep theirs. What was asked for is
/// counted.
pub proof fn deadline_is_the_only_event(
    arch: &mut Arch,
    cpu: usize,
    deadline: u64,
    now: i64,
    event_room: bool,
    slot_room: bool,
    action: OneshotAction,
    e: TimerEvent,
)
    requires
        old(arch)@.wf(),
        now >= 0,
        call_ensures(set_oneshot_timer, (arch, cpu, deadline, now, event_room, slot_room), action),
        old(arch)@ !is Other,
    ensures
        e.cpu_id == cpu ==> (shared(final(arch)@).events.contains(e) <==> event_room && deadline != u64::MAX
            && e.deadline_nanos == deadline),
        e.cpu_id != cpu ==> (shared(final(arch)@).events.contains(e) <==> shared(old(arch)@).events.contains(e)),
        shared(final(arch)@).deadline_nanos == deadline,
        shared(final(arch)@).program_count == one_more(shared(old(arch)@).program_count),
        shared(final(arch)@).last_program_cpu_id == cpu,
        action.cancel ==> shared(final(arch)@).cancel_count == one_more(shared(old(arch)@).cancel_count) && shared(
            final(arch)@,
        ).last_cancel_cpu_id == cpu,
        !action.cancel ==> shared(final(arch)@).cancel_count == shared(old(arch)@).cancel_count && shared(
            final(arch)@,
        ).last_cancel_cpu_id == shared(old(arch)@).last_cancel_cpu_id,
        shared(final(arch)@).bridge == shared(old(arch)@).bridge,
        shared(final(arch)@).fire_count == shared(old(arch)@).fire_count,
        shared(final(arch)@).percpu_ready == shared(old(arch)@).percpu_ready,
{
    let base = shared(old(arch)@);
    programmed_cpu_has_one_event(base, cpu, deadline, e);
    programmed_cpu_has_one_event(base, cpu, u64::MAX, e);
    assert(base.programmed(cpu, deadline, false).events == base.programmed(cpu, u64::MAX, true).events);
    if let ArchView::X86_64(x) = old(arch)@ {
        let p = X86View { base: x.base.programmed(cpu, deadline, event_room), ..x };
        let w = p.with_slot(cpu, slot_room);
        if exists|k: int| is_slot(x.slots, cpu, k) {
            assert(w.slots == x.slots);
        } else if slot_room {
            let n = x.slots.len() as int;
            assert(is_slot(w.slots, cpu, n));
            let k = choose|k: int| is_slot(w.slots, cpu, k);
            assert(is_slot(w.slots, cpu, k));
            if k < n {
                assert(is_slot(x.slots, cpu, k));
            }
        }
    }
}

/// A timer that expired is told to the handler that was set, with its CPU and the deadline it
/// had; it is off then, its event is gone, and it is counted.
pub proof fn expired_timer_is_told_with_its_deadline(
    arch: &mut Arch,
    cpu: usize,
    call: Option<BridgeCall>,
    at: int,
    e: TimerEvent,
)
    requires
        old(arch)@.wf(),
        old(arch)@ matches ArchView::X86_64(x) ==> is_slot(x.slots, cpu, at),
        old(arch)@ matches ArchView::Riscv64(r) ==> r.callback matches Some(c) && c.cpu_id == cpu,
        old(arch)@ !is Other,
        call_ensures(timer_expired, (arch, cpu), call),
    ensures
        ({
            let deadline = match old(arch)@ {
                ArchView::X86_64(x) => x.slots[at].callback.deadline_nanos,
                ArchView::Riscv64(r) => r.callback->0.deadline_nanos,
                ArchView::Other => 0,
            };
            &&& call is Some <==> shared(old(arch)@).bridge is Some
            &&& (call matches Some(c) ==> Some(c.handler) == shared(old(arch)@).bridge && c.cpu_id == cpu
                && c.deadline_nanos == deadline)
            &&& shared(final(arch)@).events.contains(e) <==> shared(old(arch)@).events.contains(e) && !(e.cpu_id == cpu
                && e.deadline_nanos == deadline)
        }),
        shared(final(arch)@).fire_count == one_more(shared(old(arch)@).fire_count),
        shared(final(arch)@).last_callback_cpu_id == cpu,
        shared(final(arch)@).deadline_nanos == u64::MAX,
        shared(final(arch)@).bridge == shared(old(arch)@).bridge,
        old(arch)@ matches ArchView::X86_64(x) ==> (final(arch)@ matches ArchView::X86_64(n) && n.slots.len()
            == x.slots.len() && !n.slots[at].armed && n.slots[at].cpu_id == cpu && n.slots[at].callback.deadline_nanos
            == u64::MAX && forall|i: int|
            0 <= i < x.slots.len() && i != at ==> #[trigger] n.slots[i] == x.slots[i]),
        old(arch)@ matches ArchView::Riscv64(r) ==> (final(arch)@ matches ArchView::Riscv64(n) && !n.armed
            && n.vectors == r.vectors && (n.callback matches Some(d) && d.deadline_nanos == u64::MAX && d.cpu_id == cpu)),
{
    if let ArchView::X86_64(x) = old(arch)@ {
        let k = choose|k: int| is_slot(x.slots, cpu, k);
        assert(is_slot(x.slots, cpu, k));
        if at < k {
            assert(x.slots[at].cpu_id != x.slots[k].cpu_id);
        } else if k < at {
            assert(x.slots[k].cpu_id != x.slots[at].cpu_id);
        }
        expired_event_is_gone(x.base, cpu, x.slots[at].callback.deadline_nanos, e);
    }
    if let ArchView::Riscv64(r) = old(arch)@ {
        expired_event_is_gone(r.base, cpu, r.callback->0.deadline_nanos, e);
    }
}

/// Who is told of timers, which CPU is ready, and how many timers expired are read as they
/// were set.
pub proof fn set_bridge_and_cpu_are_held(
    a: &mut Arch,
    handler: u64,
    b: &mut Arch,
    cpu: usize,
    kept: bool,
    c: &Arch,
    fired: u64,
    ready: bool,
    last: u64,
)
    requires
        call_ensures(register_timer_bridge, (a, handler), ()),
        call_ensures(init_percpu, (b, cpu), kept),
        call_ensures(timer_fire_count, (c,), fired),
        call_ensures(percpu_ready, (c,), ready),
        call_ensures(last_percpu_cpu_id, (c,), last),
    ensures
        old(a)@ !is Other ==> shared(final(a)@).bridge == Some(handler) && shared(final(a)@).events == shared(
            old(a)@,
        ).events,
        old(a)@ is Other ==> final(a)@ is Other,
        kept <==> old(b)@ !is Other,
        old(b)@ !is Other ==> shared(final(b)@).percpu_ready && shared(final(b)@).last_percpu_cpu_id == cpu && shared(
            final(b)@,
        ).bridge == shared(old(b)@).bridge && shared(final(b)@).events == shared(old(b)@).events,
        c@ is Other ==> fired == 0 && !ready && last == u64::MAX,
        c@ !is Other ==> fired == shared(c@).fire_count && ready == shared(c@).percpu_ready && last == shared(
            c@,
        ).last_percpu_cpu_id,
{
}

/// The callback on RISC-V is set up once, for the CPU that calls, if memory is found.
pub proof fn callback_is_set_up_once(arch: &mut Arch, cpu: usize, room: bool)
    requires
        old(arch)@.wf(),
        call_ensures(init_backend, (arch, cpu, room), ()),
    ensures
        old(arch)@ !is Riscv64 ==> final(arch)@ == old(arch)@,
        old(arch)@ matches ArchView::Riscv64(r) ==> (final(arch)@ matches ArchView::Riscv64(n) && n.base == r.base
            && n.vectors == r.vectors && (r.callback is Some || !room ==> n.callback == r.callback) && (r.callback is None
            && room ==> (n.callback matches Some(c) && c.cpu_id == cpu && c.deadline_nanos == u64::MAX && c.generation
            == 0))),
{
}

/// A vector is registered with the architecture once, if it exists; then it is taken, and
/// what holds of other vectors stays. Only RISC-V keeps such a record.
pub proof fn vector_is_taken_once_registered(
    a: &Arch,
    vector: usize,
    taken: bool,
    external: bool,
    number: usize,
    b: &mut Arch,
    r: bool,
    other: usize,
)
    requires
        a@.wf(),
        old(b)@.wf(),
        call_ensures(dispatch_external_irq, (a, vector), taken),
        call_ensures(is_supervisor_external_vector, (a, vector), external),
        call_ensures(riscv_supervisor_external_vector, (a,), number),
        call_ensures(register_irq_vector, (b, vector), r),
    ensures
        taken == taken_vector(a@, vector),
        external == external_vector(a@, vector),
        a@ is Riscv64 ==> number > 9 && external_vector(a@, number),
        a@ !is Riscv64 ==> number == usize::MAX,
        old(b)@ !is Riscv64 ==> r && final(b)@ == old(b)@,
        old(b)@ matches ArchView::Riscv64(v) ==> {
            &&& external_vector(old(b)@, vector) ==> (r <==> !v.s_ext_enabled)
            &&& !external_vector(old(b)@, vector) ==> (r <==> vector < 256 && !v.vectors[vector as int])
            &&& (final(b)@ matches ArchView::Riscv64(n) && n.base == v.base && n.callback == v.callback && (
            external_vector(old(b)@, vector) ==> n.s_ext_enabled && n.vectors == v.vectors) && (!external_vector(
                old(b)@,
                vector,
            ) ==> n.s_ext_enabled == v.s_ext_enabled))
            &&& other != vector ==> taken_vector(final(b)@, other) == taken_vector(old(b)@, other)
            &&& r ==> taken_vector(final(b)@, vector)
        },
{
}

/// Only RISC-V has a device tree, and only a known architecture a time stamp counter; what the
/// host says of them is handed on.
pub proof fn host_values_are_handed_on(
    a: &Arch,
    addr: u64,
    size: usize,
    mhz: u32,
    given_addr: u64,
    given_size: usize,
    given_mhz: u32,
)
    requires
        call_ensures(host_fdt_vaddr, (a, addr), given_addr),
        call_ensures(host_fdt_size, (a, size), given_size),
        call_ensures(host_tsc_frequency_mhz, (a, mhz), given_mhz),
    ensures
        a@ is Riscv64 ==> given_addr == addr && given_size == size && given_mhz == mhz,
        a@ is X86_64 ==> given_addr == 0 && given_size == 0 && given_mhz == mhz,
        a@ is Other ==> given_addr == 0 && given_size == 0 && given_mhz == 0,
{
}

/// What is counted on RISC-V is read as it is.
pub proof fn counts_are_read_as_they_are(
    a: &RiscvArch,
    deadline: u64,
    programmed: u64,
    cancelled: u64,
    armed: bool,
    fired_on: u64,
    programmed_on: u64,
    cancelled_on: u64,
    registered: bool,
)
    requires
        call_ensures(RiscvArch::timer_deadline_nanos, (a,), deadline),
        call_ensures(RiscvArch::timer_program_count, (a,), programmed),
        call_ensures(RiscvArch::timer_cancel_count, (a,), cancelled),
        call_ensures(RiscvArch::timer_is_armed, (a,), armed),
        call_ensures(RiscvArch::last_timer_callback_cpu_id, (a,), fired_on),
        call_ensures(RiscvArch::last_timer_program_cpu_id, (a,), programmed_on),
        call_ensures(RiscvArch::last_timer_cancel_cpu_id, (a,), cancelled_on),
        call_ensures(RiscvArch::external_irq_registered, (a,), registered),
    ensures
        deadline == a.base.deadline_nanos,
        programmed == a.base.program_count,
        cancelled == a.base.cancel_count,
        armed <==> a.base.deadline_nanos != u64::MAX,
        fired_on == a.base.last_callback_cpu_id,
        programmed_on == a.base.last_program_cpu_id,
        cancelled_on == a.base.last_cancel_cpu_id,
        registered == a.s_ext_enabled,
{
}

/// A new host timer has no deadline, no events and no counts, and no vector is registered.
pub proof fn no_timer_is_set_at_first(x: X86Arch, r: RiscvArch, vector: int)
    requires
        call_ensures(X86Arch::new, (), x),
        call_ensures(RiscvArch::new, (), r),
        0 <= vector < 256,
    ensures
        x.slots@.len() == 0,
        x.base.events@.len() == 0 && r.base.events@.len() == 0,
        x.base.deadline_nanos == u64::MAX && r.base.deadline_nanos == u64::MAX,
        x.base.bridge is None && r.base.bridge is None,
        x.base.fire_count == 0 && r.base.fire_count == 0,
        x.base.program_count == 0 && r.base.program_count == 0,
        x.base.cancel_count == 0 && r.base.cancel_count == 0,
        !x.base.percpu_ready && !r.base.percpu_ready,
        x.base.last_percpu_cpu_id == u64::MAX && r.base.last_percpu_cpu_id == u64::MAX,
        x.base.last_callback_cpu_id == u64::MAX && r.base.last_callback_cpu_id == u64::MAX,
        x.base.last_program_cpu_id == u64::MAX && r.base.last_program_cpu_id == u64::MAX,
        x.base.last_cancel_cpu_id == u64::MAX && r.base.last_cancel_cpu_id == u64::MAX,
        r.callback is None && !r.armed && !r.s_ext_enabled,
        r.vectors@.len() == 256 && !r.vectors@[vector],
{
    assert(x.slots@ == x@.slots && r.vectors@ == r@.vectors && r.callback == r@.callback);
    assert(x.base@ == x@.base && r.base@ == r@.base);
    assert(x.base.events@ == x.base@.events && r.base.events@ == r.base@.events);
}

/// What the architectures share is kept alike: a counter counts on from its end to zero, a
/// deadline is the only event of its CPU, and an expired timer is told with its CPU and
/// deadline.
pub proof fn shared_part_keeps_deadlines(
    n: u64,
    counted: u64,
    a: &mut TimerBase,
    cpu: usize,
    deadline: u64,
    room: bool,
    b: &mut TimerBase,
    c: &mut TimerBase,
    call: Option<BridgeCall>,
    d: &mut TimerBase,
    e: TimerEvent,
)
    requires
        call_ensures(bump, (n,), counted),
        call_ensures(TimerBase::program, (a, cpu, deadline, room), ()),
        call_ensures(TimerBase::cancel, (b, cpu), ()),
        call_ensures(TimerBase::fire, (c, cpu, deadline), call),
        call_ensures(TimerBase::init_percpu, (d, cpu), ()),
    ensures
        counted == one_more(n),
        e.cpu_id == cpu ==> (final(a).events@.contains(e) <==> room && deadline != u64::MAX && e.deadline_nanos
            == deadline),
        e.cpu_id != cpu ==> (final(a).events@.contains(e) <==> old(a).events@.contains(e)),
        final(a).deadline_nanos == deadline && final(a).last_program_cpu_id == cpu,
        final(a).program_count == one_more(old(a).program_count),
        final(b).cancel_count == one_more(old(b).cancel_count) && final(b).last_cancel_cpu_id == cpu,
        final(b).events@ == old(b).events@ && final(b).deadline_nanos == old(b).deadline_nanos,
        call is Some <==> old(c).bridge is Some,
        call matches Some(t) ==> Some(t.handler) == old(c).bridge && t.cpu_id == cpu && t.deadline_nanos == deadline,
        final(c).events@.contains(e) <==> old(c).events@.contains(e) && !(e.cpu_id == cpu && e.deadline_nanos
            == deadline),
        final(c).fire_count == one_more(old(c).fire_count) && final(c).last_callback_cpu_id == cpu,
        final(c).deadline_nanos == u64::MAX,
        final(d).percpu_ready && final(d).last_percpu_cpu_id == cpu && final(d).events@ == old(d).events@,
{
    programmed_cpu_has_one_event(old(a)@, cpu, deadline, e);
    programmed_cpu_has_one_event(old(a)@, cpu, u64::MAX, e);
    assert(old(a)@.programmed(cpu, deadline, false).events == old(a)@.programmed(cpu, u64::MAX, true).events);
    expired_event_is_gone(old(c)@, cpu, deadline, e);
    assert(final(a)@.events == final(a).events@ && final(b)@.events == final(b).events@);
    assert(final(c)@.events == final(c).events@ && final(d)@.events == final(d).events@);
}

/// The timer on RISC-V does for itself what it does as the host's.
pub proof fn one_timer_serves_all_cpus(
    a: &mut RiscvArch,
    cpu: usize,
    deadline: u64,
    now: i64,
    room: bool,
    action: OneshotAction,
    b: &mut RiscvArch,
    call: Option<BridgeCall>,
    c: &mut RiscvArch,
    d: &RiscvArch,
    vector: usize,
    taken: bool,
    f: &mut RiscvArch,
    registered: bool,
)
    requires
        old(a)@.wf(),
        old(b)@.wf(),
        old(c)@.wf(),
        d@.wf(),
        old(f)@.wf(),
        now >= 0,
        old(b).callback matches Some(k) && k.cpu_id == cpu,
        call_ensures(RiscvArch::set_oneshot_timer, (a, cpu, deadline, now, room), action),
        call_ensures(RiscvArch::run, (b,), call),
        call_ensures(RiscvArch::init_backend, (c, cpu, room), ()),
        call_ensures(RiscvArch::dispatch_external_irq, (d, vector), taken),
        call_ensures(RiscvArch::register_irq_vector, (f, vector), registered),
    ensures
        action.cancel <==> old(a).armed,
        action.start is Some <==> old(a).callback is Some && deadline != u64::MAX,
        action.start matches Some(wait) ==> ends_at(deadline, now, wait),
        old(a).callback is Some ==> (final(a).callback matches Some(k) && k.cpu_id == cpu && k.deadline_nanos
            == deadline),
        call is Some <==> old(b).base.bridge is Some,
        call matches Some(t) ==> Some(t.handler) == old(b).base.bridge && t.cpu_id == cpu && t.deadline_nanos == old(
            b).callback->0.deadline_nanos,
        !final(b).armed,
        old(c).callback is Some || !room ==> final(c).callback == old(c).callback,
        old(c).callback is None && room ==> (final(c).callback matches Some(k) && k.cpu_id == cpu && k.deadline_nanos
            == u64::MAX),
        taken == taken_vector(ArchView::Riscv64(d@), vector),
        external_vector(ArchView::Riscv64(old(f)@), vector) ==> (registered <==> !old(f).s_ext_enabled),
        !external_vector(ArchView::Riscv64(old(f)@), vector) ==> (registered <==> vector < 256 && !old(
            f).vectors@[vector as int]),
        registered ==> taken_vector(ArchView::Riscv64(final(f)@), vector),
{
    assert(old(f)@.vectors == old(f).vectors@ && old(f)@.s_ext_enabled == old(f).s_ext_enabled);
    assert(old(a)@.callback == old(a).callback && final(a)@.callback == final(a).callback);
    assert(old(b)@.callback == old(b).callback && old(b)@.base.bridge == old(b).base.bridge);
    assert(final(b)@.armed == final(b).armed && old(a)@.armed == old(a).armed);
    assert(old(c)@.callback == old(c).callback && final(c)@.callback == final(c).callback);
}

/// A timer of a CPU on x86-64 that expired is told with the deadline it had.
pub proof fn expired_cpu_timer_is_told(a: &mut X86Arch, cpu: usize, call: Option<BridgeCall>, at: int)
    requires
        old(a)@.wf(),
        is_slot(old(a).slots@, cpu, at),
        call_ensures(X86Arch::run, (a, cpu), call),
    ensures
        call is Some <==> old(a).base.bridge is Some,
        call matches Some(t) ==> Some(t.handler) == old(a).base.bridge && t.cpu_id == cpu && t.deadline_nanos == old(
            a).slots@[at].callback.deadline_nanos,
        !final(a).slots@[at].armed,
        final(a).slots@[at].callback.deadline_nanos == u64::MAX,
        final(a).slots@[at].cpu_id == cpu,
{
    let slots = old(a)@.slots;
    assert(slots == old(a).slots@ && final(a)@.slots == final(a).slots@);
    assert(old(a)@.base.bridge == old(a).base.bridge);
    let k = choose|k: int| is_slot(slots, cpu, k);
    assert(is_slot(slots, cpu, k));
    if at < k {
        assert(slots[at].cpu_id != slots[k].cpu_id);
    } else if k < at {
        assert(slots[k].cpu_id != slots[at].cpu_id);
    }
}

} // verus!
