//! Virtual timers and the host timer.
use vstd::prelude::*;

use crate::context::RunContexts;
use crate::timers::{
    arm_x86_idle_wakeup_timer, axvisor_kvm_x86_bridge_expire_all_due_timers, expire_all_due_timers,
    expire_due_kvm_timers, oneshot_program, ExpirePass, ExpireStep, KvmTimerEntry, TimerProgram, TimerTables, TimersView,
};

verus! {

/// The timer in a slot of a vCPU's table.
pub open spec fn timer<C>(t: TimerTables<C>, v: int, i: int) -> KvmTimerEntry<C> {
    t.tables@[v].entries@[i]
}

/// A slot that exists.
pub open spec fn is_slot(v: int, i: int) -> bool {
    0 <= v < 64 && 0 <= i < 64
}

/// A timer that is due at a time.
pub open spec fn is_due<C>(e: KvmTimerEntry<C>, now: u128) -> bool {
    e.in_use && e.deadline <= now
}

/// A deadline as the host's timer takes it: at most the largest number that it has.
pub open spec fn for_the_host(deadline: u128) -> int {
    if deadline < 0xffff_ffff_ffff_ffff {
        deadline as int
    } else {
        0xffff_ffff_ffff_ffff
    }
}

/// The host timer is set to the earliest deadline of all timers, and off where there
/// is none that it could be set to.
pub open spec fn is_set_for<C>(p: TimerProgram, t: TimerTables<C>) -> bool {
    match p {
        TimerProgram::Reprogram(d) => {
            &&& d < u64::MAX
            &&& forall|v: int, i: int|
                is_slot(v, i) && (#[trigger] timer(t, v, i)).in_use ==> d <= for_the_host(timer(t, v, i).deadline)
            &&& exists|v: int, i: int|
                is_slot(v, i) && (#[trigger] timer(t, v, i)).in_use && for_the_host(timer(t, v, i).deadline) == d
        },
        TimerProgram::Cancel => forall|v: int, i: int|
            is_slot(v, i) && (#[trigger] timer(t, v, i)).in_use ==> for_the_host(timer(t, v, i).deadline) == u64::MAX,
    }
}

pub(crate) proof fn lemma_set_for<C>(p: TimerProgram, t: TimerTables<C>)
    requires
        t.wf(),
        t@.programs(p),
    ensures
        is_set_for(p, t),
{
    assert forall|v: int, i: int| is_slot(v, i) implies #[trigger] timer(t, v, i) == t@.at(v, i) by {}
    match p {
        TimerProgram::Reprogram(d) => {
            assert forall|v: int, i: int|
                is_slot(v, i) && (#[trigger] timer(t, v, i)).in_use implies d <= for_the_host(timer(t, v, i).deadline) by {
                assert(t@.at(v, i).in_use);
            }
            let (v, i) = choose|v: int, i: int|
                TimersView::<C>::slot(v, i) && (#[trigger] t@.at(v, i)).in_use && t@.at(v, i).host_deadline() == d;
            assert(timer(t, v, i).in_use);
        },
        TimerProgram::Cancel => {
            assert forall|v: int, i: int| is_slot(v, i) && (#[trigger] timer(t, v, i)).in_use implies for_the_host(
                timer(t, v, i).deadline,
            ) == u64::MAX by {
                assert(t@.at(v, i).in_use);
            }
        },
    }
}

/// What the host timer is set to is the earliest deadline.
pub proof fn host_timer_is_set_to_the_earliest<C>(t: &TimerTables<C>, p: TimerProgram)
    requires
        t.wf(),
        call_ensures(TimerTables::<C>::reprogram_next_kvm_timer, (t,), p),
    ensures
        is_set_for(p, *t),
{
    lemma_set_for(p, *t);
}

/// Tables that differ in one slot alone.
pub open spec fn only_that_slot<C>(was: TimerTables<C>, now: TimerTables<C>, v: int, i: int) -> bool {
    forall|w: int, j: int| is_slot(w, j) && (w != v || j != i) ==> #[trigger] timer(now, w, j) == timer(was, w, j)
}

proof fn lemma_with_slot<C>(was: TimerTables<C>, now: TimerTables<C>, v: int, i: int, e: KvmTimerEntry<C>)
    requires
        was.wf(),
        now.wf(),
        is_slot(v, i),
        now@.tables == was@.with_slot(v, i, e).tables,
    ensures
        timer(now, v, i) == e,
        only_that_slot(was, now, v, i),
{
    assert(was@.tables[v].len() == 64);
    assert(timer(now, v, i) == now@.at(v, i));
    assert forall|w: int, j: int| is_slot(w, j) && (w != v || j != i) implies #[trigger] timer(now, w, j) == timer(
        was,
        w,
        j,
    ) by {
        assert(was@.tables[w].len() == 64);
        assert(timer(now, w, j) == now@.at(w, j));
        assert(timer(was, w, j) == was@.at(w, j));
    }
}

/// Every slot of a table is taken.
pub open spec fn table_full<C>(t: TimerTables<C>, v: int) -> bool {
    forall|j: int| 0 <= j < 64 ==> (#[trigger] timer(t, v, j)).in_use
}

/// A slot is the one that a new timer of a vCPU takes: the lowest free one of its own table,
/// or else of the first table with one that follows, where the first follows the last.
pub open spec fn takes_slot<C>(t: TimerTables<C>, vcpu: int, v: int, i: int) -> bool {
    &&& is_slot(v, i)
    &&& !timer(t, v, i).in_use
    &&& forall|j: int| 0 <= j < i ==> (#[trigger] timer(t, v, j)).in_use
    &&& v >= vcpu ==> forall|w: int| vcpu <= w < v ==> #[trigger] table_full(t, w)
    &&& v < vcpu ==> forall|w: int| vcpu <= w < 64 || 0 <= w < v ==> #[trigger] table_full(t, w)
}

proof fn lemma_takes_slot<C>(t: TimerTables<C>, vcpu: usize, probe: int, i: int)
    requires
        t.wf(),
        vcpu < 64,
        t@.register_finds(vcpu, probe, i),
    ensures
        takes_slot(t, vcpu as int, TimersView::<C>::probed(vcpu, probe), i),
{
    let v = TimersView::<C>::probed(vcpu, probe);
    assert(0 <= v < 64);
    assert(v == (if vcpu + probe < 64 {
        vcpu + probe
    } else {
        vcpu + probe - 64
    }));
    assert(timer(t, v, i) == t@.at(v, i));
    assert forall|j: int| 0 <= j < i implies (#[trigger] timer(t, v, j)).in_use by {
        assert(timer(t, v, j) == t@.at(v, j));
        assert(t@.at(v, j).in_use);
    }
    assert forall|w: int| (v >= vcpu && vcpu <= w < v) || (v < vcpu && (vcpu <= w < 64 || 0 <= w < v)) implies
        #[trigger] table_full(t, w) by {
        let k = if w >= vcpu {
            w - vcpu
        } else {
            w + 64 - vcpu
        };
        assert(0 <= k < probe);
        assert(TimersView::<C>::probed(vcpu, k) == w);
        assert(t@.full(w));
        assert forall|j: int| 0 <= j < 64 implies (#[trigger] timer(t, w, j)).in_use by {
            assert(timer(t, w, j) == t@.at(w, j));
            assert(t@.at(w, j).in_use);
        }
    }
}

/// A timer that is registered is in the lowest free slot of its own vCPU's table, or of the
/// next table with one, with its VM, deadline, callback and token; nothing else changes, and
/// the host timer is set anew. It is not registered exactly where its vCPU has no table or
/// every slot is taken. The token is the counter's, never zero.
pub proof fn registered_timer_is_in_its_table<C>(
    t: &mut TimerTables<C>,
    vm: u64,
    vcpu: usize,
    deadline: u128,
    callback: C,
    r: (usize, Option<TimerProgram>),
)
    requires
        old(t).wf(),
        call_ensures(TimerTables::<C>::register_kvm_timer_on_table, (t, vm, vcpu, deadline, callback), r),
    ensures
        r.0 != 0,
        old(t).next_token != 0 ==> r.0 == old(t).next_token,
        old(t).next_token == 0 ==> r.0 == 1,
        old(t).next_token != usize::MAX ==> final(t).next_token == old(t).next_token + 1,
        old(t).next_token == usize::MAX ==> final(t).next_token == 0,
        r.1 is None ==> {
            &&& forall|v: int, i: int| is_slot(v, i) ==> #[trigger] timer(*final(t), v, i) == timer(*old(t), v, i)
            &&& vcpu >= 64 || forall|v: int, i: int| is_slot(v, i) ==> (#[trigger] timer(*old(t), v, i)).in_use
        },
        vcpu >= 64 ==> r.1 is None,
        r.1 matches Some(p) ==> {
            &&& is_set_for(p, *final(t))
            &&& exists|v: int, i: int|
                {
                    &&& #[trigger] takes_slot(*old(t), vcpu as int, v, i)
                    &&& only_that_slot(*old(t), *final(t), v, i)
                    &&& ({
                        let e = timer(*final(t), v, i);
                        e.in_use && e.vm_id == vm && e.deadline == deadline && e.callback == Some(callback) && e.token == r.0
                    })
                }
        },
{
    let was = *old(t);
    let now = *final(t);
    if let Some(p) = r.1 {
        lemma_set_for(p, now);
        let (probe, i) = choose|probe: int, i: int|
            {
                &&& #[trigger] was@.register_finds(vcpu, probe, i)
                &&& now@ == was@.token_taken().with_slot(
                    TimersView::<C>::probed(vcpu, probe),
                    i,
                    KvmTimerEntry { in_use: true, token: r.0, vm_id: vm, deadline, callback: Some(callback) },
                )
            };
        let v = TimersView::<C>::probed(vcpu, probe);
        assert(0 <= v < 64);
        lemma_with_slot(
            was,
            now,
            v,
            i,
            KvmTimerEntry { in_use: true, token: r.0, vm_id: vm, deadline, callback: Some(callback) },
        );
        lemma_takes_slot(was, vcpu, probe, i);
    } else {
        assert forall|v: int, i: int| is_slot(v, i) implies #[trigger] timer(now, v, i) == timer(was, v, i) by {
            assert(timer(now, v, i) == now@.at(v, i));
            assert(timer(was, v, i) == was@.at(v, i));
        }
        if vcpu < 64 {
            assert forall|v: int, i: int| is_slot(v, i) implies (#[trigger] timer(was, v, i)).in_use by {
                assert(was@.full(v));
                assert(was@.at(v, i).in_use);
            }
        }
    }
}

/// A timer that a task registers is that of the VM and vCPU that the task runs.
pub proof fn task_registers_for_its_own_vcpu<C>(
    c: &RunContexts,
    t: &mut TimerTables<C>,
    task: u64,
    deadline: u128,
    callback: C,
    r: (usize, Option<TimerProgram>),
)
    requires
        c.wf(),
        old(t).wf(),
        call_ensures(RunContexts::register_timer::<C>, (c, t, task, deadline, callback), r),
    ensures
        c@.vcpu_of(task) >= 64 ==> r.1 is None,
        r.1 is None ==> {
            &&& forall|v: int, i: int| is_slot(v, i) ==> #[trigger] timer(*final(t), v, i) == timer(*old(t), v, i)
            &&& c@.vcpu_of(task) >= 64 || forall|v: int, i: int|
                is_slot(v, i) ==> (#[trigger] timer(*old(t), v, i)).in_use
        },
        r.0 != 0,
        old(t).next_token != 0 ==> r.0 == old(t).next_token,
        old(t).next_token == 0 ==> r.0 == 1,
        r.1 matches Some(p) ==> {
            &&& is_set_for(p, *final(t))
            &&& exists|v: int, i: int|
                {
                    &&& #[trigger] takes_slot(*old(t), c@.vcpu_of(task) as int, v, i)
                    &&& only_that_slot(*old(t), *final(t), v, i)
                    &&& ({
                        let e = timer(*final(t), v, i);
                        e.in_use && e.vm_id == c@.vm_of(task) && e.deadline == deadline && e.callback == Some(callback)
                            && e.token == r.0
                    })
                }
        },
{
    let was = *old(t);
    let now = *final(t);
    let vcpu = c@.vcpu_of(task);
    if let Some(p) = r.1 {
        lemma_set_for(p, now);
        let made = KvmTimerEntry { in_use: true, token: r.0, vm_id: c@.vm_of(task), deadline, callback: Some(callback) };
        let (probe, i) = choose|probe: int, i: int|
            {
                &&& #[trigger] was@.register_finds(vcpu, probe, i)
                &&& now@ == was@.token_taken().with_slot(TimersView::<C>::probed(vcpu, probe), i, made)
            };
        let v = TimersView::<C>::probed(vcpu, probe);
        assert(0 <= v < 64);
        lemma_with_slot(was, now, v, i, made);
        lemma_takes_slot(was, vcpu, probe, i);
    } else {
        assert forall|v: int, i: int| is_slot(v, i) implies #[trigger] timer(now, v, i) == timer(was, v, i) by {
            assert(timer(now, v, i) == now@.at(v, i));
            assert(timer(was, v, i) == was@.at(v, i));
        }
        if vcpu < 64 {
            assert forall|v: int, i: int| is_slot(v, i) implies (#[trigger] timer(was, v, i)).in_use by {
                assert(was@.full(v));
                assert(was@.at(v, i).in_use);
            }
        }
    }
}

/// A slot holds the timer with a token.
pub open spec fn holds_token<C>(t: TimerTables<C>, v: int, i: int, token: usize) -> bool {
    timer(t, v, i).in_use && timer(t, v, i).token == token
}

/// A timer that is cancelled had the token, and its slot is free; no other timer
/// changes, and the host timer is set anew. Nothing is cancelled exactly where no timer
/// has the token. The caller's own table comes first, then the others in order, and in a
/// table the lowest slot.
pub proof fn cancelled_timer_had_the_token<C>(t: &mut TimerTables<C>, own: usize, token: usize, r: Option<TimerProgram>)
    requires
        old(t).wf(),
        call_ensures(TimerTables::<C>::cancel_timer, (t, own, token), r),
    ensures
        r is None ==> forall|v: int, i: int|
            is_slot(v, i) ==> {
                let e = #[trigger] timer(*old(t), v, i);
                !(e.in_use && e.token == token) && timer(*final(t), v, i) == e
            },
        r matches Some(p) ==> {
            &&& is_set_for(p, *final(t))
            &&& exists|v: int, i: int|
                {
                    &&& is_slot(v, i)
                    &&& (#[trigger] timer(*old(t), v, i)).in_use && timer(*old(t), v, i).token == token
                    &&& !timer(*final(t), v, i).in_use
                    &&& only_that_slot(*old(t), *final(t), v, i)
                    &&& forall|j: int| 0 <= j < i ==> !#[trigger] holds_token(*old(t), v, j, token)
                    &&& v != own ==> forall|w: int, j: int|
                        is_slot(w, j) && (w < v || w == own) ==> !#[trigger] holds_token(*old(t), w, j, token)
                }
        },
{
    let was = *old(t);
    let now = *final(t);
    if let Some(p) = r {
        lemma_set_for(p, now);
        let (v, i) = choose|v: int, i: int|
            {
                &&& #[trigger] was@.cancel_finds(own, token, v, i)
                &&& now@ == was@.with_slot(v, i, KvmTimerEntry::spec_empty())
            };
        lemma_with_slot(was, now, v, i, KvmTimerEntry::spec_empty());
        assert(timer(was, v, i) == was@.at(v, i));
        assert forall|j: int| 0 <= j < i implies !#[trigger] holds_token(was, v, j, token) by {
            assert(timer(was, v, j) == was@.at(v, j));
            assert(!was@.at(v, j).has_token(token));
        }
        if v != own {
            assert forall|w: int, j: int| is_slot(w, j) && (w < v || w == own) implies !#[trigger] holds_token(
                was,
                w,
                j,
                token,
            ) by {
                assert(was@.no_token(w, token));
                assert(timer(was, w, j) == was@.at(w, j));
                assert(!was@.at(w, j).has_token(token));
            }
        }
    } else {
        assert(r is None);
        assert(now@ == was@);
        assert forall|v: int, i: int| is_slot(v, i) implies !((#[trigger] timer(was, v, i)).in_use && timer(
            was,
            v,
            i,
        ).token == token) && timer(now, v, i) == timer(was, v, i) by {
            assert(TimersView::<C>::slot(v, i));
            assert(!was@.at(v, i).has_token(token));
            assert(timer(was, v, i) == was@.at(v, i));
            assert(timer(now, v, i) == now@.at(v, i));
        }
    }
}

/// Cancelling a VM's timers leaves none of them, and every timer of another VM.
pub proof fn cancelled_vm_keeps_no_timer<C>(t: &mut TimerTables<C>, vm: u64, p: TimerProgram, v: int, i: int)
    requires
        old(t).wf(),
        is_slot(v, i),
        call_ensures(TimerTables::<C>::cancel_kvm_timers_for_vm, (t, vm), p),
    ensures
        is_set_for(p, *final(t)),
        ({
            let was = timer(*old(t), v, i);
            let now = timer(*final(t), v, i);
            if was.in_use && was.vm_id == vm {
                !now.in_use
            } else {
                now == was
            }
        }),
{
    lemma_set_for(p, *final(t));
    assert(old(t)@.tables[v].len() == 64);
    assert(timer(*old(t), v, i) == old(t)@.at(v, i));
    assert(timer(*final(t), v, i) == final(t)@.at(v, i));
}

/// The first due timer of a table is taken out, with its callback, exactly where there
/// is one.
pub proof fn taken_timer_was_the_first_due<C>(t: &mut TimerTables<C>, v: usize, now_ns: u128, r: Option<C>)
    requires
        old(t).wf(),
        v < 64,
        call_ensures(TimerTables::<C>::take_due_timer, (t, v, now_ns), r),
    ensures
        r is None ==> forall|i: int| 0 <= i < 64 ==> !is_due(#[trigger] timer(*old(t), v as int, i), now_ns),
        r matches Some(c) ==> exists|i: int|
            {
                &&& 0 <= i < 64
                &&& is_due(#[trigger] timer(*old(t), v as int, i), now_ns)
                &&& timer(*old(t), v as int, i).callback == Some(c)
                &&& forall|j: int| 0 <= j < i ==> !is_due(#[trigger] timer(*old(t), v as int, j), now_ns)
                &&& !timer(*final(t), v as int, i).in_use
                &&& only_that_slot(*old(t), *final(t), v as int, i)
            },
{
    let was = *old(t);
    let now = *final(t);
    if let Some(c) = r {
        let i = choose|i: int|
            {
                &&& #[trigger] was@.first_due(v as int, now_ns, i)
                &&& r == was@.at(v as int, i).callback
                &&& now@ == was@.with_slot(v as int, i, KvmTimerEntry::spec_empty())
            };
        lemma_with_slot(was, now, v as int, i, KvmTimerEntry::spec_empty());
        assert(timer(was, v as int, i) == was@.at(v as int, i));
        assert forall|j: int| 0 <= j < i implies !is_due(#[trigger] timer(was, v as int, j), now_ns) by {
            assert(!was@.at(v as int, j).due(now_ns));
        }
    } else {
        assert forall|i: int| 0 <= i < 64 implies !is_due(#[trigger] timer(was, v as int, i), now_ns) by {
            assert(!was@.at(v as int, i).due(now_ns));
        }
    }
}

/// A drain of one vCPU covers that vCPU's table alone, and a drain of all every table;
/// either is at the time that it was begun with.
pub proof fn drain_covers_its_tables(vcpu: usize, now_ns: u128, one: Option<ExpirePass>, all: ExpirePass, called: ExpirePass)
    requires
        call_ensures(expire_due_kvm_timers, (vcpu, now_ns), one),
        call_ensures(expire_all_due_timers, (now_ns,), all),
        call_ensures(axvisor_kvm_x86_bridge_expire_all_due_timers, (now_ns,), called),
    ensures
        vcpu >= 64 ==> one is None,
        vcpu < 64 ==> (one matches Some(p) && p.table == vcpu && p.end == vcpu + 1 && p.cutoff == now_ns),
        all.table == 0 && all.end == 64 && all.cutoff == now_ns,
        called == all,
{
}

/// A drain calls, with the time that it was begun with, the callback of the first due
/// timer from where it stands, which is in no table any more; it ends only where no due
/// timer is left in its tables, and then has the host timer set.
pub proof fn drain_takes_the_first_due<C>(pass: &mut ExpirePass, t: &mut TimerTables<C>, step: ExpireStep<C>)
    requires
        old(pass).wf(),
        old(t).wf(),
        call_ensures(ExpirePass::advance::<C>, (pass, t), step),
    ensures
        final(pass).end == old(pass).end && final(pass).cutoff == old(pass).cutoff,
        old(pass).table <= final(pass).table <= old(pass).end,
        forall|v: int, i: int|
            old(pass).table <= v < final(pass).table && 0 <= i < 64 ==> !is_due(
                #[trigger] timer(*old(t), v, i),
                old(pass).cutoff,
            ),
        step matches ExpireStep::RunCallback { callback, now } ==> {
            let v = final(pass).table as int;
            &&& now == old(pass).cutoff
            &&& v < old(pass).end
            &&& exists|i: int|
                {
                    &&& 0 <= i < 64
                    &&& is_due(#[trigger] timer(*old(t), v, i), now)
                    &&& timer(*old(t), v, i).callback == Some(callback)
                    &&& forall|j: int| 0 <= j < i ==> !is_due(#[trigger] timer(*old(t), v, j), now)
                    &&& !timer(*final(t), v, i).in_use
                    &&& only_that_slot(*old(t), *final(t), v, i)
                }
        },
        step matches ExpireStep::Program(p) ==> {
            &&& final(pass).table == old(pass).end
            &&& is_set_for(p, *final(t))
            &&& forall|v: int, i: int| is_slot(v, i) ==> #[trigger] timer(*final(t), v, i) == timer(*old(t), v, i)
        },
{
    let was = *old(t);
    let now_t = *final(t);
    let reached = final(pass).table;
    assert(old(pass).passes(was@, reached));
    assert forall|v: int, i: int| old(pass).table <= v < reached && 0 <= i < 64 implies !is_due(
        #[trigger] timer(was, v, i),
        old(pass).cutoff,
    ) by {
        assert(was@.none_due(v, old(pass).cutoff));
        assert(!was@.at(v, i).due(old(pass).cutoff));
    }
    match step {
        ExpireStep::RunCallback { callback, now } => {
            let v = reached as int;
            let i = choose|i: int|
                {
                    &&& #[trigger] was@.first_due(v, old(pass).cutoff, i)
                    &&& old(pass).takes(was@, reached, i, callback, now_t@)
                };
            lemma_with_slot(was, now_t, v, i, KvmTimerEntry::spec_empty());
            assert(timer(was, v, i) == was@.at(v, i));
            assert forall|j: int| 0 <= j < i implies !is_due(#[trigger] timer(was, v, j), now) by {
                assert(!was@.at(v, j).due(now));
            }
        },
        ExpireStep::Program(p) => {
            lemma_set_for(p, now_t);
            assert forall|v: int, i: int| is_slot(v, i) implies #[trigger] timer(now_t, v, i) == timer(was, v, i) by {
                assert(timer(now_t, v, i) == now_t@.at(v, i));
                assert(timer(was, v, i) == was@.at(v, i));
            }
        },
    }
}

/// New tables hold no timer, and the first token is one.
pub proof fn new_tables_hold_no_timer<C>(t: TimerTables<C>, v: int, i: int)
    requires
        is_slot(v, i),
        call_ensures(TimerTables::<C>::new, (), t),
    ensures
        !timer(t, v, i).in_use,
        t.next_token == 1,
{
    assert(timer(t, v, i) == t@.at(v, i));
}

/// A one-shot deadline and an idle guest's deadline are handed to the host as they are,
/// as far as it can take them; zero is none.
pub proof fn deadlines_are_handed_on(deadline: u128, next: Option<u64>, oneshot: Option<u64>, idle: Option<u64>)
    requires
        call_ensures(oneshot_program, (deadline,), oneshot),
        call_ensures(arm_x86_idle_wakeup_timer, (next,), idle),
    ensures
        deadline == 0 ==> oneshot is None,
        deadline > 0 ==> oneshot is Some && oneshot->Some_0 == for_the_host(deadline),
        idle matches Some(d) ==> d != 0 && next == Some(d),
        idle is None ==> next is None || next == Some(0u64),
{
}

} // verus!
