//! Virtual timers: one bounded table per vCPU, drained up to a frozen cutoff,
//! and the host timer kept at the earliest deadline.
use vstd::prelude::*;
use vstd::set_lib::{lemma_int_range, lemma_len_subset, set_int_range};

use crate::state::MAX_VCPUS;

verus! {

/// Most timers in the table of one vCPU.
pub const MAX_TIMERS_PER_VCPU: usize = 64;

/// One timer slot. `deadline` is in nanoseconds.
pub struct KvmTimerEntry<C> {
    pub in_use: bool,
    pub token: usize,
    pub vm_id: u64,
    pub deadline: u128,
    pub callback: Option<C>,
}

impl<C> KvmTimerEntry<C> {
    /// A free slot.
    pub open spec fn spec_empty() -> KvmTimerEntry<C> {
        KvmTimerEntry { in_use: false, token: 0, vm_id: 0, deadline: 0, callback: None }
    }

    /// A free slot.
    pub fn empty() -> (r: KvmTimerEntry<C>)
        ensures
            r == Self::spec_empty(),
    {
        KvmTimerEntry { in_use: false, token: 0, vm_id: 0, deadline: 0, callback: None }
    }

    /// The slot holds a timer that is due at `cutoff`.
    pub open spec fn due(self, cutoff: u128) -> bool {
        self.in_use && self.deadline <= cutoff
    }

    /// The slot holds the timer with a token.
    pub open spec fn has_token(self, token: usize) -> bool {
        self.in_use && self.token == token
    }

    /// The deadline as the host timer takes it.
    pub open spec fn host_deadline(self) -> u64 {
        if self.deadline > u64::MAX {
            u64::MAX
        } else {
            self.deadline as u64
        }
    }
}

/// The timers of one vCPU.
pub struct VcpuTimerTable<C> {
    pub entries: Vec<KvmTimerEntry<C>>,
}

impl<C> VcpuTimerTable<C> {
    /// A table of free slots.
    pub fn empty() -> (r: VcpuTimerTable<C>)
        ensures
            r.entries@ == Seq::new(MAX_TIMERS_PER_VCPU as nat, |i: int| KvmTimerEntry::<C>::spec_empty()),
    {
        let mut entries: Vec<KvmTimerEntry<C>> = Vec::new();
        let mut i: usize = 0;
        while i < MAX_TIMERS_PER_VCPU
            invariant
                i <= MAX_TIMERS_PER_VCPU,
                entries@ == Seq::new(i as nat, |j: int| KvmTimerEntry::<C>::spec_empty()),
            decreases MAX_TIMERS_PER_VCPU - i,
        {
            entries.push(KvmTimerEntry::empty());
            i += 1;
        }
        VcpuTimerTable { entries }
    }
}

/// Every vCPU's timers, and the token for the next one.
pub struct TimerTables<C> {
    pub tables: Vec<VcpuTimerTable<C>>,
    pub next_token: usize,
}

/// The contents of the timer tables.
#[verifier::ext_equal]
pub struct TimersView<C> {
    pub tables: Seq<Seq<KvmTimerEntry<C>>>,
    pub next_token: usize,
}

impl<C> View for TimerTables<C> {
    type V = TimersView<C>;

    open spec fn view(&self) -> TimersView<C> {
        TimersView {
            tables: Seq::new(self.tables@.len(), |v: int| self.tables@[v].entries@),
            next_token: self.next_token,
        }
    }
}

/// What the host timer is set to: nothing, or a deadline in nanoseconds that
/// only ever moves it earlier.
#[derive(Clone, Copy, Debug, PartialEq, Eq, Structural)]
pub enum TimerProgram {
    Cancel,
    Reprogram(u64),
}

impl<C> TimersView<C> {
    /// The slot at a position of a table.
    pub open spec fn at(self, v: int, i: int) -> KvmTimerEntry<C> {
        self.tables[v][i]
    }

    /// A position that exists.
    pub open spec fn slot(v: int, i: int) -> bool {
        0 <= v < MAX_VCPUS && 0 <= i < MAX_TIMERS_PER_VCPU
    }

    /// The tables with one slot replaced.
    pub open spec fn with_slot(self, v: int, i: int, e: KvmTimerEntry<C>) -> TimersView<C> {
        TimersView { tables: self.tables.update(v, self.tables[v].update(i, e)), ..self }
    }

    /// The tables have their fixed sizes, and a slot has a callback exactly when
    /// it is in use.
    pub open spec fn inv(self) -> bool {
        &&& self.tables.len() == MAX_VCPUS
        &&& forall|v: int| 0 <= v < MAX_VCPUS ==> (#[trigger] self.tables[v]).len() == MAX_TIMERS_PER_VCPU
        &&& forall|v: int, i: int|
            Self::slot(v, i) ==> (#[trigger] self.at(v, i)).in_use == (self.at(v, i).callback is Some)
    }

    /// `d` is the earliest host deadline of all timers, or the largest value
    /// where no timer has an earlier one.
    pub open spec fn earliest(self, d: u64) -> bool {
        &&& forall|v: int, i: int|
            Self::slot(v, i) && (#[trigger] self.at(v, i)).in_use ==> d <= self.at(v, i).host_deadline()
        &&& d == u64::MAX || exists|v: int, i: int|
            Self::slot(v, i) && (#[trigger] self.at(v, i)).in_use && self.at(v, i).host_deadline() == d
    }

    /// What the host timer has to be set to.
    pub open spec fn programs(self, p: TimerProgram) -> bool {
        match p {
            TimerProgram::Cancel => self.earliest(u64::MAX),
            TimerProgram::Reprogram(d) => d < u64::MAX && self.earliest(d),
        }
    }

    /// The tables with every slot that satisfies `gone` emptied.
    pub open spec fn without(self, gone: spec_fn(KvmTimerEntry<C>) -> bool) -> TimersView<C> {
        TimersView {
            tables: Seq::new(
                self.tables.len(),
                |v: int|
                    Seq::new(
                        self.tables[v].len(),
                        |i: int|
                            if gone(self.at(v, i)) {
                                KvmTimerEntry::spec_empty()
                            } else {
                                self.at(v, i)
                            },
                    ),
            ),
            ..self
        }
    }

    /// The first slot of a table that is due.
    pub open spec fn first_due(self, v: int, cutoff: u128, i: int) -> bool {
        &&& Self::slot(v, i)
        &&& self.at(v, i).due(cutoff)
        &&& forall|j: int| 0 <= j < i ==> !(#[trigger] self.at(v, j)).due(cutoff)
    }

    /// No slot of a table is due.
    pub open spec fn none_due(self, v: int, cutoff: u128) -> bool {
        forall|j: int| 0 <= j < MAX_TIMERS_PER_VCPU ==> !(#[trigger] self.at(v, j)).due(cutoff)
    }

    /// The first slot of a table that holds a token.
    pub open spec fn first_token(self, v: int, token: usize, i: int) -> bool {
        &&& Self::slot(v, i)
        &&& self.at(v, i).has_token(token)
        &&& forall|j: int| 0 <= j < i ==> !(#[trigger] self.at(v, j)).has_token(token)
    }

    /// No slot of a table holds a token.
    pub open spec fn no_token(self, v: int, token: usize) -> bool {
        forall|j: int| 0 <= j < MAX_TIMERS_PER_VCPU ==> !(#[trigger] self.at(v, j)).has_token(token)
    }

    /// The slot that a cancellation from vCPU `own` finds: its own table first,
    /// then the others in order.
    pub open spec fn cancel_finds(self, own: usize, token: usize, v: int, i: int) -> bool {
        &&& self.first_token(v, token, i)
        &&& v != own && own < MAX_VCPUS ==> self.no_token(own as int, token)
        &&& v != own ==> forall|w: int| 0 <= w < v ==> #[trigger] self.no_token(w, token)
    }

    /// No slot of a table is free.
    pub open spec fn full(self, v: int) -> bool {
        forall|j: int| 0 <= j < MAX_TIMERS_PER_VCPU ==> (#[trigger] self.at(v, j)).in_use
    }

    /// The table that is `probe` tables after that of a vCPU, around the end.
    pub open spec fn probed(vcpu_id: usize, probe: int) -> int {
        (vcpu_id + probe) % MAX_VCPUS as int
    }

    /// The slot that a new timer of a vCPU takes: the first free one of its own
    /// table, or else of the nearest table after it that has one.
    pub open spec fn register_finds(self, vcpu_id: usize, probe: int, i: int) -> bool {
        &&& 0 <= probe < MAX_VCPUS
        &&& 0 <= i < MAX_TIMERS_PER_VCPU
        &&& !self.at(Self::probed(vcpu_id, probe), i).in_use
        &&& forall|j: int| 0 <= j < i ==> (#[trigger] self.at(Self::probed(vcpu_id, probe), j)).in_use
        &&& forall|k: int| 0 <= k < probe ==> self.full(#[trigger] Self::probed(vcpu_id, k))
    }

    /// The token that the next timer gets.
    pub open spec fn fresh_token(self) -> usize {
        if self.next_token == 0 {
            1
        } else {
            self.next_token
        }
    }

    /// The tables with the next token handed out.
    pub open spec fn token_taken(self) -> TimersView<C> {
        TimersView {
            next_token: if self.next_token == usize::MAX {
                0
            } else {
                (self.next_token + 1) as usize
            },
            ..self
        }
    }

    /// Every timer's token was handed out before the next one, and none twice.
    pub open spec fn tokens_distinct(self) -> bool {
        &&& forall|v: int, i: int|
            Self::slot(v, i) && (#[trigger] self.at(v, i)).in_use ==> self.at(v, i).token < self.fresh_token()
        &&& forall|v: int, i: int, w: int, j: int|
            Self::slot(v, i) && Self::slot(w, j) && (v, i) != (w, j) && (#[trigger] self.at(v, i)).in_use && (
            #[trigger] self.at(w, j)).in_use ==> self.at(v, i).token != self.at(w, j).token
    }
}

impl<C> TimerTables<C> {
    /// The tables satisfy what every call keeps.
    pub open spec fn wf(&self) -> bool {
        self@.inv()
    }

    /// Tables without timers.
    pub fn new() -> (t: TimerTables<C>)
        ensures
            t.wf(),
            t@.next_token == 1,
            forall|v: int, i: int|
                TimersView::<C>::slot(v, i) ==> (#[trigger] t@.at(v, i)) == KvmTimerEntry::<C>::spec_empty(),
    {
        let mut tables: Vec<VcpuTimerTable<C>> = Vec::new();
        let mut v: usize = 0;
        while v < MAX_VCPUS
            invariant
                v <= MAX_VCPUS,
                tables@.len() == v,
                forall|w: int|
                    0 <= w < v ==> (#[trigger] tables@[w]).entries@ == Seq::new(
                        MAX_TIMERS_PER_VCPU as nat,
                        |i: int| KvmTimerEntry::<C>::spec_empty(),
                    ),
            decreases MAX_VCPUS - v,
        {
            tables.push(VcpuTimerTable::empty());
            v += 1;
        }
        TimerTables { tables, next_token: 1 }
    }

    fn slot_in_use(&self, v: usize, i: usize) -> (r: bool)
        requires
            self.wf(),
            v < MAX_VCPUS,
            i < MAX_TIMERS_PER_VCPU,
        ensures
            r == self@.at(v as int, i as int).in_use,
    {
        assert(self@.tables[v as int].len() == MAX_TIMERS_PER_VCPU);
        self.tables[v].entries[i].in_use
    }

    fn replace_slot(&mut self, v: usize, i: usize, e: KvmTimerEntry<C>)
        requires
            old(self).wf(),
            v < MAX_VCPUS,
            i < MAX_TIMERS_PER_VCPU,
            e.in_use == (e.callback is Some),
        ensures
            final(self).wf(),
            final(self)@ == old(self)@.with_slot(v as int, i as int, e),
    {
        assert(self@.tables[v as int].len() == MAX_TIMERS_PER_VCPU);
        self.tables[v].entries[i] = e;
        proof {
            let before = old(self)@;
            assert(self@.tables =~= before.tables.update(v as int, before.tables[v as int].update(i as int, e)));
            assert forall|w: int, j: int| TimersView::<C>::slot(w, j) implies (#[trigger] self@.at(w, j)).in_use == (
            self@.at(w, j).callback is Some) by {
                assert(before.at(w, j).in_use == (before.at(w, j).callback is Some));
            }
        }
    }

    /// What the host timer has to be set to: the earliest deadline of all, or
    /// nothing where there is none.
    pub fn reprogram_next_kvm_timer(&self) -> (p: TimerProgram)
        requires
            self.wf(),
        ensures
            self@.programs(p),
    {
        let mut selected: u64 = u64::MAX;
        let mut v: usize = 0;
        let ghost view = self@;
        let ghost mut at: (int, int) = (0, 0);
        while v < MAX_VCPUS
            invariant
                v <= MAX_VCPUS,
                self.wf(),
                view == self@,
                forall|w: int, j: int|
                    TimersView::<C>::slot(w, j) && w < v && (#[trigger] view.at(w, j)).in_use ==> selected <= view.at(
                        w,
                        j,
                    ).host_deadline(),
                selected == u64::MAX || (TimersView::<C>::slot(at.0, at.1) && view.at(at.0, at.1).in_use && view.at(
                    at.0,
                    at.1,
                ).host_deadline() == selected),
            decreases MAX_VCPUS - v,
        {
            let mut i: usize = 0;
            assert(view.tables[v as int].len() == MAX_TIMERS_PER_VCPU);
            while i < MAX_TIMERS_PER_VCPU
                invariant
                    i <= MAX_TIMERS_PER_VCPU,
                    v < MAX_VCPUS,
                    self.wf(),
                    view == self@,
                    view.tables[v as int].len() == MAX_TIMERS_PER_VCPU,
                    forall|w: int, j: int|
                        TimersView::<C>::slot(w, j) && (w < v || (w == v && j < i)) && (#[trigger] view.at(w, j)).in_use
                            ==> selected <= view.at(w, j).host_deadline(),
                    selected == u64::MAX || (TimersView::<C>::slot(at.0, at.1) && view.at(at.0, at.1).in_use
                        && view.at(at.0, at.1).host_deadline() == selected),
                decreases MAX_TIMERS_PER_VCPU - i,
            {
                assert(view.at(v as int, i as int) == self.tables@[v as int].entries@[i as int]);
                if self.tables[v].entries[i].in_use {
                    let nanos: u128 = self.tables[v].entries[i].deadline;
                    let deadline_ns: u64 = if nanos > u64::MAX as u128 { u64::MAX } else { nanos as u64 };
                    if deadline_ns < selected {
                        selected = deadline_ns;
                        proof {
                            at = (v as int, i as int);
                        }
                    }
                }
                i += 1;
            }
            v += 1;
        }
        if selected == u64::MAX {
            TimerProgram::Cancel
        } else {
            assert(TimersView::<C>::slot(at.0, at.1) && view.at(at.0, at.1).in_use);
            TimerProgram::Reprogram(selected)
        }
    }

    /// Takes the first due timer of a table out of it and gives its callback.
    pub fn take_due_timer(&mut self, table: usize, cutoff: u128) -> (r: Option<C>)
        requires
            old(self).wf(),
            table < MAX_VCPUS,
        ensures
            final(self).wf(),
            r is None ==> final(self)@ == old(self)@ && old(self)@.none_due(table as int, cutoff),
            r is Some ==> exists|i: int|
                {
                    &&& #[trigger] old(self)@.first_due(table as int, cutoff, i)
                    &&& r == old(self)@.at(table as int, i).callback
                    &&& final(self)@ == old(self)@.with_slot(table as int, i, KvmTimerEntry::spec_empty())
                },
    {
        let mut i: usize = 0;
        let ghost view = self@;
        assert(view.tables[table as int].len() == MAX_TIMERS_PER_VCPU);
        while i < MAX_TIMERS_PER_VCPU
            invariant
                i <= MAX_TIMERS_PER_VCPU,
                table < MAX_VCPUS,
                self.wf(),
                *self == *old(self),
                view == self@,
                view.tables[table as int].len() == MAX_TIMERS_PER_VCPU,
                forall|j: int| 0 <= j < i ==> !(#[trigger] view.at(table as int, j)).due(cutoff),
            decreases MAX_TIMERS_PER_VCPU - i,
        {
            assert(view.at(table as int, i as int) == self.tables@[table as int].entries@[i as int]);
            if self.tables[table].entries[i].in_use && self.tables[table].entries[i].deadline <= cutoff {
                let ghost taken = self.tables@[table as int].entries@[i as int];
                let callback: Option<C> = self.tables[table].entries[i].callback.take();
                self.tables[table].entries[i] = KvmTimerEntry::empty();
                proof {
                    let e = KvmTimerEntry::<C>::spec_empty();
                    let emptied = view.tables[table as int].update(i as int, e);
                    assert(self.tables@[table as int].entries@ =~= emptied);
                    assert(self@.tables =~= view.tables.update(table as int, emptied));
                    assert forall|w: int, j: int| TimersView::<C>::slot(w, j) implies (#[trigger] self@.at(w, j)).in_use
                        == (self@.at(w, j).callback is Some) by {
                        assert(view.at(w, j).in_use == (view.at(w, j).callback is Some));
                    }
                    assert(view.first_due(table as int, cutoff, i as int));
                    assert(view.at(table as int, i as int).callback is Some);
                }
                return callback;
            }
            i += 1;
        }
        None
    }

    /// Cancels every timer of a VM.
    pub fn cancel_kvm_timers_for_vm(&mut self, vm_id: u64) -> (p: TimerProgram)
        requires
            old(self).wf(),
        ensures
            final(self).wf(),
            final(self)@ == old(self)@.without(|e: KvmTimerEntry<C>| e.in_use && e.vm_id == vm_id),
            final(self)@.programs(p),
    {
        let ghost before = self@;
        let ghost gone = |e: KvmTimerEntry<C>| e.in_use && e.vm_id == vm_id;
        let ghost after = before.without(gone);
        let mut v: usize = 0;
        while v < MAX_VCPUS
            invariant
                v <= MAX_VCPUS,
                self.wf(),
                before.inv(),
                self@.next_token == before.next_token,
                gone == (|e: KvmTimerEntry<C>| e.in_use && e.vm_id == vm_id),
                after == before.without(gone),
                forall|w: int, j: int|
                    TimersView::<C>::slot(w, j) ==> (#[trigger] self@.at(w, j)) == (if w < v {
                        after.at(w, j)
                    } else {
                        before.at(w, j)
                    }),
            decreases MAX_VCPUS - v,
        {
            let mut i: usize = 0;
            while i < MAX_TIMERS_PER_VCPU
                invariant
                    i <= MAX_TIMERS_PER_VCPU,
                    v < MAX_VCPUS,
                    self.wf(),
                    before.inv(),
                    self@.next_token == before.next_token,
                    gone == (|e: KvmTimerEntry<C>| e.in_use && e.vm_id == vm_id),
                    after == before.without(gone),
                    forall|w: int, j: int|
                        TimersView::<C>::slot(w, j) ==> (#[trigger] self@.at(w, j)) == (if w < v || (w == v && j < i) {
                            after.at(w, j)
                        } else {
                            before.at(w, j)
                        }),
                decreases MAX_TIMERS_PER_VCPU - i,
            {
                assert(self@.tables[v as int].len() == MAX_TIMERS_PER_VCPU);
                assert(before.tables[v as int].len() == MAX_TIMERS_PER_VCPU);
                assert(self@.at(v as int, i as int) == before.at(v as int, i as int));
                let hit: bool = self.tables[v].entries[i].in_use && self.tables[v].entries[i].vm_id == vm_id;
                if hit {
                    self.replace_slot(v, i, KvmTimerEntry::empty());
                }
                i += 1;
            }
            v += 1;
        }
        proof {
            assert forall|w: int| 0 <= w < MAX_VCPUS implies #[trigger] self@.tables[w] == after.tables[w] by {
                assert(before.tables[w].len() == MAX_TIMERS_PER_VCPU);
                assert forall|j: int| 0 <= j < MAX_TIMERS_PER_VCPU implies self@.tables[w][j] == after.tables[w][j] by {
                    assert(self@.at(w, j) == after.at(w, j));
                }
                assert(self@.tables[w] =~= after.tables[w]);
            }
            assert(self@.tables =~= after.tables);
        }
        self.reprogram_next_kvm_timer()
    }

    /// Registers a timer for a vCPU of a VM. A timer of a vCPU without a table,
    /// or one that finds no free slot anywhere, is dropped; its token is handed
    /// out all the same.
    pub fn register_kvm_timer_on_table(&mut self, vm_id: u64, vcpu_id: usize, deadline: u128, callback: C) -> (r: (
        usize,
        Option<TimerProgram>,
    ))
        requires
            old(self).wf(),
        ensures
            final(self).wf(),
            r.0 == old(self)@.fresh_token(),
            r.1 is None ==> {
                &&& final(self)@ == old(self)@.token_taken()
                &&& vcpu_id < MAX_VCPUS ==> forall|v: int| 0 <= v < MAX_VCPUS ==> #[trigger] old(self)@.full(v)
            },
            vcpu_id >= MAX_VCPUS ==> r.1 is None,
            r.1 matches Some(p) ==> {
                &&& final(self)@.programs(p)
                &&& exists|probe: int, i: int|
                    {
                        &&& #[trigger] old(self)@.register_finds(vcpu_id, probe, i)
                        &&& final(self)@ == old(self)@.token_taken().with_slot(
                            TimersView::<C>::probed(vcpu_id, probe),
                            i,
                            KvmTimerEntry {
                                in_use: true,
                                token: r.0,
                                vm_id,
                                deadline,
                                callback: Some(callback),
                            },
                        )
                    }
            },
    {
        let token: usize = if self.next_token == 0 { 1 } else { self.next_token };
        let ghost before = self@;
        if self.next_token == usize::MAX {
            self.next_token = 0;
        } else {
            self.next_token = self.next_token + 1;
        }
        proof {
            assert(self@.tables =~= before.tables);
            assert(self@ == before.token_taken());
            assert forall|w: int, j: int| TimersView::<C>::slot(w, j) implies (#[trigger] self@.at(w, j)).in_use == (
            self@.at(w, j).callback is Some) by {
                assert(before.at(w, j).in_use == (before.at(w, j).callback is Some));
            }
        }
        if vcpu_id >= MAX_VCPUS {
            return (token, None);
        }
        let ghost taken = self@;
        let mut probe: usize = 0;
        while probe < MAX_VCPUS
            invariant
                probe <= MAX_VCPUS,
                vcpu_id < MAX_VCPUS,
                self.wf(),
                self@ == taken,
                taken == before.token_taken(),
                token == before.fresh_token(),
                before == old(self)@,
                forall|k: int| 0 <= k < probe ==> before.full(#[trigger] TimersView::<C>::probed(vcpu_id, k)),
            decreases MAX_VCPUS - probe,
        {
            let table: usize = (vcpu_id + probe) % MAX_VCPUS;
            let mut i: usize = 0;
            while i < MAX_TIMERS_PER_VCPU
                invariant
                    i <= MAX_TIMERS_PER_VCPU,
                    probe < MAX_VCPUS,
                    vcpu_id < MAX_VCPUS,
                    table < MAX_VCPUS,
                    table == TimersView::<C>::probed(vcpu_id, probe as int),
                    self.wf(),
                    self@ == taken,
                    taken == before.token_taken(),
                    token == before.fresh_token(),
                    before == old(self)@,
                    forall|k: int| 0 <= k < probe ==> before.full(#[trigger] TimersView::<C>::probed(vcpu_id, k)),
                    forall|j: int| 0 <= j < i ==> (#[trigger] before.at(table as int, j)).in_use,
                decreases MAX_TIMERS_PER_VCPU - i,
            {
                assert(self@.at(table as int, i as int) == before.at(table as int, i as int));
                if !self.slot_in_use(table, i) {
                    self.replace_slot(
                        table,
                        i,
                        KvmTimerEntry { in_use: true, token, vm_id, deadline, callback: Some(callback) },
                    );
                    assert(before.register_finds(vcpu_id, probe as int, i as int));
                    let p = self.reprogram_next_kvm_timer();
                    return (token, Some(p));
                }
                i += 1;
            }
            assert(before.full(TimersView::<C>::probed(vcpu_id, probe as int)));
            probe += 1;
        }
        proof {
            assert forall|v: int| 0 <= v < MAX_VCPUS implies #[trigger] before.full(v) by {
                let k = if v >= vcpu_id {
                    v - vcpu_id
                } else {
                    v + MAX_VCPUS - vcpu_id
                };
                assert(TimersView::<C>::probed(vcpu_id, k) == v);
            }
        }
        (token, None)
    }

    fn cancel_in_table(&mut self, v: usize, token: usize) -> (found: bool)
        requires
            old(self).wf(),
            v < MAX_VCPUS,
        ensures
            final(self).wf(),
            !found ==> final(self)@ == old(self)@ && old(self)@.no_token(v as int, token),
            found ==> exists|i: int|
                {
                    &&& #[trigger] old(self)@.first_token(v as int, token, i)
                    &&& final(self)@ == old(self)@.with_slot(v as int, i, KvmTimerEntry::spec_empty())
                },
    {
        let mut i: usize = 0;
        let ghost view = self@;
        while i < MAX_TIMERS_PER_VCPU
            invariant
                i <= MAX_TIMERS_PER_VCPU,
                v < MAX_VCPUS,
                self.wf(),
                self@ == view,
                view == old(self)@,
                forall|j: int| 0 <= j < i ==> !(#[trigger] view.at(v as int, j)).has_token(token),
            decreases MAX_TIMERS_PER_VCPU - i,
        {
            assert(self@.tables[v as int].len() == MAX_TIMERS_PER_VCPU);
            assert(view.at(v as int, i as int) == self.tables@[v as int].entries@[i as int]);
            let hit: bool = self.tables[v].entries[i].in_use && self.tables[v].entries[i].token == token;
            if hit {
                assert(view.first_token(v as int, token, i as int));
                self.replace_slot(v, i, KvmTimerEntry::empty());
                return true;
            }
            i += 1;
        }
        false
    }

    /// Cancels the timer with a token, for a caller that runs as vCPU `vcpu_id`:
    /// its own table is searched first. Gives what the host timer is set to
    /// then, or nothing where no timer has the token.
    pub fn cancel_timer(&mut self, vcpu_id: usize, token: usize) -> (r: Option<TimerProgram>)
        requires
            old(self).wf(),
        ensures
            final(self).wf(),
            r is None ==> {
                &&& final(self)@ == old(self)@
                &&& forall|v: int| 0 <= v < MAX_VCPUS ==> #[trigger] old(self)@.no_token(v, token)
                &&& forall|v: int, i: int|
                    TimersView::<C>::slot(v, i) ==> !(#[trigger] old(self)@.at(v, i)).has_token(token)
            },
            r matches Some(p) ==> {
                &&& final(self)@.programs(p)
                &&& exists|v: int, i: int|
                    {
                        &&& #[trigger] old(self)@.cancel_finds(vcpu_id, token, v, i)
                        &&& final(self)@ == old(self)@.with_slot(v, i, KvmTimerEntry::spec_empty())
                    }
            },
    {
        let ghost before = self@;
        if vcpu_id < MAX_VCPUS {
            if self.cancel_in_table(vcpu_id, token) {
                proof {
                    let i = choose|i: int|
                        {
                            &&& #[trigger] before.first_token(vcpu_id as int, token, i)
                            &&& self@ == before.with_slot(vcpu_id as int, i, KvmTimerEntry::spec_empty())
                        };
                    assert(before.cancel_finds(vcpu_id, token, vcpu_id as int, i));
                }
                return Some(self.reprogram_next_kvm_timer());
            }
        }
        let mut v: usize = 0;
        while v < MAX_VCPUS
            invariant
                v <= MAX_VCPUS,
                self.wf(),
                self@ == before,
                before == old(self)@,
                vcpu_id < MAX_VCPUS ==> before.no_token(vcpu_id as int, token),
                forall|w: int| 0 <= w < v ==> #[trigger] before.no_token(w, token),
            decreases MAX_VCPUS - v,
        {
            if v != vcpu_id {
                if self.cancel_in_table(v, token) {
                    proof {
                        let i = choose|i: int|
                            {
                                &&& #[trigger] before.first_token(v as int, token, i)
                                &&& self@ == before.with_slot(v as int, i, KvmTimerEntry::spec_empty())
                            };
                        assert(before.cancel_finds(vcpu_id, token, v as int, i));
                    }
                    return Some(self.reprogram_next_kvm_timer());
                }
            }
            v += 1;
        }
        proof {
            assert forall|w: int, j: int| TimersView::<C>::slot(w, j) implies !(#[trigger] before.at(w, j)).has_token(
                token,
            ) by {
                assert(before.no_token(w, token));
            }
        }
        None
    }
}

/// A drain of due timers: the tables from `table` up to `end`, at a cutoff that
/// was frozen when the drain began.
#[derive(Clone, Copy, Debug, PartialEq, Eq, Structural)]
pub struct ExpirePass {
    pub table: usize,
    pub end: usize,
    pub cutoff: u128,
}

/// What a drain asks for next: to call the callback of a timer that was due and
/// is already out of its table, with the time `now`, or to set the host timer,
/// which ends the drain.
pub enum ExpireStep<C> {
    RunCallback { callback: C, now: u128 },
    Program(TimerProgram),
}

/// Begins a drain of one vCPU's timers; a vCPU without a table has nothing to
/// drain, and the host timer stays as it is.
pub fn expire_due_kvm_timers(vcpu_id: usize, cutoff: u128) -> (r: Option<ExpirePass>)
    ensures
        r == (if vcpu_id < MAX_VCPUS {
            Some(ExpirePass { table: vcpu_id, end: (vcpu_id + 1) as usize, cutoff })
        } else {
            None
        }),
{
    if vcpu_id >= MAX_VCPUS {
        return None;
    }
    Some(ExpirePass { table: vcpu_id, end: vcpu_id + 1, cutoff })
}

/// Begins a drain of every vCPU's timers.
pub fn expire_all_due_timers(cutoff: u128) -> (r: ExpirePass)
    ensures
        r == (ExpirePass { table: 0, end: MAX_VCPUS, cutoff }),
{
    ExpirePass { table: 0, end: MAX_VCPUS, cutoff }
}

/// Begins a drain of every vCPU's timers for a caller.
pub fn axvisor_kvm_x86_bridge_expire_all_due_timers(cutoff: u128) -> (r: ExpirePass)
    ensures
        r == (ExpirePass { table: 0, end: MAX_VCPUS, cutoff }),
{
    expire_all_due_timers(cutoff)
}

impl ExpirePass {
    /// The tables of the drain exist.
    pub open spec fn wf(self) -> bool {
        self.table <= self.end <= MAX_VCPUS
    }

    /// No table from the one that the drain is at up to another has a due timer.
    pub open spec fn passes<C>(self, t: TimersView<C>, table: usize) -> bool {
        &&& self.table <= table <= self.end
        &&& forall|v: int| self.table <= v < table ==> #[trigger] t.none_due(v, self.cutoff)
    }

    /// The drain at another table.
    pub open spec fn at_table(self, table: usize) -> ExpirePass {
        ExpirePass { table, ..self }
    }

    /// The drain takes the due timer in a slot of a table, whose callback is
    /// `callback`, and leaves the tables `left`: it is the first in table order and
    /// slot order.
    pub open spec fn takes<C>(self, t: TimersView<C>, table: usize, slot: int, callback: C, left: TimersView<C>) -> bool {
        &&& self.passes(t, table)
        &&& table < self.end
        &&& t.first_due(table as int, self.cutoff, slot)
        &&& t.at(table as int, slot).callback == Some(callback)
        &&& left == t.with_slot(table as int, slot, KvmTimerEntry::spec_empty())
    }

    /// Takes the drain to its next callback, in table order and slot order, or
    /// to its end. Every callback is called with the frozen cutoff. Timers that a
    /// callback registers are found again only where they are due at the cutoff.
    pub fn advance<C>(&mut self, timers: &mut TimerTables<C>) -> (step: ExpireStep<C>)
        requires
            old(self).wf(),
            old(timers).wf(),
        ensures
            final(self).wf(),
            final(timers).wf(),
            *final(self) == old(self).at_table(final(self).table),
            step matches ExpireStep::RunCallback { callback, now } ==> {
                &&& now == old(self).cutoff
                &&& exists|i: int|
                    {
                        &&& #[trigger] old(timers)@.first_due(final(self).table as int, old(self).cutoff, i)
                        &&& old(self).takes(old(timers)@, final(self).table, i, callback, final(timers)@)
                    }
            },
            step matches ExpireStep::Program(p) ==> {
                &&& final(self).table == final(self).end
                &&& old(self).passes(old(timers)@, old(self).end)
                &&& final(timers)@ == old(timers)@
                &&& final(timers)@.programs(p)
            },
    {
        let ghost before = timers@;
        while self.table < self.end
            invariant
                self.wf(),
                timers.wf(),
                timers@ == before,
                before == old(timers)@,
                self.end == old(self).end,
                self.cutoff == old(self).cutoff,
                old(self).table <= self.table,
                forall|v: int|
                    old(self).table <= v < self.table ==> #[trigger] before.none_due(v, old(self).cutoff),
            decreases self.end - self.table,
        {
            match timers.take_due_timer(self.table, self.cutoff) {
                Some(callback) => {
                    return ExpireStep::RunCallback { callback, now: self.cutoff };
                },
                None => {
                    self.table = self.table + 1;
                },
            }
        }
        ExpireStep::Program(timers.reprogram_next_kvm_timer())
    }
}

/// What the host timer is set to for a one-shot deadline: nothing for zero.
pub fn oneshot_program(deadline: u128) -> (r: Option<u64>)
    ensures
        r == (if deadline == 0 {
            None
        } else if deadline > u64::MAX {
            Some(u64::MAX)
        } else {
            Some(deadline as u64)
        }),
{
    let nanos: u64 = if deadline > u64::MAX as u128 { u64::MAX } else { deadline as u64 };
    if nanos != 0 {
        Some(nanos)
    } else {
        None
    }
}

/// What the host timer is set to so that an idle guest wakes for its interval
/// timer: the next deadline, unless there is none or it is zero.
pub fn arm_x86_idle_wakeup_timer(next_irq0_deadline_ns: Option<u64>) -> (r: Option<u64>)
    ensures
        r == (match next_irq0_deadline_ns {
            Some(d) if d != 0 => Some(d),
            _ => None::<u64>,
        }),
{
    match next_irq0_deadline_ns {
        None => None,
        Some(deadline_ns) => if deadline_ns == 0 {
            None
        } else {
            Some(deadline_ns)
        },
    }
}

/// The host timer's setting is determined by the timers: there is one earliest
/// deadline.
pub proof fn timer_program_is_determined<C>(t: TimersView<C>, p: TimerProgram, q: TimerProgram)
    requires
        t.programs(p),
        t.programs(q),
    ensures
        p == q,
{
}

/// A new timer keeps the tokens of all timers apart, as long as the token
/// counter does not wrap.
pub proof fn registered_tokens_stay_distinct<C>(
    t: TimersView<C>,
    vcpu_id: usize,
    probe: int,
    i: int,
    vm_id: u64,
    deadline: u128,
    callback: C,
)
    requires
        t.inv(),
        t.tokens_distinct(),
        0 < t.next_token < usize::MAX,
        vcpu_id < MAX_VCPUS,
        t.register_finds(vcpu_id, probe, i),
    ensures
        t.token_taken().with_slot(
            TimersView::<C>::probed(vcpu_id, probe),
            i,
            KvmTimerEntry { in_use: true, token: t.fresh_token(), vm_id, deadline, callback: Some(callback) },
        ).tokens_distinct(),
{
    let table = TimersView::<C>::probed(vcpu_id, probe);
    let e = KvmTimerEntry { in_use: true, token: t.fresh_token(), vm_id, deadline, callback: Some(callback) };
    let after = t.token_taken().with_slot(table, i, e);
    assert(t.tables[table].len() == MAX_TIMERS_PER_VCPU);
    assert forall|v: int, j: int| TimersView::<C>::slot(v, j) implies #[trigger] after.at(v, j) == (if v == table && j
        == i {
        e
    } else {
        t.at(v, j)
    }) by {
        assert(t.tables[v].len() == MAX_TIMERS_PER_VCPU);
    }
}

/// With tokens apart, a cancelled timer is gone: no slot holds its token any more,
/// and every other timer is untouched.
pub proof fn cancelled_timer_is_gone<C>(t: TimersView<C>, own: usize, token: usize, v: int, i: int)
    requires
        t.inv(),
        t.tokens_distinct(),
        t.cancel_finds(own, token, v, i),
    ensures
        ({
            let after = t.with_slot(v, i, KvmTimerEntry::spec_empty());
            &&& forall|w: int| 0 <= w < MAX_VCPUS ==> #[trigger] after.no_token(w, token)
            &&& forall|w: int, j: int|
                TimersView::<C>::slot(w, j) && !t.at(w, j).has_token(token) ==> #[trigger] after.at(w, j) == t.at(w, j)
        }),
{
    let after = t.with_slot(v, i, KvmTimerEntry::spec_empty());
    assert(t.tables[v].len() == MAX_TIMERS_PER_VCPU);
    assert forall|w: int, j: int| TimersView::<C>::slot(w, j) implies #[trigger] after.at(w, j) == (if w == v && j
        == i {
        KvmTimerEntry::spec_empty()
    } else {
        t.at(w, j)
    }) by {
        assert(t.tables[w].len() == MAX_TIMERS_PER_VCPU);
    }
    assert forall|w: int| 0 <= w < MAX_VCPUS implies #[trigger] after.no_token(w, token) by {
        assert forall|j: int| 0 <= j < MAX_TIMERS_PER_VCPU implies !(#[trigger] after.at(w, j)).has_token(token) by {
            if !(w == v && j == i) && t.at(w, j).has_token(token) {
                assert(t.at(v, i).token != t.at(w, j).token);
            }
        }
    }
}

/// A drain takes nothing that lies after its cutoff: a step of a drain leaves
/// every timer that is not due as it was.
pub proof fn drain_leaves_future_timers<C>(t: TimersView<C>, v: int, cutoff: u128, i: int)
    requires
        t.inv(),
        t.first_due(v, cutoff, i),
    ensures
        forall|w: int, j: int|
            TimersView::<C>::slot(w, j) && !t.at(w, j).due(cutoff) ==> #[trigger] t.with_slot(
                v,
                i,
                KvmTimerEntry::spec_empty(),
            ).at(w, j) == t.at(w, j),
{
    assert(t.tables[v].len() == MAX_TIMERS_PER_VCPU);
    let after = t.with_slot(v, i, KvmTimerEntry::spec_empty());
    assert forall|w: int, j: int| TimersView::<C>::slot(w, j) && !t.at(w, j).due(cutoff) implies #[trigger] after.at(
        w,
        j,
    ) == t.at(w, j) by {
        assert(t.tables[w].len() == MAX_TIMERS_PER_VCPU);
    }
}

/// One callback that a drain called: the slot that it came from, the tables without
/// its timer, and the tables after it returned.
pub struct DrainCall<C> {
    pub table: usize,
    pub slot: int,
    pub callback: C,
    pub left: TimersView<C>,
    pub after: TimersView<C>,
}

/// While a callback ran, timers may have come and gone, but every timer that is due
/// at the cutoff now was there before.
pub open spec fn adds_only_later<C>(before: TimersView<C>, after: TimersView<C>, cutoff: u128) -> bool {
    forall|v: int, i: int|
        TimersView::<C>::slot(v, i) && (#[trigger] after.at(v, i)).due(cutoff) ==> after.at(v, i) == before.at(v, i)
}

/// While a callback ran, no timer that is due at the cutoff was cancelled.
pub open spec fn cancels_none_due<C>(before: TimersView<C>, after: TimersView<C>, cutoff: u128) -> bool {
    forall|v: int, i: int|
        TimersView::<C>::slot(v, i) && (#[trigger] before.at(v, i)).due(cutoff) ==> after.at(v, i) == before.at(v, i)
}

/// The calls that a drain makes from the tables `t` on: each is of the timer that
/// the drain finds, which is out of its table before the callback runs.
pub open spec fn drain_calls<C>(pass: ExpirePass, t: TimersView<C>, calls: Seq<DrainCall<C>>) -> bool
    decreases calls.len(),
{
    calls.len() > 0 ==> {
        let call = calls.first();
        &&& pass.takes(t, call.table, call.slot, call.callback, call.left)
        &&& call.after.inv()
        &&& adds_only_later(call.left, call.after, pass.cutoff)
        &&& drain_calls(pass.at_table(call.table), call.after, calls.drop_first())
    }
}

/// The tables after the calls of a drain.
pub open spec fn drained<C>(t: TimersView<C>, calls: Seq<DrainCall<C>>) -> TimersView<C> {
    if calls.len() == 0 {
        t
    } else {
        calls.last().after
    }
}

/// The drain ends after its calls: it finds no other due timer.
pub open spec fn drain_ends<C>(pass: ExpirePass, t: TimersView<C>, calls: Seq<DrainCall<C>>) -> bool {
    let reached = if calls.len() == 0 {
        pass.table
    } else {
        calls.last().table
    };
    pass.at_table(reached).passes(drained(t, calls), pass.end)
}

/// No callback of a drain cancels a timer that is due at its cutoff.
pub open spec fn cancels_nothing<C>(calls: Seq<DrainCall<C>>, cutoff: u128) -> bool {
    forall|k: int|
        0 <= k < calls.len() ==> cancels_none_due((#[trigger] calls[k]).left, calls[k].after, cutoff)
}

/// How often a drain calls the callback of the timer in a slot.
pub open spec fn times_called<C>(calls: Seq<DrainCall<C>>, v: int, i: int) -> nat
    decreases calls.len(),
{
    if calls.len() == 0 {
        0
    } else {
        times_called(calls.drop_first(), v, i) + (if calls.first().table == v && calls.first().slot == i {
            1nat
        } else {
            0
        })
    }
}

proof fn lemma_taken_slot<C>(t: TimersView<C>, v: int, i: int, w: int, j: int)
    requires
        t.inv(),
        TimersView::<C>::slot(v, i),
        TimersView::<C>::slot(w, j),
    ensures
        t.with_slot(v, i, KvmTimerEntry::spec_empty()).at(w, j) == (if v == w && i == j {
            KvmTimerEntry::<C>::spec_empty()
        } else {
            t.at(w, j)
        }),
{
    assert(t.tables[v].len() == MAX_TIMERS_PER_VCPU);
    assert(t.tables[w].len() == MAX_TIMERS_PER_VCPU);
}

proof fn lemma_not_due_is_not_called<C>(pass: ExpirePass, t: TimersView<C>, calls: Seq<DrainCall<C>>, v: int, i: int)
    requires
        t.inv(),
        drain_calls(pass, t, calls),
        TimersView::<C>::slot(v, i),
        !t.at(v, i).due(pass.cutoff),
    ensures
        !drained(t, calls).at(v, i).due(pass.cutoff),
        times_called(calls, v, i) == 0,
    decreases calls.len(),
{
    if calls.len() > 0 {
        let call = calls.first();
        let rest = calls.drop_first();
        lemma_taken_slot(t, call.table as int, call.slot, v, i);
        assert(!call.after.at(v, i).due(pass.cutoff));
        lemma_not_due_is_not_called(pass.at_table(call.table), call.after, rest, v, i);
        assert(rest.len() > 0 ==> rest.last() == calls.last());
    }
}

/// A drain calls no timer's callback twice, and none that was not due when it began:
/// a timer that a callback registers for later waits for another drain.
pub proof fn drain_calls_no_timer_twice<C>(pass: ExpirePass, t: TimersView<C>, calls: Seq<DrainCall<C>>, v: int, i: int)
    requires
        pass.wf(),
        t.inv(),
        drain_calls(pass, t, calls),
        TimersView::<C>::slot(v, i),
    ensures
        times_called(calls, v, i) <= 1,
        times_called(calls, v, i) == 1 ==> t.at(v, i).due(pass.cutoff) && pass.table <= v < pass.end,
    decreases calls.len(),
{
    if !t.at(v, i).due(pass.cutoff) {
        lemma_not_due_is_not_called(pass, t, calls, v, i);
    } else if calls.len() > 0 {
        let call = calls.first();
        let rest = calls.drop_first();
        let next = pass.at_table(call.table);
        lemma_taken_slot(t, call.table as int, call.slot, v, i);
        if call.table == v && call.slot == i {
            assert(!call.after.at(v, i).due(pass.cutoff));
            lemma_not_due_is_not_called(next, call.after, rest, v, i);
        } else {
            drain_calls_no_timer_twice(next, call.after, rest, v, i);
        }
    }
}

/// Where callbacks register only timers that are due after the cutoff, no table of
/// a drain has a timer that is due at the cutoff when the drain ends.
pub proof fn drain_leaves_nothing_due<C>(pass: ExpirePass, t: TimersView<C>, calls: Seq<DrainCall<C>>, v: int, i: int)
    requires
        pass.wf(),
        t.inv(),
        drain_calls(pass, t, calls),
        drain_ends(pass, t, calls),
        pass.table <= v < pass.end,
        TimersView::<C>::slot(v, i),
    ensures
        !drained(t, calls).at(v, i).due(pass.cutoff),
    decreases calls.len(),
{
    if !t.at(v, i).due(pass.cutoff) {
        lemma_not_due_is_not_called(pass, t, calls, v, i);
    } else if calls.len() == 0 {
        assert(t.none_due(v, pass.cutoff));
    } else {
        let call = calls.first();
        let rest = calls.drop_first();
        let next = pass.at_table(call.table);
        assert(rest.len() > 0 ==> rest.last() == calls.last());
        if v < call.table {
            assert(t.none_due(v, pass.cutoff));
        }
        drain_leaves_nothing_due(next, call.after, rest, v, i);
    }
}

/// Where callbacks moreover cancel no timer that is due, a drain calls the callback
/// of every timer in its tables that was due when it began exactly once, and no
/// other.
pub proof fn drain_calls_every_due_timer_once<C>(
    pass: ExpirePass,
    t: TimersView<C>,
    calls: Seq<DrainCall<C>>,
    v: int,
    i: int,
)
    requires
        pass.wf(),
        t.inv(),
        drain_calls(pass, t, calls),
        drain_ends(pass, t, calls),
        cancels_nothing(calls, pass.cutoff),
        TimersView::<C>::slot(v, i),
    ensures
        times_called(calls, v, i) == (if pass.table <= v < pass.end && t.at(v, i).due(pass.cutoff) {
            1nat
        } else {
            0
        }),
    decreases calls.len(),
{
    drain_calls_no_timer_twice(pass, t, calls, v, i);
    if pass.table <= v < pass.end && t.at(v, i).due(pass.cutoff) {
        if calls.len() == 0 {
            assert(t.none_due(v, pass.cutoff));
        } else {
            let call = calls.first();
            let rest = calls.drop_first();
            let next = pass.at_table(call.table);
            lemma_taken_slot(t, call.table as int, call.slot, v, i);
            assert(rest.len() > 0 ==> rest.last() == calls.last());
            if v < call.table {
                assert(t.none_due(v, pass.cutoff));
            }
            if !(call.table == v && call.slot == i) {
                assert(cancels_none_due(calls[0].left, calls[0].after, pass.cutoff));
                assert forall|k: int| 0 <= k < rest.len() implies cancels_none_due(
                    (#[trigger] rest[k]).left,
                    rest[k].after,
                    pass.cutoff,
                ) by {
                    assert(rest[k] == calls[k + 1]);
                }
                drain_calls_every_due_timer_once(next, call.after, rest, v, i);
            }
        }
    }
}

proof fn lemma_call_slot<C>(pass: ExpirePass, t: TimersView<C>, calls: Seq<DrainCall<C>>, k: int)
    requires
        drain_calls(pass, t, calls),
        0 <= k < calls.len(),
    ensures
        TimersView::<C>::slot(calls[k].table as int, calls[k].slot),
    decreases calls.len(),
{
    if k > 0 {
        let rest = calls.drop_first();
        assert(rest[k - 1] == calls[k]);
        lemma_call_slot(pass.at_table(calls.first().table), calls.first().after, rest, k - 1);
    }
}

/// What a drain calls is what was registered: each call is of the callback that the
/// slot's timer had when the drain began.
pub proof fn drain_calls_what_was_registered<C>(pass: ExpirePass, t: TimersView<C>, calls: Seq<DrainCall<C>>, k: int)
    requires
        t.inv(),
        drain_calls(pass, t, calls),
        0 <= k < calls.len(),
    ensures
        t.at(calls[k].table as int, calls[k].slot).callback == Some(calls[k].callback),
        t.at(calls[k].table as int, calls[k].slot).due(pass.cutoff),
    decreases calls.len(),
{
    if k > 0 {
        let call = calls.first();
        let rest = calls.drop_first();
        let found = calls[k];
        assert(rest[k - 1] == found);
        drain_calls_what_was_registered(pass.at_table(call.table), call.after, rest, k - 1);
        lemma_call_slot(pass.at_table(call.table), call.after, rest, k - 1);
        assert(call.after.at(found.table as int, found.slot).due(pass.cutoff));
        lemma_taken_slot(t, call.table as int, call.slot, found.table as int, found.slot);
    }
}

/// The slots that hold a due timer, numbered through all tables.
pub open spec fn due_slots<C>(t: TimersView<C>, cutoff: u128) -> Set<int> {
    Set::new(
        |n: int|
            0 <= n < MAX_VCPUS * MAX_TIMERS_PER_VCPU && t.at(
                n / (MAX_TIMERS_PER_VCPU as int),
                n % (MAX_TIMERS_PER_VCPU as int),
            ).due(cutoff),
    )
}

proof fn lemma_due_slots_finite<C>(t: TimersView<C>, cutoff: u128)
    ensures
        due_slots(t, cutoff).finite(),
        due_slots(t, cutoff).len() <= MAX_VCPUS * MAX_TIMERS_PER_VCPU,
{
    let all = set_int_range(0, MAX_VCPUS * MAX_TIMERS_PER_VCPU);
    lemma_int_range(0, MAX_VCPUS * MAX_TIMERS_PER_VCPU);
    assert(due_slots(t, cutoff).subset_of(all));
    lemma_len_subset(due_slots(t, cutoff), all);
}

/// A drain makes no more calls than timers were due when it began, whatever its
/// callbacks register for later: it comes to an end.
pub proof fn drain_is_bounded<C>(pass: ExpirePass, t: TimersView<C>, calls: Seq<DrainCall<C>>)
    requires
        t.inv(),
        drain_calls(pass, t, calls),
    ensures
        calls.len() <= due_slots(t, pass.cutoff).len() <= MAX_VCPUS * MAX_TIMERS_PER_VCPU,
    decreases calls.len(),
{
    lemma_due_slots_finite(t, pass.cutoff);
    if calls.len() > 0 {
        let call = calls.first();
        let v = call.table as int;
        let n = v * MAX_TIMERS_PER_VCPU + call.slot;
        let before = due_slots(t, pass.cutoff);
        let after = due_slots(call.after, pass.cutoff);
        assert(before.contains(n));
        assert forall|m: int| after.contains(m) implies before.remove(n).contains(m) by {
            let w = m / (MAX_TIMERS_PER_VCPU as int);
            let j = m % (MAX_TIMERS_PER_VCPU as int);
            assert(TimersView::<C>::slot(w, j));
            assert(call.after.at(w, j).due(pass.cutoff));
            lemma_taken_slot(t, v, call.slot, w, j);
        }
        lemma_due_slots_finite(call.after, pass.cutoff);
        lemma_len_subset(after, before.remove(n));
        drain_is_bounded(pass.at_table(call.table), call.after, calls.drop_first());
    }
}

/// Once a VM's timers are cancelled none of its timers is left, and the timers of
/// other VMs are untouched.
pub proof fn cancelled_vm_has_no_timers<C>(t: TimersView<C>, vm_id: u64, v: int, i: int)
    requires
        t.inv(),
        TimersView::<C>::slot(v, i),
    ensures
        ({
            let after = t.without(|e: KvmTimerEntry<C>| e.in_use && e.vm_id == vm_id);
            &&& !(after.at(v, i).in_use && after.at(v, i).vm_id == vm_id)
            &&& t.at(v, i).in_use && t.at(v, i).vm_id != vm_id ==> after.at(v, i) == t.at(v, i)
        }),
{
    assert(t.tables[v].len() == MAX_TIMERS_PER_VCPU);
}

} // verus!
