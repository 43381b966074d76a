//! Memory that each CPU has for itself: one slot for each CPU, filled from a
//! template.
use vstd::prelude::*;

use crate::errno::{EINVAL, ENOMEM};

verus! {

/// Slots begin at multiples of this.
pub const PERCPU_SLOT_ALIGN: usize = 64;

/// The least multiple of `align` that is not below `value`.
pub open spec fn aligned(value: int, align: int) -> int {
    (value + align - 1) / align * align
}

/// The least multiple of `align` that is not below `value`.
pub fn align_up(value: usize, align: usize) -> (r: usize)
    requires
        align > 0,
        value + align <= usize::MAX,
    ensures
        r == aligned(value as int, align as int),
{
    let groups: usize = (value + (align - 1)) / align;
    proof {
        vstd::arithmetic::div_mod::lemma_fundamental_div_mod(value + align - 1, align as int);
        vstd::arithmetic::mul::lemma_mul_is_commutative(groups as int, align as int);
        vstd::arithmetic::div_mod::lemma_div_pos_is_pos(value + align - 1, align as int);
        vstd::arithmetic::mul::lemma_mul_nonnegative(groups as int, align as int);
    }
    groups * align
}

/// Rounding up gives a multiple that is not below the value, by less than the
/// alignment.
pub proof fn aligned_is_the_least_multiple(value: int, align: int)
    requires
        value >= 0,
        align > 0,
    ensures
        aligned(value, align) % align == 0,
        value <= aligned(value, align) < value + align,
{
    let q = (value + align - 1) / align;
    vstd::arithmetic::div_mod::lemma_fundamental_div_mod(value + align - 1, align);
    vstd::arithmetic::mul::lemma_mul_is_commutative(q, align);
    vstd::arithmetic::div_mod::lemma_mod_multiples_basic(q, align);
}

/// Where the slots are.
#[derive(Clone, Copy, Debug, PartialEq, Eq, Structural)]
pub struct PercpuArea {
    /// Zero before the slots are set up.
    pub base: usize,
    pub slot_size: usize,
    pub cpu_count: usize,
}

/// How large the slots are to be.
#[derive(Clone, Copy, Debug, PartialEq, Eq, Structural)]
pub struct PercpuPlan {
    pub template_size: usize,
    pub slot_size: usize,
    pub cpu_count: usize,
    pub total_size: usize,
}

/// The size of a slot for a template.
pub open spec fn slot_size_for(template_size: int) -> int {
    aligned(
        if template_size == 0 {
            1
        } else {
            template_size
        },
        PERCPU_SLOT_ALIGN as int,
    )
}

/// A plan has the right slot size, and some CPU.
pub open spec fn plan_ok(plan: PercpuPlan) -> bool {
    &&& plan.slot_size == slot_size_for(plan.template_size as int)
    &&& plan.cpu_count > 0
    &&& plan.total_size == plan.slot_size * plan.cpu_count
}

/// A slot with the template at its start and zeros behind.
pub open spec fn slot_bytes(template: Seq<u8>, slot_size: int) -> Seq<u8> {
    Seq::new(
        slot_size as nat,
        |i: int|
            if i < template.len() {
                template[i]
            } else {
                0u8
            },
    )
}

/// So many slots, one after the other.
pub open spec fn slots_bytes(template: Seq<u8>, slot_size: int, count: nat) -> Seq<u8>
    decreases count,
{
    if count == 0 {
        seq![]
    } else {
        slots_bytes(template, slot_size, (count - 1) as nat) + slot_bytes(template, slot_size)
    }
}

impl PercpuArea {
    /// The slots are within memory.
    pub open spec fn wf(&self) -> bool {
        self.base != 0 ==> self.base + self.slot_size * self.cpu_count <= usize::MAX
    }

    /// No slots yet.
    pub fn new() -> (a: PercpuArea)
        ensures
            a == (PercpuArea { base: 0, slot_size: 0, cpu_count: 0 }),
            a.wf(),
    {
        PercpuArea { base: 0, slot_size: 0, cpu_count: 0 }
    }

    /// Plans the slots for a template between two addresses, for a host with so many
    /// CPUs. There is no plan where the slots are set up already.
    pub fn init_axvisor_percpu_backing(&self, template_start: usize, template_end: usize, host_cpu_num: usize) -> (r: Result<
        Option<PercpuPlan>,
        i32,
    >)
        requires
            template_end - template_start <= usize::MAX - 64,
        ensures
            self.base != 0 ==> r == Ok::<Option<PercpuPlan>, i32>(None),
            self.base == 0 && template_end < template_start ==> r == Err::<Option<PercpuPlan>, i32>((-EINVAL) as i32),
            self.base == 0 && template_end >= template_start ==> {
                let cpus = if host_cpu_num == 0 {
                    1
                } else {
                    host_cpu_num as int
                };
                let slot = slot_size_for(template_end - template_start);
                if slot * cpus > usize::MAX {
                    r == Err::<Option<PercpuPlan>, i32>((-ENOMEM) as i32)
                } else {
                    r == Ok::<Option<PercpuPlan>, i32>(
                        Some(
                            PercpuPlan {
                                template_size: (template_end - template_start) as usize,
                                slot_size: slot as usize,
                                cpu_count: cpus as usize,
                                total_size: (slot * cpus) as usize,
                            },
                        ),
                    )
                }
            },
            r matches Ok(Some(plan)) ==> plan_ok(plan),
    {
        if self.base != 0 {
            return Ok(None);
        }
        if template_end < template_start {
            return Err(-EINVAL);
        }
        let template_size: usize = template_end - template_start;
        let least: usize = if template_size == 0 {
            1
        } else {
            template_size
        };
        let slot_size: usize = align_up(least, PERCPU_SLOT_ALIGN);
        let cpu_count: usize = if host_cpu_num == 0 {
            1
        } else {
            host_cpu_num
        };
        match slot_size.checked_mul(cpu_count) {
            None => Err(-ENOMEM),
            Some(total_size) => Ok(Some(PercpuPlan { template_size, slot_size, cpu_count, total_size })),
        }
    }

    /// Sets the slots up where their memory was found; without memory it is an error.
    pub fn install(&mut self, plan: PercpuPlan, base: Option<usize>) -> (r: Result<(), i32>)
        requires
            old(self).wf(),
            plan_ok(plan),
            base matches Some(b) ==> b != 0 && b + plan.total_size <= usize::MAX,
        ensures
            final(self).wf(),
            match base {
                Some(b) => r == Ok::<(), i32>(()) && *final(self) == (PercpuArea {
                    base: b,
                    slot_size: plan.slot_size,
                    cpu_count: plan.cpu_count,
                }),
                None => r == Err::<(), i32>((-ENOMEM) as i32) && *final(self) == *old(self),
            },
    {
        match base {
            None => Err(-ENOMEM),
            Some(b) => {
                self.slot_size = plan.slot_size;
                self.cpu_count = plan.cpu_count;
                self.base = b;
                Ok(())
            },
        }
    }

    /// Where the slot of a CPU begins; zero where it has none.
    pub fn _percpu_base_ptr(&self, cpu_idx: usize) -> (r: usize)
        requires
            self.wf(),
        ensures
            r == (if self.base == 0 || self.slot_size == 0 || cpu_idx >= self.cpu_count {
                0
            } else {
                self.base + cpu_idx * self.slot_size
            }),
    {
        if self.base == 0 || self.slot_size == 0 || cpu_idx >= self.cpu_count {
            return 0;
        }
        proof {
            let n = self.cpu_count as int;
            let s = self.slot_size as int;
            let c = cpu_idx as int;
            assert(c * s <= s * n) by (nonlinear_arith)
                requires
                    0 <= c < n,
                    s > 0,
            ;
            assert(c * s >= 0) by (nonlinear_arith)
                requires
                    0 <= c,
                    s > 0,
            ;
        }
        self.base + cpu_idx * self.slot_size
    }
}

/// The bytes of all slots.
pub fn percpu_backing(template: &[u8], plan: PercpuPlan) -> (backing: Vec<u8>)
    requires
        plan_ok(plan),
        template@.len() == plan.template_size,
    ensures
        backing@ == slots_bytes(template@, plan.slot_size as int, plan.cpu_count as nat),
        backing@.len() == plan.total_size,
{
    proof {
        aligned_is_the_least_multiple(
            if plan.template_size == 0 {
                1
            } else {
                plan.template_size as int
            },
            PERCPU_SLOT_ALIGN as int,
        );
    }
    let mut backing: Vec<u8> = Vec::new();
    let mut cpu: usize = 0;
    while cpu < plan.cpu_count
        invariant
            cpu <= plan.cpu_count,
            template@.len() <= plan.slot_size,
            backing@ == slots_bytes(template@, plan.slot_size as int, cpu as nat),
        decreases plan.cpu_count - cpu,
    {
        let ghost whole = backing@;
        let mut at: usize = 0;
        while at < plan.slot_size
            invariant
                at <= plan.slot_size,
                template@.len() <= plan.slot_size,
                backing@ == whole + slot_bytes(template@, plan.slot_size as int).take(at as int),
            decreases plan.slot_size - at,
        {
            let byte: u8 = if at < template.len() {
                template[at]
            } else {
                0
            };
            backing.push(byte);
            at += 1;
            assert(backing@ =~= whole + slot_bytes(template@, plan.slot_size as int).take(at as int));
        }
        assert(slot_bytes(template@, plan.slot_size as int).take(plan.slot_size as int) =~= slot_bytes(
            template@,
            plan.slot_size as int,
        ));
        cpu += 1;
    }
    proof {
        lemma_slots_len(template@, plan.slot_size as int, plan.cpu_count as nat);
        vstd::arithmetic::mul::lemma_mul_is_commutative(plan.slot_size as int, plan.cpu_count as int);
    }
    backing
}

proof fn lemma_slots_len(template: Seq<u8>, slot_size: int, count: nat)
    requires
        slot_size >= 0,
    ensures
        slots_bytes(template, slot_size, count).len() == count * slot_size,
    decreases count,
{
    if count > 0 {
        lemma_slots_len(template, slot_size, (count - 1) as nat);
        assert(count * slot_size == (count - 1) * slot_size + slot_size) by (nonlinear_arith);
    } else {
        assert(count * slot_size == 0) by (nonlinear_arith)
            requires
                count == 0,
        ;
    }
}

/// The slot of each CPU holds the template, whatever the number of CPUs.
pub proof fn every_slot_holds_the_template(template: Seq<u8>, slot_size: int, count: nat, cpu: int)
    requires
        0 <= template.len() <= slot_size,
        0 <= cpu < count,
    ensures
        0 <= cpu * slot_size <= (cpu + 1) * slot_size <= slots_bytes(template, slot_size, count).len(),
        slots_bytes(template, slot_size, count).subrange(cpu * slot_size, (cpu + 1) * slot_size) == slot_bytes(
            template,
            slot_size,
        ),
    decreases count,
{
    let all = slots_bytes(template, slot_size, count);
    let rest = slots_bytes(template, slot_size, (count - 1) as nat);
    lemma_slots_len(template, slot_size, count);
    lemma_slots_len(template, slot_size, (count - 1) as nat);
    assert(0 <= cpu * slot_size <= (cpu + 1) * slot_size <= count * slot_size) by (nonlinear_arith)
        requires
            0 <= cpu < count,
            slot_size >= 0,
    ;
    if cpu < count - 1 {
        every_slot_holds_the_template(template, slot_size, (count - 1) as nat, cpu);
        assert(all.subrange(cpu * slot_size, (cpu + 1) * slot_size) =~= rest.subrange(
            cpu * slot_size,
            (cpu + 1) * slot_size,
        ));
    } else {
        assert((cpu + 1) * slot_size == cpu * slot_size + slot_size) by (nonlinear_arith);
        assert(rest.len() == cpu * slot_size);
        assert(all.subrange(cpu * slot_size, (cpu + 1) * slot_size) =~= slot_bytes(template, slot_size));
    }
}

/// The slots of two CPUs do not overlap, and lie within the area.
pub proof fn slots_are_disjoint(area: PercpuArea, a: usize, b: usize)
    requires
        area.wf(),
        area.base != 0,
        a < b < area.cpu_count,
    ensures
        area.base + a * area.slot_size + area.slot_size <= area.base + b * area.slot_size,
        area.base + b * area.slot_size + area.slot_size <= area.base + area.slot_size * area.cpu_count,
{
    let s = area.slot_size as int;
    let n = area.cpu_count as int;
    let x = a as int;
    let y = b as int;
    assert(x * s + s <= y * s && y * s + s <= s * n) by (nonlinear_arith)
        requires
            0 <= x < y < n,
            s >= 0,
    ;
}

} // verus!
