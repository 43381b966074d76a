//! Memory that each CPU has for itself.
use vstd::prelude::*;

use crate::laws::codes::{invalid, no_memory};
use crate::percpu_area::{
    align_up, aligned_is_the_least_multiple, every_slot_holds_the_template, percpu_backing, slot_size_for, PercpuArea,
    PercpuPlan,
};

verus! {

/// Rounding up gives the least multiple that is not below.
pub proof fn rounded_up_is_the_least_multiple(value: usize, align: usize, r: usize)
    requires
        align > 0,
        value + align <= usize::MAX,
        call_ensures(align_up, (value, align), r),
    ensures
        r as int % align as int == 0,
        value <= r < value + align,
{
    aligned_is_the_least_multiple(value as int, align as int);
}

/// A slot is large enough for the template, at least 64 bytes and a multiple of 64, and no
/// larger than it has to be.
pub open spec fn right_size(slot: int, template: int) -> bool {
    slot % 64 == 0 && slot >= 64 && template <= slot && (slot < template + 64 || slot == 64)
}

/// Slots are planned for every CPU of the host, at least one, unless they are there already; a
/// template that ends before it begins is refused, and so are slots that no memory could hold.
pub proof fn slots_are_planned_for_every_cpu(
    area: &PercpuArea,
    start: usize,
    end: usize,
    cpus: usize,
    r: Result<Option<PercpuPlan>, i32>,
)
    requires
        end - start <= usize::MAX - 64,
        call_ensures(PercpuArea::init_axvisor_percpu_backing, (area, start, end, cpus), r),
    ensures
        area.base != 0 ==> r == Ok::<Option<PercpuPlan>, i32>(None),
        area.base == 0 && end < start ==> r == Err::<Option<PercpuPlan>, i32>(invalid()),
        area.base == 0 && end >= start ==> match r {
            Ok(Some(p)) => {
                &&& p.template_size == end - start
                &&& right_size(p.slot_size as int, end - start)
                &&& cpus > 0 ==> p.cpu_count == cpus
                &&& cpus == 0 ==> p.cpu_count == 1
                &&& p.total_size == p.slot_size * p.cpu_count
            },
            Err(e) => e == no_memory() && exists|slot: int|
                #[trigger] right_size(slot, end - start) && slot * (if cpus == 0 {
                    1
                } else {
                    cpus as int
                }) > usize::MAX,
            _ => false,
        },
{
    if area.base == 0 && end >= start {
        let size = end - start;
        aligned_is_the_least_multiple(
            if size == 0 {
                1
            } else {
                size as int
            },
            64,
        );
        let slot = slot_size_for(size as int);
        assert(right_size(slot, size as int));
        let n = if cpus == 0 {
            1
        } else {
            cpus as int
        };
        if slot * n > usize::MAX {
            assert(right_size(slot, end - start) && slot * n > usize::MAX);
        } else {
            assert(slot <= slot * n) by (nonlinear_arith)
                requires
                    slot >= 0,
                    n >= 1,
            ;
        }
    }
}

/// Slots are set up where their memory is, with the plan's size and number; without memory
/// nothing changes.
pub proof fn slots_are_set_up_as_planned(area: &mut PercpuArea, plan: PercpuPlan, base: Option<usize>, r: Result<(), i32>)
    requires
        old(area).wf(),
        call_ensures(PercpuArea::install, (area, plan, base), r),
    ensures
        base matches Some(b) ==> {
            &&& r is Ok
            &&& final(area).base == b
            &&& final(area).slot_size == plan.slot_size
            &&& final(area).cpu_count == plan.cpu_count
        },
        base is None ==> r == Err::<(), i32>(no_memory()) && *final(area) == *old(area),
{
}

/// The slot of a CPU begins as many slots after the base as there are CPUs before it; a CPU
/// without a slot has none.
pub proof fn slot_begins_after_those_before(area: &PercpuArea, cpu: usize, r: usize, next: usize, fresh: PercpuArea)
    requires
        area.wf(),
        cpu < usize::MAX,
        call_ensures(PercpuArea::_percpu_base_ptr, (area, cpu), r),
        call_ensures(PercpuArea::_percpu_base_ptr, (area, (cpu + 1) as usize), next),
        call_ensures(PercpuArea::new, (), fresh),
    ensures
        area.base == 0 || area.slot_size == 0 || cpu >= area.cpu_count ==> r == 0,
        area.base != 0 && area.slot_size != 0 && cpu < area.cpu_count ==> {
            &&& cpu == 0 ==> r == area.base
            &&& cpu + 1 < area.cpu_count ==> next == r + area.slot_size
        },
        fresh.base == 0 && fresh.cpu_count == 0,
{
    let s = area.slot_size as int;
    let c = cpu as int;
    assert((c + 1) * s == c * s + s) by (nonlinear_arith);
    assert(0 * s == 0);
}

/// The memory of all slots holds the template at the start of every slot, and zeros behind it.
pub proof fn every_slot_begins_with_the_template(template: &[u8], plan: PercpuPlan, backing: Vec<u8>, cpu: int, i: int)
    requires
        crate::percpu_area::plan_ok(plan),
        template@.len() == plan.template_size,
        call_ensures(percpu_backing, (template, plan), backing),
        0 <= cpu < plan.cpu_count,
        0 <= i < plan.slot_size,
    ensures
        backing@.len() == plan.slot_size * plan.cpu_count,
        0 <= cpu * plan.slot_size + i < backing@.len(),
        backing@[cpu * plan.slot_size + i] == (if i < template@.len() {
            template@[i]
        } else {
            0
        }),
{
    let s = plan.slot_size as int;
    aligned_is_the_least_multiple(
        if plan.template_size == 0 {
            1
        } else {
            plan.template_size as int
        },
        64,
    );
    every_slot_holds_the_template(template@, s, plan.cpu_count as nat, cpu);
    assert((cpu + 1) * s == cpu * s + s) by (nonlinear_arith);
    let slot = backing@.subrange(cpu * s, (cpu + 1) * s);
    assert(slot[i] == backing@[cpu * s + i]);
}

} // verus!
