//! What a boot hands the machine, and in which order.
use vstd::prelude::*;

use crate::boot::{
    apply_from, apply_ioapic_redirection_table, apply_vm_vcpu_states_for_boot, axvisor_kvm_rs_boot_vm,
    replay_page_mappings, replay_passes_over_other_vms_only,
    vcpu_state_for_machine, BootStep, BootVm,
};
use crate::env::Backend;
use crate::host::HostReply;
use crate::laws::codes::invalid;
use crate::laws::snapshot::same_segment;
use crate::percpu::{enter_percpu_resume, EnterStep, PercpuTable};
use crate::snapshot::X86KvmVcpuState;
use crate::state::{BackendVm, Bridge, BridgeView, PageMapping};
use crate::vm::{map_page_into_axvm, MapRegion};

verus! {

/// A region that maps one recorded page: at its guest address, to its host address,
/// one page long, and writable unless one of the two read-only bits is set.
pub open spec fn maps_the_page(region: MapRegion, gpa: u64, hpa: u64, flags: u32) -> bool {
    &&& region.gpa.0 == gpa
    &&& region.hpa == hpa
    &&& region.size == 4096
    &&& region.flags.write <==> flags & 0x8000_0000u32 == 0 && flags & 0x2u32 == 0
    &&& region.flags.read && region.flags.execute && region.flags.user
    &&& !region.flags.device && !region.flags.uncached
}

/// The region for a page maps that page.
pub proof fn region_maps_its_page(gpa: u64, hpa: u64, flags: u32, region: MapRegion)
    requires
        call_ensures(map_page_into_axvm, (gpa, hpa, flags), region),
    ensures
        maps_the_page(region, gpa, hpa, flags),
{
    lemma_read_only(flags);
}

pub(crate) proof fn lemma_read_only(flags: u32)
    by (bit_vector)
    ensures
        (flags & 0x8000_0000u32 == 0 && flags & 0x2u32 == 0) == !(flags >= 0x8000_0000 || (flags / 2) % 2 == 1),
{
}

/// Whether a record is of a page of a VM.
pub open spec fn page_of(m: PageMapping, h: u64) -> bool {
    m.in_use && m.vm_handle == h
}

/// A step turns to the VM's lowest recorded page from a position on, or, where there
/// is none from there on, past the pages.
pub open spec fn turns_to_page(step: BootStep, pages: Seq<PageMapping>, h: u64, from: int) -> bool {
    match step {
        BootStep::MapPage { index, region } => {
            &&& from <= index < pages.len()
            &&& page_of(pages[index as int], h)
            &&& forall|i: int| from <= i < index ==> !page_of(#[trigger] pages[i], h)
            &&& maps_the_page(region, pages[index as int].gpa, pages[index as int].hpa, pages[index as int].flags)
        },
        BootStep::CurrentTask => forall|i: int| from <= i < pages.len() ==> !page_of(#[trigger] pages[i], h),
        _ => false,
    }
}

proof fn lemma_turns_to_page(b: BridgeView, h: u64, from: int)
    requires
        b.shaped(),
        0 <= from <= b.mappings.len(),
    ensures
        turns_to_page(crate::boot::replay_from(b, h, from), b.mappings, h, from),
{
    replay_passes_over_other_vms_only(b, h, from);
    let step = crate::boot::replay_from(b, h, from);
    if let BootStep::MapPage { index, region } = step {
        lemma_read_only(b.mappings[index as int].flags);
        assert forall|i: int| from <= i < index implies !page_of(#[trigger] b.mappings[i], h) by {
            assert(!b.mappings[i].of(h));
        }
    } else {
        assert forall|i: int| from <= i < b.mappings.len() implies !page_of(#[trigger] b.mappings[i], h) by {
            assert(!b.mappings[i].of(h));
        }
    }
}

/// The search for a VM's next page finds the lowest one from a position on.
pub proof fn next_page_is_the_lowest(b: &Bridge, h: u64, from: usize, step: BootStep)
    requires
        b.wf(),
        from <= 262_144,
        call_ensures(replay_page_mappings, (b, h, from), step),
    ensures
        turns_to_page(step, b.mappings@, h, from as int),
{
    lemma_turns_to_page(b@, h, from as int);
}

/// Once the machine is created it is asked to map the VM's first recorded page, and
/// after each page that it mapped the next one: the boot goes on only where no
/// recorded page of the VM is left. A page that it refuses ends the boot.
pub proof fn boot_maps_every_recorded_page(m: &mut BootVm, env: &mut Backend, reply: HostReply)
    requires
        old(m).wf(),
        old(env).wf(),
        call_ensures(BootVm::resume, (m, env, reply), ()),
        old(m).step is Create || old(m).step is MapPage,
    ensures
        final(env)@ == old(env)@,
        final(m).backend_vm == old(m).backend_vm,
        reply == HostReply::Outcome(Ok(())) ==> turns_to_page(
            final(m).step,
            old(env).bridge.mappings@,
            old(m).backend_vm,
            match old(m).step {
                BootStep::MapPage { index, region } => index + 1,
                _ => 0,
            },
        ),
        reply matches HostReply::Outcome(Err(err)) ==> final(m).step == BootStep::Done(err),
        !(reply is Outcome) ==> final(m).step == old(m).step,
{
    let from = match old(m).step {
        BootStep::MapPage { index, region } => index + 1,
        _ => 0,
    };
    lemma_turns_to_page(old(env)@.bridge, old(m).backend_vm, from);
}

/// A step turns to the VM's lowest vCPU from a position on whose state changed, or,
/// where there is none from there on, past the states: then to the first pin of the
/// redirection table, unless the VM is gone.
pub open spec fn turns_to_state(step: BootStep, b: BridgeView, h: u64, from: int) -> bool {
    match step {
        BootStep::ApplyState { slot, vcpu_id } => {
            &&& from <= slot < 64
            &&& b.vcpus[slot as int].in_use && b.vcpus[slot as int].vm_handle == h && b.vcpus[slot as int].state_dirty
            &&& vcpu_id == b.vcpus[slot as int].id
            &&& forall|i: int|
                from <= i < slot ==> !((#[trigger] b.vcpus[i]).in_use && b.vcpus[i].vm_handle == h
                    && b.vcpus[i].state_dirty)
        },
        _ => {
            &&& forall|i: int|
                from <= i < 64 ==> !((#[trigger] b.vcpus[i]).in_use && b.vcpus[i].vm_handle == h
                    && b.vcpus[i].state_dirty)
            &&& if b.vms[h - 1].in_use {
                turns_to_pin(step, b.vms[h - 1], 0)
            } else {
                step == (BootStep::Leave { ret: invalid() })
            }
        },
    }
}

/// A step sets the entry of a pin to the one that the VM has for it, for as many pins
/// as the VM has entries, at most 24 and none without interrupt chips; past them the
/// machine is started.
pub open spec fn turns_to_pin(step: BootStep, vm: BackendVm, from: int) -> bool {
    match step {
        BootStep::SetRedirection { pin, entry } => {
            &&& vm.irqchip_created
            &&& pin == from
            &&& from < 24 && from < vm.ioapic_redirtbl_count
            &&& entry == vm.ioapic_redirtbl@[from]
        },
        _ => {
            &&& step == BootStep::BootMachine
            &&& !vm.irqchip_created || from >= 24 || from >= vm.ioapic_redirtbl_count
        },
    }
}

proof fn lemma_turns_to_state(b: BridgeView, h: u64, from: int)
    requires
        b.shaped(),
        1 <= h <= 16,
        0 <= from <= 64,
    ensures
        turns_to_state(apply_from(b, h, from), b, h, from),
    decreases 64 - from,
{
    if from < 64 && !(b.vcpus[from].of(h) && b.vcpus[from].state_dirty) {
        lemma_turns_to_state(b, h, from + 1);
    }
}

/// The search for a changed state finds the lowest one from a position on.
pub proof fn next_state_is_the_lowest(b: &Bridge, h: u64, from: usize, step: BootStep)
    requires
        b.wf(),
        1 <= h <= 16,
        from <= 64,
        call_ensures(apply_vm_vcpu_states_for_boot, (b, h, from), step),
    ensures
        turns_to_state(step, b@, h, from as int),
{
    lemma_turns_to_state(b@, h, from as int);
}

/// The search for a pin's entry takes the pins in order.
pub proof fn next_pin_has_its_entry(vm: &BackendVm, pin: usize, step: BootStep)
    requires
        call_ensures(apply_ioapic_redirection_table, (vm, pin), step),
    ensures
        turns_to_pin(step, *vm, pin as int),
{
}

/// Once the machine is set up it is handed every changed state of the VM's vCPUs, in
/// order, and a state that it took has not changed any more; then every redirection
/// entry of the VM, in order; and only then it is started. What it refuses ends the
/// boot, and a state that it refused stays changed.
pub proof fn boot_hands_over_every_state(m: &mut BootVm, env: &mut Backend, reply: HostReply)
    requires
        old(m).wf(),
        old(env).wf(),
        call_ensures(BootVm::resume, (m, env, reply), ()),
    ensures
        old(m).step is InitMachine ==> {
            &&& final(env)@ == old(env)@
            &&& reply == HostReply::Outcome(Ok(())) ==> turns_to_state(
                final(m).step,
                old(env)@.bridge,
                old(m).backend_vm,
                0,
            )
            &&& reply matches HostReply::Outcome(Err(err)) ==> final(m).step == (BootStep::Leave { ret: err })
            &&& !(reply is Outcome) ==> final(m).step == old(m).step
        },
        old(m).step matches BootStep::ApplyState { slot, vcpu_id } ==> {
            let was = old(env)@.bridge.vcpus[slot as int];
            let now = final(env)@.bridge.vcpus[slot as int];
            &&& reply == HostReply::Outcome(Ok(())) ==> {
                &&& turns_to_state(final(m).step, final(env)@.bridge, old(m).backend_vm, slot + 1)
                &&& !now.state_dirty
                &&& now.in_use == was.in_use && now.vm_handle == was.vm_handle && now.id == was.id && now.regs == was.regs
                &&& now.sregs == was.sregs && now.segments == was.segments && now.sipi_started == was.sipi_started
                &&& forall|i: int|
                    0 <= i < 64 && i != slot ==> #[trigger] final(env)@.bridge.vcpus[i] == old(env)@.bridge.vcpus[i]
            }
            &&& reply matches HostReply::Outcome(Err(err)) ==> {
                &&& final(m).step == (BootStep::Leave { ret: err })
                &&& final(env)@ == old(env)@
            }
            &&& !(reply is Outcome) ==> final(m).step == old(m).step && final(env)@ == old(env)@
            &&& final(env)@.bridge.vms == old(env)@.bridge.vms
            &&& final(env)@.bridge.mappings == old(env)@.bridge.mappings
        },
        old(m).step matches BootStep::SetRedirection { pin, entry } ==> {
            &&& final(env)@ == old(env)@
            &&& reply is Flag ==> turns_to_pin(
                final(m).step,
                old(env)@.bridge.vms[old(m).backend_vm - 1],
                pin + 1,
            )
            &&& !(reply is Flag) ==> final(m).step == old(m).step
        },
{
    let b = old(env)@.bridge;
    let h = old(m).backend_vm;
    match old(m).step {
        BootStep::InitMachine => {
            lemma_turns_to_state(b, h, 0);
        },
        BootStep::ApplyState { slot, vcpu_id } => {
            if let HostReply::Outcome(outcome) = reply {
                lemma_turns_to_state(final(env)@.bridge, h, slot + 1);
            }
        },
        _ => {},
    }
}

/// A boot is refused for a VM that does not exist, is over for one that runs, and
/// else begins with the machine.
pub proof fn boot_begins_with_the_machine(b: &Bridge, vm: u64, m: BootVm)
    requires
        b.wf(),
        call_ensures(axvisor_kvm_rs_boot_vm, (b, vm), m),
    ensures
        m.backend_vm == vm,
        ({
            let there = 1 <= vm <= 16 && b.vms@[vm - 1].in_use;
            &&& !there ==> m.step == BootStep::Done(invalid())
            &&& there && b.vms@[vm - 1].booted ==> m.step == BootStep::Done(0)
            &&& there && !b.vms@[vm - 1].booted ==> m.step == BootStep::Create
        }),
{
}

/// After the pages a boot makes the VM's first vCPU the calling task's own and begins
/// to enter guest mode.
pub proof fn boot_sets_the_context(m: &mut BootVm, env: &mut Backend, reply: HostReply)
    requires
        old(m).wf(),
        old(env).wf(),
        call_ensures(BootVm::resume, (m, env, reply), ()),
        old(m).step is CurrentTask,
    ensures
        reply matches HostReply::TaskId(task) ==> {
            &&& final(m).step == BootStep::Enter(EnterStep::MigrateDisable)
            &&& final(env)@.contexts == old(env)@.contexts.set(task, old(m).backend_vm, 0)
        },
        !(reply is TaskId) ==> final(m).step == old(m).step && final(env)@ == old(env)@,
        final(env)@.bridge == old(env)@.bridge,
{
}

/// A boot enters guest mode as any caller does: with success it sets the machine up,
/// with an error it ends with that error.
pub proof fn boot_enters_guest_mode(
    m: &mut BootVm,
    env: &mut Backend,
    reply: HostReply,
    enter: EnterStep,
    table: &mut PercpuTable,
    entered: EnterStep,
)
    requires
        old(m).wf(),
        old(env).wf(),
        old(m).step == BootStep::Enter(enter),
        old(table)@ == old(env)@.percpu,
        call_ensures(BootVm::resume, (m, env, reply), ()),
        call_ensures(enter_percpu_resume, (enter, table, reply), entered),
    ensures
        final(env)@.percpu == final(table)@,
        final(env)@.bridge == old(env)@.bridge,
        entered == EnterStep::Done(0) ==> final(m).step == BootStep::InitMachine,
        entered matches EnterStep::Done(ret) ==> ret != 0 ==> final(m).step == BootStep::Done(ret),
        !(entered is Done) ==> final(m).step == BootStep::Enter(entered),
{
}

/// A machine that was started has the task leave guest mode, and then the VM runs:
/// its record, and no other, is marked. One that was not started ends the boot with
/// its error, and the VM does not run.
pub proof fn started_machine_runs_its_vm(m: &mut BootVm, env: &mut Backend, reply: HostReply)
    requires
        old(m).wf(),
        old(env).wf(),
        call_ensures(BootVm::resume, (m, env, reply), ()),
    ensures
        old(m).step is BootMachine ==> final(env)@ == old(env)@ && match reply {
            HostReply::Outcome(Ok(_)) => final(m).step == BootStep::LeaveBooted,
            HostReply::Outcome(Err(err)) => final(m).step == (BootStep::Leave { ret: err }),
            _ => final(m).step == old(m).step,
        },
        old(m).step is LeaveBooted ==> if reply is Done {
            let h = old(m).backend_vm;
            let was = old(env)@.bridge.vms[h - 1];
            let now = final(env)@.bridge.vms[h - 1];
            &&& final(m).step == BootStep::Done(0)
            &&& now.booted && now.machine
            &&& now.in_use == was.in_use && now.vcpu_count == was.vcpu_count && now.page_mapping_count
                == was.page_mapping_count && now.irqchip_created == was.irqchip_created && now.pit_created
                == was.pit_created && now.ioapic_redirtbl == was.ioapic_redirtbl && now.ioapic_redirtbl_count
                == was.ioapic_redirtbl_count
            &&& forall|i: int|
                0 <= i < 16 && i != h - 1 ==> #[trigger] final(env)@.bridge.vms[i] == old(env)@.bridge.vms[i]
            &&& final(env)@.bridge.vcpus == old(env)@.bridge.vcpus
            &&& final(env)@.bridge.mappings == old(env)@.bridge.mappings
        } else {
            final(m).step == old(m).step && final(env)@ == old(env)@
        },
        old(m).step matches BootStep::Leave { ret } ==> final(env)@ == old(env)@ && final(m).step == (if reply is Done {
            BootStep::Done(ret)
        } else {
            old(m).step
        }),
        old(m).step is Done ==> final(m).step == old(m).step && final(env)@ == old(env)@,
{
}

/// What the machine is handed for a vCPU is that vCPU's own state.
pub proof fn machine_is_handed_the_slots_state(b: &Bridge, slot: usize, state: Box<X86KvmVcpuState>, i: int)
    requires
        b.wf(),
        slot < 64,
        0 <= i < 8,
        call_ensures(vcpu_state_for_machine, (b, slot), state),
    ensures
        state.rip == b.vcpus@[slot as int].regs.rip,
        state.rsp == b.vcpus@[slot as int].regs.rsp,
        state.cr3 == b.vcpus@[slot as int].sregs.cr3,
        same_segment(b.vcpus@[slot as int].segments@[i], state.segments@[i]),
{
    assert(b@.vcpus[slot as int] == b.vcpus@[slot as int]);
    let s = state.segments@[i];
}

} // verus!
