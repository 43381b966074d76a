//! Booting a VM: its machine is created, takes over the recorded pages and the
//! vCPU states, and starts.
use vstd::prelude::*;

use crate::config::{build_axvm_config, config_of, VmConfig};
use crate::env::{Backend, BackendView};
use crate::errno::EINVAL;
use crate::host::HostReply;
use crate::percpu::{
    enter_error_set, enter_next, enter_percpu, enter_percpu_resume, entering_pins_exactly_on_success, pinned_after,
    pinned_at, EnterStep,
};
use crate::run::{apply_taken, finish_apply};
use crate::snapshot::{build_kvm_vcpu_state_box, state_of, X86KvmVcpuState};
use crate::state::{
    vm_index_from_handle, BackendVm, Bridge, BridgeView, KVM_IOAPIC_NUM_PINS, MAX_PAGE_MAPPINGS, MAX_VCPUS, MAX_VMS,
};
use crate::vm::{lemma_vm_update_keeps_inv, map_page_into_axvm, page_region, MapRegion};

verus! {

/// A step of a boot.
#[derive(Clone, Copy, Debug, PartialEq, Eq, Structural)]
pub enum BootStep {
    /// Create the machine.
    Create,
    /// Let the machine map a recorded page.
    MapPage { index: usize, region: MapRegion },
    /// Tell which task is calling.
    CurrentTask,
    /// Enter guest mode on a host CPU.
    Enter(EnterStep),
    /// Initialize the machine.
    InitMachine,
    /// Hand the machine the state of the vCPU whose record is at a position.
    ApplyState { slot: usize, vcpu_id: u32 },
    /// Set an entry of the I/O APIC's redirection table.
    SetRedirection { pin: usize, entry: u64 },
    /// Start the machine.
    BootMachine,
    /// Unpin the task; the machine runs.
    LeaveBooted,
    /// Unpin the task; the boot then ends with `ret`.
    Leave { ret: i32 },
    Done(i32),
}

/// A boot of a VM.
#[derive(Clone, Copy, Debug, PartialEq, Eq, Structural)]
pub struct BootVm {
    pub backend_vm: u64,
    pub step: BootStep,
}

impl BootVm {
    /// The VM and the vCPU of the step are those of records.
    pub open spec fn wf(self) -> bool {
        &&& !(self.step is Done) ==> 1 <= self.backend_vm <= MAX_VMS
        &&& self.step matches BootStep::ApplyState { slot, vcpu_id } ==> slot < MAX_VCPUS
        &&& self.step matches BootStep::MapPage { index, region } ==> index < MAX_PAGE_MAPPINGS
        &&& self.step matches BootStep::SetRedirection { pin, entry } ==> pin < KVM_IOAPIC_NUM_PINS
    }

    /// The boot at another step.
    pub open spec fn at(self, step: BootStep) -> BootVm {
        BootVm { step, ..self }
    }
}

/// The step that replays the first recorded page of a VM from a position on, or,
/// with none left, the step after the replay.
pub open spec fn replay_from(b: BridgeView, vm_handle: u64, from: int) -> BootStep
    decreases b.mappings.len() - from,
{
    if from < 0 || from >= b.mappings.len() {
        BootStep::CurrentTask
    } else if b.mappings[from].of(vm_handle) {
        BootStep::MapPage {
            index: from as usize,
            region: page_region(b.mappings[from].gpa, b.mappings[from].hpa, b.mappings[from].flags),
        }
    } else {
        replay_from(b, vm_handle, from + 1)
    }
}

/// Turns to the first recorded page of a VM from a position on.
pub fn replay_page_mappings(bridge: &Bridge, vm_handle: u64, from: usize) -> (step: BootStep)
    requires
        bridge.wf(),
        from <= MAX_PAGE_MAPPINGS,
    ensures
        step == replay_from(bridge@, vm_handle, from as int),
        step matches BootStep::MapPage { index, region } ==> index < MAX_PAGE_MAPPINGS,
        !(step is ApplyState || step is SetRedirection || step is Done),
{
    let mut i: usize = from;
    while i < MAX_PAGE_MAPPINGS
        invariant
            i <= MAX_PAGE_MAPPINGS,
            bridge.wf(),
            replay_from(bridge@, vm_handle, from as int) == replay_from(bridge@, vm_handle, i as int),
        decreases MAX_PAGE_MAPPINGS - i,
    {
        let m = bridge.mappings[i];
        if m.in_use && m.vm_handle == vm_handle {
            return BootStep::MapPage { index: i, region: map_page_into_axvm(m.gpa, m.hpa, m.flags) };
        }
        i += 1;
    }
    BootStep::CurrentTask
}

/// How many redirection entries of a VM the machine takes: none without interrupt
/// chips.
pub open spec fn redirections(vm: BackendVm) -> int {
    if !vm.irqchip_created {
        0
    } else if vm.ioapic_redirtbl_count < KVM_IOAPIC_NUM_PINS {
        vm.ioapic_redirtbl_count as int
    } else {
        KVM_IOAPIC_NUM_PINS as int
    }
}

/// The step that sets the redirection entry of a pin, or, with none left, starts
/// the machine.
pub open spec fn redirect_from(vm: BackendVm, pin: int) -> BootStep {
    if pin < redirections(vm) {
        BootStep::SetRedirection { pin: pin as usize, entry: vm.ioapic_redirtbl@[pin] }
    } else {
        BootStep::BootMachine
    }
}

/// Turns to the redirection entry of a pin.
pub fn apply_ioapic_redirection_table(vm: &BackendVm, pin: usize) -> (step: BootStep)
    ensures
        step == redirect_from(*vm, pin as int),
        step matches BootStep::SetRedirection { pin, entry } ==> pin < KVM_IOAPIC_NUM_PINS,
        !(step is ApplyState || step is MapPage || step is Done),
{
    if vm.irqchip_created && pin < KVM_IOAPIC_NUM_PINS && pin < vm.ioapic_redirtbl_count as usize {
        BootStep::SetRedirection { pin, entry: vm.ioapic_redirtbl[pin] }
    } else {
        BootStep::BootMachine
    }
}

/// The step that hands the machine the first changed state of a VM's vCPUs from a
/// position on, or, with none left, goes on to the redirection table.
pub open spec fn apply_from(b: BridgeView, vm_handle: u64, from: int) -> BootStep
    decreases b.vcpus.len() - from,
{
    if from < 0 || from >= b.vcpus.len() {
        if b.vm(vm_handle).in_use {
            redirect_from(b.vm(vm_handle), 0)
        } else {
            BootStep::Leave { ret: (-EINVAL) as i32 }
        }
    } else if b.vcpus[from].of(vm_handle) && b.vcpus[from].state_dirty {
        BootStep::ApplyState { slot: from as usize, vcpu_id: b.vcpus[from].id }
    } else {
        apply_from(b, vm_handle, from + 1)
    }
}

/// Turns to the first changed state of a VM's vCPUs from a position on.
pub fn apply_vm_vcpu_states_for_boot(bridge: &Bridge, vm_handle: u64, from: usize) -> (step: BootStep)
    requires
        bridge.wf(),
        1 <= vm_handle <= MAX_VMS,
        from <= MAX_VCPUS,
    ensures
        step == apply_from(bridge@, vm_handle, from as int),
        (BootVm { backend_vm: vm_handle, step }).wf(),
{
    let mut i: usize = from;
    while i < MAX_VCPUS
        invariant
            i <= MAX_VCPUS,
            1 <= vm_handle <= MAX_VMS,
            bridge.wf(),
            apply_from(bridge@, vm_handle, from as int) == apply_from(bridge@, vm_handle, i as int),
        decreases MAX_VCPUS - i,
    {
        if bridge.vcpus[i].in_use && bridge.vcpus[i].vm_handle == vm_handle && bridge.vcpus[i].state_dirty {
            return BootStep::ApplyState { slot: i, vcpu_id: bridge.vcpus[i].id };
        }
        i += 1;
    }
    if !bridge.vms[vm_handle as usize - 1].in_use {
        return BootStep::Leave { ret: -EINVAL };
    }
    apply_ioapic_redirection_table(&bridge.vms[vm_handle as usize - 1], 0)
}

/// Begins to boot a VM: refused where it does not exist; nothing is left to do
/// where it is booted.
pub fn axvisor_kvm_rs_boot_vm(bridge: &Bridge, backend_vm: u64) -> (boot: BootVm)
    requires
        bridge.wf(),
    ensures
        boot == (BootVm {
            backend_vm,
            step: if !bridge@.vm_live(backend_vm) {
                BootStep::Done((-EINVAL) as i32)
            } else if bridge@.vm(backend_vm).booted {
                BootStep::Done(0)
            } else {
                BootStep::Create
            },
        }),
        boot.wf(),
{
    let index: usize = match vm_index_from_handle(backend_vm) {
        Ok(index) => index,
        Err(err) => {
            return BootVm { backend_vm, step: BootStep::Done(err) };
        },
    };
    if !bridge.vms[index].in_use {
        return BootVm { backend_vm, step: BootStep::Done(-EINVAL) };
    }
    if bridge.vms[index].booted {
        return BootVm { backend_vm, step: BootStep::Done(0) };
    }
    BootVm { backend_vm, step: BootStep::Create }
}

/// The boot after a reply, and the tables after it. The VM is booted when the
/// machine runs and the task is unpinned.
pub open spec fn boot_next(m: BootVm, e: BackendView, reply: HostReply) -> (BootVm, BackendView) {
    let h = m.backend_vm;
    match (m.step, reply) {
        (BootStep::Create, HostReply::Outcome(outcome)) => match outcome {
            Ok(_) => (m.at(replay_from(e.bridge, h, 0)), e),
            Err(err) => (m.at(BootStep::Done(err)), e),
        },
        (BootStep::MapPage { index, region }, HostReply::Outcome(outcome)) => match outcome {
            Ok(_) => (m.at(replay_from(e.bridge, h, index + 1)), e),
            Err(err) => (m.at(BootStep::Done(err)), e),
        },
        (BootStep::CurrentTask, HostReply::TaskId(task_id)) => (
            m.at(BootStep::Enter(EnterStep::MigrateDisable)),
            e.context_set(task_id, h, 0),
        ),
        (BootStep::Enter(enter), _) => {
            let next = enter_next(enter, e.percpu, reply);
            let after = e.with_percpu(next.1);
            match next.0 {
                EnterStep::Done(ret) => if ret != 0 {
                    (m.at(BootStep::Done(ret)), after)
                } else {
                    (m.at(BootStep::InitMachine), after)
                },
                enter => (m.at(BootStep::Enter(enter)), after),
            }
        },
        (BootStep::InitMachine, HostReply::Outcome(outcome)) => match outcome {
            Ok(_) => (m.at(apply_from(e.bridge, h, 0)), e),
            Err(err) => (m.at(BootStep::Leave { ret: err }), e),
        },
        (BootStep::ApplyState { slot, vcpu_id }, HostReply::Outcome(outcome)) => {
            let after = BackendView { bridge: apply_taken(e.bridge, slot, outcome), ..e };
            match outcome {
                Ok(_) => (m.at(apply_from(after.bridge, h, slot + 1)), after),
                Err(err) => (m.at(BootStep::Leave { ret: err }), after),
            }
        },
        (BootStep::SetRedirection { pin, entry }, HostReply::Flag(_)) => (
            m.at(redirect_from(e.bridge.vm(h), pin + 1)),
            e,
        ),
        (BootStep::BootMachine, HostReply::Outcome(outcome)) => match outcome {
            Ok(_) => (m.at(BootStep::LeaveBooted), e),
            Err(err) => (m.at(BootStep::Leave { ret: err }), e),
        },
        (BootStep::LeaveBooted, HostReply::Done) => (
            m.at(BootStep::Done(0)),
            e.with_vm(h, BackendVm { machine: true, booted: true, ..e.bridge.vm(h) }),
        ),
        (BootStep::Leave { ret }, HostReply::Done) => (m.at(BootStep::Done(ret)), e),
        _ => (m, e),
    }
}

impl BootVm {
    /// The configuration for the machine that the boot asks for.
    pub fn config(&self, bridge: &Bridge) -> (config: VmConfig)
        requires
            bridge.wf(),
            bridge@.vm_live(self.backend_vm),
        ensures
            config_of(bridge@, self.backend_vm, config),
    {
        build_axvm_config(bridge, self.backend_vm)
    }

    /// Goes on with a boot after the host's reply.
    pub fn resume(&mut self, env: &mut Backend, reply: HostReply)
        requires
            old(self).wf(),
            old(env).wf(),
        ensures
            final(self).wf(),
            final(env).wf(),
            (*final(self), final(env)@) == boot_next(*old(self), old(env)@, reply),
    {
        match (self.step, reply) {
            (BootStep::Create, HostReply::Outcome(outcome)) => {
                match outcome {
                    Ok(_) => {
                        self.step = replay_page_mappings(&env.bridge, self.backend_vm, 0);
                    },
                    Err(err) => {
                        self.step = BootStep::Done(err);
                    },
                }
            },
            (BootStep::MapPage { index, region: _ }, HostReply::Outcome(outcome)) => {
                match outcome {
                    Ok(_) => {
                        self.step = replay_page_mappings(&env.bridge, self.backend_vm, index + 1);
                    },
                    Err(err) => {
                        self.step = BootStep::Done(err);
                    },
                }
            },
            (BootStep::CurrentTask, HostReply::TaskId(task_id)) => {
                env.contexts.set_current_vcpu_context(task_id, self.backend_vm, 0);
                self.step = BootStep::Enter(enter_percpu());
            },
            (BootStep::Enter(enter), _) => {
                match enter_percpu_resume(enter, &mut env.percpu, reply) {
                    EnterStep::Done(ret) => {
                        if ret != 0 {
                            self.step = BootStep::Done(ret);
                        } else {
                            self.step = BootStep::InitMachine;
                        }
                    },
                    enter => {
                        self.step = BootStep::Enter(enter);
                    },
                }
            },
            (BootStep::InitMachine, HostReply::Outcome(outcome)) => {
                match outcome {
                    Ok(_) => {
                        self.step = apply_vm_vcpu_states_for_boot(&env.bridge, self.backend_vm, 0);
                    },
                    Err(err) => {
                        self.step = BootStep::Leave { ret: err };
                    },
                }
            },
            (BootStep::ApplyState { slot, vcpu_id: _ }, HostReply::Outcome(outcome)) => {
                let _ret: i32 = finish_apply(&mut env.bridge, slot, outcome);
                match outcome {
                    Ok(_) => {
                        self.step = apply_vm_vcpu_states_for_boot(&env.bridge, self.backend_vm, slot + 1);
                    },
                    Err(err) => {
                        self.step = BootStep::Leave { ret: err };
                    },
                }
            },
            (BootStep::SetRedirection { pin, entry: _ }, HostReply::Flag(_)) => {
                self.step =
                apply_ioapic_redirection_table(&env.bridge.vms[self.backend_vm as usize - 1], pin + 1);
            },
            (BootStep::BootMachine, HostReply::Outcome(outcome)) => {
                match outcome {
                    Ok(_) => {
                        self.step = BootStep::LeaveBooted;
                    },
                    Err(err) => {
                        self.step = BootStep::Leave { ret: err };
                    },
                }
            },
            (BootStep::LeaveBooted, HostReply::Done) => {
                let ghost before = env@.bridge;
                let ghost h = self.backend_vm;
                let index: usize = self.backend_vm as usize - 1;
                env.bridge.vms[index].machine = true;
                env.bridge.vms[index].booted = true;
                proof {
                    let vm = BackendVm { machine: true, booted: true, ..before.vm(h) };
                    assert(env@.bridge =~= before.with_vm(h, vm));
                    lemma_vm_update_keeps_inv(before, h, vm);
                }
                self.step = BootStep::Done(0);
            },
            (BootStep::Leave { ret }, HostReply::Done) => {
                self.step = BootStep::Done(ret);
            },
            _ => {},
        }
    }
}

/// The state that the machine takes over from the vCPU at a position.
pub fn vcpu_state_for_machine(bridge: &Bridge, slot: usize) -> (state: Box<X86KvmVcpuState>)
    requires
        bridge.wf(),
        slot < MAX_VCPUS,
    ensures
        state_of(bridge@.vcpus[slot as int], *state),
{
    build_kvm_vcpu_state_box(&bridge.vcpus[slot])
}

/// A VM gets booted only by the last step of a boot that succeeded; every other
/// step leaves all VM records as they were.
pub proof fn vm_is_booted_last(m: BootVm, e: BackendView, reply: HostReply)
    ensures
        boot_next(m, e, reply).1.bridge.vms == e.bridge.vms || (m.step is LeaveBooted && boot_next(m, e, reply).0.step
            == BootStep::Done(0)),
{
}

/// The replay hands the machine every recorded page of the VM, in order: the page
/// at a position is next exactly when the replay passed all of the VM's pages
/// before it.
pub proof fn replay_passes_over_other_vms_only(b: BridgeView, vm_handle: u64, from: int)
    requires
        b.shaped(),
        0 <= from <= b.mappings.len(),
    ensures
        match replay_from(b, vm_handle, from) {
            BootStep::MapPage { index, region } => {
                &&& from <= index < b.mappings.len()
                &&& b.mappings[index as int].of(vm_handle)
                &&& region == page_region(
                    b.mappings[index as int].gpa,
                    b.mappings[index as int].hpa,
                    b.mappings[index as int].flags,
                )
                &&& forall|i: int| from <= i < index ==> !(#[trigger] b.mappings[i]).of(vm_handle)
            },
            step => {
                &&& step is CurrentTask
                &&& forall|i: int| from <= i < b.mappings.len() ==> !(#[trigger] b.mappings[i]).of(vm_handle)
            },
        },
    decreases b.mappings.len() - from,
{
    if from < b.mappings.len() && !b.mappings[from].of(vm_handle) {
        replay_passes_over_other_vms_only(b, vm_handle, from + 1);
    }
}

/// A boot hands the machine every changed vCPU state of the VM, in order: it goes
/// on only when no record of the VM that it passed has a changed state.
pub proof fn boot_applies_every_changed_state(b: BridgeView, vm_handle: u64, from: int)
    requires
        b.shaped(),
        0 <= from <= b.vcpus.len(),
    ensures
        match apply_from(b, vm_handle, from) {
            BootStep::ApplyState { slot, vcpu_id } => {
                &&& from <= slot < b.vcpus.len()
                &&& b.vcpus[slot as int].of(vm_handle)
                &&& b.vcpus[slot as int].state_dirty
                &&& vcpu_id == b.vcpus[slot as int].id
                &&& forall|i: int|
                    from <= i < slot ==> !((#[trigger] b.vcpus[i]).of(vm_handle) && b.vcpus[i].state_dirty)
            },
            _ => forall|i: int|
                from <= i < b.vcpus.len() ==> !((#[trigger] b.vcpus[i]).of(vm_handle) && b.vcpus[i].state_dirty),
        },
    decreases b.vcpus.len() - from,
{
    if from < b.vcpus.len() && !(b.vcpus[from].of(vm_handle) && b.vcpus[from].state_dirty) {
        boot_applies_every_changed_state(b, vm_handle, from + 1);
    }
}

/// The task is pinned to its CPU while a step of a boot waits.
pub open spec fn boot_pinned_at(step: BootStep) -> bool {
    match step {
        BootStep::Create => false,
        BootStep::MapPage { index, region } => false,
        BootStep::CurrentTask => false,
        BootStep::Enter(enter) => pinned_at(enter),
        BootStep::Done(_) => false,
        _ => true,
    }
}

/// The task is pinned after a step of a boot was answered.
pub open spec fn boot_pinned_after(step: BootStep) -> bool {
    match step {
        BootStep::Enter(enter) => pinned_after(enter),
        BootStep::LeaveBooted => false,
        BootStep::Leave { ret } => false,
        _ => boot_pinned_at(step),
    }
}

/// A boot ends with the task unpinned, whether it succeeds or fails: every answer
/// takes the pinning to where the next step expects it.
pub proof fn boot_ends_unpinned(m: BootVm, e: BackendView, reply: HostReply)
    requires
        e.bridge.shaped(),
        m.step matches BootStep::Enter(enter) ==> enter_error_set(enter) && !(enter is Done),
        reply matches HostReply::Outcome(Err(err)) ==> err != 0,
        boot_next(m, e, reply).0.step != m.step,
    ensures
        boot_pinned_after(m.step) == boot_pinned_at(boot_next(m, e, reply).0.step),
{
    match m.step {
        BootStep::Enter(enter) => {
            entering_pins_exactly_on_success(enter, e.percpu, reply);
        },
        BootStep::Create => {
            replay_passes_over_other_vms_only(e.bridge, m.backend_vm, 0);
        },
        BootStep::MapPage { index, region } => {
            if index + 1 <= e.bridge.mappings.len() {
                replay_passes_over_other_vms_only(e.bridge, m.backend_vm, index + 1);
            }
        },
        BootStep::InitMachine => {
            lemma_applying_is_pinned(e.bridge, m.backend_vm, 0);
        },
        BootStep::ApplyState { slot, vcpu_id } => {
            if let HostReply::Outcome(outcome) = reply {
                lemma_applying_is_pinned(apply_taken(e.bridge, slot, outcome), m.backend_vm, slot + 1);
            }
        },
        _ => {},
    }
}

proof fn lemma_applying_is_pinned(b: BridgeView, vm_handle: u64, from: int)
    ensures
        boot_pinned_at(apply_from(b, vm_handle, from)),
    decreases b.vcpus.len() - from,
{
    if 0 <= from < b.vcpus.len() && !(b.vcpus[from].of(vm_handle) && b.vcpus[from].state_dirty) {
        lemma_applying_is_pinned(b, vm_handle, from + 1);
    }
}

} // verus!
