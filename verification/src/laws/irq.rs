//! Where interrupts go.
use vstd::prelude::*;

use crate::context::RunContexts;
use crate::host::{HostReply, InterruptTriggerMode, IoapicIrq};
use crate::irq::{
    axvisor_kvm_rs_inject_irq, complete_x86_external_eoi, deliver_resume, eoi_resume, inject_due_x86_pit_irq0,
    inject_interrupt, inject_interrupt_resume, inject_interrupt_to_cpus, inject_irq_resume,
    inject_pending_x86_serial_irq, inject_x86_ioapic_irq, inject_x86_pic_irq, ipi_next, ipi_resume, ipi_turn,
    line_resume, lowest, progress_x86_virtual_irqs, virq_resume, without_bit, DeliverStep, EoiStep, InjectIrqStep,
    InjectStep, IpiStep, IrqLine, LineStep, VirqStep,
};
use crate::laws::codes::invalid;
use crate::state::Bridge;

verus! {

/// A delivery that begins with the vCPU, the vector and the trigger mode that the
/// I/O APIC named; the default vCPU takes the place of a target only where it named
/// none.
pub open spec fn goes_where_routed(step: DeliverStep, irq: IoapicIrq, default: usize) -> bool {
    step matches DeliverStep::FindVcpu { vcpu_id, vector, trigger } && {
        &&& irq.target_vcpu_id matches Some(id) ==> vcpu_id == id
        &&& irq.target_vcpu_id is None ==> vcpu_id == default
        &&& vector == irq.vector
        &&& trigger == InterruptTriggerMode::LevelTriggered <==> irq.level_triggered
    }
}

/// What the I/O APIC raised is delivered to the vCPU that the guest routed it to,
/// by an injection, for a device's line and at the end of an interrupt.
pub proof fn interrupt_goes_where_it_was_routed(
    contexts: &RunContexts,
    irq: IoapicIrq,
    gsi: u32,
    pin: usize,
    vcpu_id: usize,
    vector: u8,
    first: InjectIrqStep,
    again: InjectIrqStep,
    line: LineStep,
    eoi: EoiStep,
)
    requires
        contexts.wf(),
        call_ensures(
            inject_irq_resume,
            (InjectIrqStep::AssertGsi { gsi }, contexts, HostReply::Irq(Some(irq))),
            first,
        ),
        call_ensures(
            inject_irq_resume,
            (InjectIrqStep::AssertGsiAgain { gsi }, contexts, HostReply::Irq(Some(irq))),
            again,
        ),
        call_ensures(line_resume, (LineStep::AssertGsi { gsi: pin }, contexts, HostReply::Irq(Some(irq))), line),
        call_ensures(
            eoi_resume,
            (EoiStep::EndIoapic { vcpu_id, vector }, contexts, HostReply::Irq(Some(irq))),
            eoi,
        ),
    ensures
        first matches InjectIrqStep::Deliver(d) && goes_where_routed(d, irq, 0),
        again matches InjectIrqStep::Deliver(d) && goes_where_routed(d, irq, 0),
        line matches LineStep::ThroughIoapic(d) && goes_where_routed(d, irq, 0),
        eoi matches EoiStep::Deliver(d) && goes_where_routed(d, irq, vcpu_id),
{
}

/// A delivery begins with what it was asked to deliver.
pub proof fn delivery_begins_as_asked(
    vcpu_id: usize,
    vector: u8,
    level: bool,
    irq: u8,
    ioapic: DeliverStep,
    pic: DeliverStep,
)
    requires
        call_ensures(inject_x86_ioapic_irq, (vcpu_id, vector, level), ioapic),
        call_ensures(inject_x86_pic_irq, (vcpu_id, irq), pic),
    ensures
        goes_where_routed(ioapic, IoapicIrq { target_vcpu_id: Some(vcpu_id), vector, level_triggered: level }, 0),
        pic matches DeliverStep::AssertPic { vcpu_id: v, irq: line } && v == vcpu_id && line == irq,
{
}

/// A delivery stays with its vCPU, vector and trigger mode to the end. A vector of
/// the interrupt controller is edge triggered. The vCPU is woken, in the VM that the
/// calling task runs, exactly where the vector was injected.
pub proof fn delivery_keeps_its_target(step: DeliverStep, contexts: &RunContexts, reply: HostReply, next: DeliverStep)
    requires
        contexts.wf(),
        call_ensures(deliver_resume, (step, contexts, reply), next),
    ensures
        step matches DeliverStep::AssertPic { vcpu_id, irq } ==> match reply {
            HostReply::Vector(Some(v)) => next matches DeliverStep::FindVcpu { vcpu_id: target, vector, trigger } && target
                == vcpu_id && vector == v && trigger == InterruptTriggerMode::EdgeTriggered,
            HostReply::Vector(None) => next == DeliverStep::Done(false),
            _ => next == step,
        },
        step matches DeliverStep::FindVcpu { vcpu_id, vector, trigger } ==> match reply {
            HostReply::Flag(true) => next == (DeliverStep::Inject { vcpu_id, vector, trigger }),
            HostReply::Flag(false) => next == DeliverStep::Done(false),
            _ => next == step,
        },
        step matches DeliverStep::Inject { vcpu_id, vector, trigger } ==> match reply {
            HostReply::Outcome(Ok(_)) => next == (DeliverStep::CurrentTask { vcpu_id }),
            HostReply::Outcome(Err(_)) => next == DeliverStep::Done(false),
            _ => next == step,
        },
        step matches DeliverStep::CurrentTask { vcpu_id } ==> match reply {
            HostReply::TaskId(task) => next matches DeliverStep::Wake { vm_id, vcpu_id: woken } && {
                &&& vm_id == contexts@.vm_of(task)
                &&& vcpu_id <= u32::MAX ==> woken == vcpu_id
                &&& (vcpu_id - woken) % 0x1_0000_0000 == 0
            },
            _ => next == step,
        },
        step is Wake ==> next == (if reply is Done {
            DeliverStep::Done(true)
        } else {
            step
        }),
        step is Done ==> next == step,
{
}

/// A device's line: the interval timer's is line 0 and pin 0, the serial line's line
/// 4 and pin 4.
pub open spec fn line_number(line: IrqLine) -> int {
    match line {
        IrqLine::Pit => 0,
        IrqLine::Serial => 4,
    }
}

/// A device that is due is delivered on its own line of the interrupt controller, to
/// the vCPU that asked; where that does not arrive, its own pin of the I/O APIC is
/// raised instead, and a device that is not due does nothing.
pub proof fn device_interrupts_on_its_own_line(
    step: LineStep,
    contexts: &RunContexts,
    reply: HostReply,
    d: DeliverStep,
    next: LineStep,
)
    requires
        contexts.wf(),
        step matches LineStep::ThroughPic { line, deliver } ==> call_ensures(
            deliver_resume,
            (deliver, contexts, reply),
            d,
        ),
        step matches LineStep::ThroughIoapic(deliver) ==> call_ensures(deliver_resume, (deliver, contexts, reply), d),
        call_ensures(line_resume, (step, contexts, reply), next),
    ensures
        step matches LineStep::CurrentTime { vcpu_id } ==> match reply {
            HostReply::Nanos(now) => next matches LineStep::ConsumePitIrq { vcpu_id: v, now_ns } && v == vcpu_id && now_ns
                == now,
            _ => next == step,
        },
        step matches LineStep::ConsumePitIrq { vcpu_id, now_ns } ==> match reply {
            HostReply::Flag(true) => next matches LineStep::ThroughPic {
                line: IrqLine::Pit,
                deliver: DeliverStep::AssertPic { vcpu_id: v, irq },
            } && v == vcpu_id && irq == line_number(IrqLine::Pit),
            HostReply::Flag(false) => next is Done,
            _ => next == step,
        },
        step matches LineStep::PollSerialIrq { vcpu_id } ==> match reply {
            HostReply::Flag(true) => next matches LineStep::ThroughPic {
                line: IrqLine::Serial,
                deliver: DeliverStep::AssertPic { vcpu_id: v, irq },
            } && v == vcpu_id && irq == line_number(IrqLine::Serial),
            HostReply::Flag(false) => next is Done,
            _ => next == step,
        },
        step matches LineStep::ThroughPic { line, deliver } ==> {
                &&& d == DeliverStep::Done(true) ==> next is Done
                &&& d == DeliverStep::Done(false) ==> (next matches LineStep::AssertGsi { gsi } && gsi == line_number(
                    line,
                ))
                &&& !(d is Done) ==> next == (LineStep::ThroughPic { line, deliver: d })
            },
        step is AssertGsi ==> (reply == HostReply::Irq(None) ==> next is Done) && (!(reply is Irq) ==> next == step),
        step matches LineStep::ThroughIoapic(deliver) ==> {
                &&& d is Done ==> next is Done
                &&& !(d is Done) ==> next == LineStep::ThroughIoapic(d)
            },
        step is Done ==> next == step,
{
}

/// Only the first vCPU takes device interrupts: the interval timer's to its end,
/// then the serial line's to its end.
pub proof fn first_vcpu_takes_device_interrupts(
    vcpu_id: usize,
    contexts: &RunContexts,
    reply: HostReply,
    step: VirqStep,
    next: VirqStep,
    start: VirqStep,
    pit: LineStep,
    serial: LineStep,
    l: LineStep,
)
    requires
        contexts.wf(),
        step matches VirqStep::Pit { vcpu_id: v, line } ==> call_ensures(line_resume, (line, contexts, reply), l),
        step matches VirqStep::Serial(line) ==> call_ensures(line_resume, (line, contexts, reply), l),
        call_ensures(progress_x86_virtual_irqs, (vcpu_id,), start),
        call_ensures(inject_due_x86_pit_irq0, (vcpu_id,), pit),
        call_ensures(inject_pending_x86_serial_irq, (vcpu_id,), serial),
        call_ensures(virq_resume, (step, contexts, reply), next),
    ensures
        pit == (LineStep::CurrentTime { vcpu_id }),
        serial == (LineStep::PollSerialIrq { vcpu_id }),
        vcpu_id != 0 ==> start is Done,
        vcpu_id == 0 ==> start == (VirqStep::Pit { vcpu_id, line: pit }),
        step matches VirqStep::Pit { vcpu_id: v, line } ==> {
                &&& l is Done ==> next == VirqStep::Serial(LineStep::PollSerialIrq { vcpu_id: v })
                &&& !(l is Done) ==> next == (VirqStep::Pit { vcpu_id: v, line: l })
            },
        step matches VirqStep::Serial(line) ==> {
                &&& l is Done ==> next is Done
                &&& !(l is Done) ==> next == VirqStep::Serial(l)
            },
        step is Done ==> next is Done,
{
}

/// The end of an interrupt is told to the interrupt controller and then to the I/O
/// APIC, with the vector that the guest acknowledged.
pub proof fn end_of_interrupt_is_told_to_both_chips(
    vcpu_id: usize,
    vector: Option<u8>,
    start: EoiStep,
    step: EoiStep,
    contexts: &RunContexts,
    reply: HostReply,
    d: DeliverStep,
    next: EoiStep,
)
    requires
        contexts.wf(),
        step matches EoiStep::Deliver(deliver) ==> call_ensures(deliver_resume, (deliver, contexts, reply), d),
        call_ensures(complete_x86_external_eoi, (vcpu_id, vector), start),
        call_ensures(eoi_resume, (step, contexts, reply), next),
    ensures
        vector matches Some(v) ==> start == (EoiStep::EndPic { vcpu_id, vector: v }),
        vector is None ==> start is Done,
        step matches EoiStep::EndPic { vcpu_id: v, vector: n } ==> next == (if reply is Done {
            EoiStep::EndIoapic { vcpu_id: v, vector: n }
        } else {
            step
        }),
        step is EndIoapic ==> (reply == HostReply::Irq(None) ==> next is Done) && (!(reply is Irq) ==> next == step),
        step matches EoiStep::Deliver(deliver) ==> {
                &&& d is Done ==> next is Done
                &&& !(d is Done) ==> next == EoiStep::Deliver(d)
            },
        step is Done ==> next is Done,
{
}

/// An injection is refused for a VM that does not exist or does not run; else it
/// begins at the pin of the I/O APIC with that number, or without such a pin with
/// the machine's own injection.
pub proof fn injection_begins_at_the_pin(b: &Bridge, vm: u64, gsi: u32, step: InjectIrqStep)
    requires
        b.wf(),
        call_ensures(axvisor_kvm_rs_inject_irq, (b, vm, gsi), step),
    ensures
        ({
            let runs = 1 <= vm <= 16 && b.vms@[vm - 1].in_use && b.vms@[vm - 1].booted;
            &&& !runs ==> step == InjectIrqStep::Done(invalid())
            &&& runs && gsi < 24 ==> step == (InjectIrqStep::AssertGsi { gsi })
            &&& runs && gsi >= 24 ==> step == (InjectIrqStep::InjectGsi { gsi })
        }),
{
}

/// An injection stays with its number. A pin without an entry gets the vector that
/// many after 0x20; then the machine injects; then, for the sixteen lines of the
/// interrupt controller, the line with that number is raised for the first vCPU. An
/// injection ends with zero where one of these arrived, and else with the first
/// error of the machine.
pub proof fn injection_falls_back_in_order(
    step: InjectIrqStep,
    contexts: &RunContexts,
    reply: HostReply,
    d: DeliverStep,
    next: InjectIrqStep,
)
    requires
        contexts.wf(),
        step matches InjectIrqStep::Deliver(deliver) ==> call_ensures(deliver_resume, (deliver, contexts, reply), d),
        step matches InjectIrqStep::ThroughPic { deliver, err } ==> call_ensures(
            deliver_resume,
            (deliver, contexts, reply),
            d,
        ),
        call_ensures(inject_irq_resume, (step, contexts, reply), next),
    ensures
        step matches InjectIrqStep::AssertGsi { gsi } ==> gsi < 24 ==> {
            &&& reply == HostReply::Irq(None) ==> (next matches InjectIrqStep::SetDefaultEntry { gsi: g, entry } && g
                == gsi && entry == 0x20 + gsi)
            &&& !(reply is Irq) ==> next == step
        },
        step matches InjectIrqStep::SetDefaultEntry { gsi, entry } ==> match reply {
            HostReply::Flag(true) => next == (InjectIrqStep::AssertGsiAgain { gsi }),
            HostReply::Flag(false) => next == (InjectIrqStep::InjectGsi { gsi }),
            _ => next == step,
        },
        step matches InjectIrqStep::AssertGsiAgain { gsi } ==> {
            &&& reply == HostReply::Irq(None) ==> next == (InjectIrqStep::InjectGsi { gsi })
            &&& !(reply is Irq) ==> next == step
        },
        step matches InjectIrqStep::Deliver(deliver) ==> {
                &&& d is Done ==> next == InjectIrqStep::Done(0)
                &&& !(d is Done) ==> next == InjectIrqStep::Deliver(d)
            },
        step matches InjectIrqStep::InjectGsi { gsi } ==> match reply {
            HostReply::Outcome(Ok(_)) => next == InjectIrqStep::Done(0),
            HostReply::Outcome(Err(e)) => if gsi < 24 {
                next matches InjectIrqStep::SetEntryAfterFailure { gsi: g, entry, err } && g == gsi && entry == 0x20 + gsi
                    && err == e
            } else {
                next == InjectIrqStep::Done(e)
            },
            _ => next == step,
        },
        step matches InjectIrqStep::SetEntryAfterFailure { gsi, entry, err } ==> match reply {
            HostReply::Flag(true) => next == (InjectIrqStep::InjectGsiAgain { gsi, err }),
            HostReply::Flag(false) => raises_the_line(gsi, err, next),
            _ => next == step,
        },
        step matches InjectIrqStep::InjectGsiAgain { gsi, err } ==> match reply {
            HostReply::Outcome(Ok(_)) => next == InjectIrqStep::Done(0),
            HostReply::Outcome(Err(_)) => raises_the_line(gsi, err, next),
            _ => next == step,
        },
        step matches InjectIrqStep::ThroughPic { deliver, err } ==> {
                &&& d == DeliverStep::Done(true) ==> next == InjectIrqStep::Done(0)
                &&& d == DeliverStep::Done(false) ==> next == InjectIrqStep::Done(err)
                &&& !(d is Done) ==> next == (InjectIrqStep::ThroughPic { deliver: d, err })
            },
        step is Done ==> next == step,
{
}

/// The last resort of an injection: the interrupt controller's line with that number
/// where there is one, else the error.
pub open spec fn raises_the_line(gsi: u32, err: i32, next: InjectIrqStep) -> bool {
    if gsi < 16 {
        next matches InjectIrqStep::ThroughPic { deliver: DeliverStep::AssertPic { vcpu_id, irq }, err: e } && vcpu_id == 0
            && irq == gsi && e == err
    } else {
        next == InjectIrqStep::Done(err)
    }
}

/// An interrupt to one vCPU stays with its VM, vCPU and vector; the vCPU is woken
/// where the vector was injected, and run promptly unless it is the sender.
pub proof fn interrupt_to_one_stays_with_its_target(
    b: &Bridge,
    vm: u64,
    vcpu: usize,
    n: u8,
    start: InjectStep,
    step: InjectStep,
    contexts: &RunContexts,
    reply: HostReply,
    next: InjectStep,
)
    requires
        b.wf(),
        contexts.wf(),
        call_ensures(inject_interrupt, (b, vm, vcpu, n), start),
        call_ensures(inject_interrupt_resume, (step, contexts, reply), next),
    ensures
        ({
            let runs = 1 <= vm <= 16 && b.vms@[vm - 1].in_use && b.vms@[vm - 1].booted;
            &&& !runs ==> start is Done
            &&& runs ==> start == (InjectStep::FindVcpu { vm_id: vm, vcpu_id: vcpu, vector: n })
        }),
        step matches InjectStep::FindVcpu { vm_id, vcpu_id, vector } ==> match reply {
            HostReply::Flag(true) => next == (InjectStep::Inject { vm_id, vcpu_id, vector }),
            HostReply::Flag(false) => next is Done,
            _ => next == step,
        },
        step matches InjectStep::Inject { vm_id, vcpu_id, vector } ==> match reply {
            HostReply::Outcome(Ok(_)) => next == (InjectStep::Wake { vm_id, vcpu_id }),
            HostReply::Outcome(Err(_)) => next is Done,
            _ => next == step,
        },
        step matches InjectStep::Wake { vm_id, vcpu_id } ==> next == (if reply is Done {
            InjectStep::SenderTask { vm_id, vcpu_id }
        } else {
            step
        }),
        step matches InjectStep::SenderTask { vm_id, vcpu_id } ==> match reply {
            HostReply::TaskId(task) => if contexts@.vcpu_of(task) == vcpu_id {
                next is Done
            } else {
                next == (InjectStep::Boost { vm_id, vcpu_id })
            },
            _ => next == step,
        },
        step is Boost ==> next == (if reply is Done {
            InjectStep::Done
        } else {
            step
        }),
        step is Done ==> next is Done,
{
}

/// The next target of a set: its lowest member, with the set without that member as
/// what is left.
pub open spec fn turns_to_the_lowest(step: IpiStep, vm: u64, targets: u64, n: u8, from: usize) -> bool {
    if targets == 0 {
        step is Done
    } else {
        step matches IpiStep::FindVcpu { ipi } && {
            &&& ipi.vm_id == vm
            &&& ipi.vector == n
            &&& ipi.sender == from
            &&& ipi.target < 64
            &&& (targets >> (ipi.target as u64)) & 1 == 1
            &&& forall|j: u64| j < ipi.target ==> #[trigger] (targets >> j) & 1 == 0
            &&& forall|j: u64|
                j < 64 ==> #[trigger] (ipi.rest >> j) & 1 == (if j == ipi.target {
                    0
                } else {
                    (targets >> j) & 1
                })
        }
    }
}

proof fn lemma_bit_left(mask: u64, k: u64, j: u64)
    by (bit_vector)
    requires
        k < 64,
        j < 64,
    ensures
        j != k ==> ((mask & !(1u64 << k)) >> j) & 1 == (mask >> j) & 1,
        j == k ==> ((mask & !(1u64 << k)) >> j) & 1 == 0,
{
}

proof fn lemma_turns_to_the_lowest(vm: u64, targets: u64, n: u8, from: usize)
    ensures
        turns_to_the_lowest(ipi_turn(vm, targets, n, from), vm, targets, n, from),
{
    if targets != 0 {
        crate::irq::target_is_turned_to_once(vm, targets, n, from);
        let k = choose|k: u64| lowest(targets, k);
        crate::irq::lemma_has_lowest(targets, 0);
        assert(lowest(targets, k));
        let rest = without_bit(targets, k);
        assert forall|j: u64| j < 64 implies #[trigger] (rest >> j) & 1 == (if j == k {
            0
        } else {
            (targets >> j) & 1
        }) by {
            lemma_bit_left(targets, k, j);
        }
    }
}

/// An interrupt to a set goes to every member, the lowest first, with the same
/// vector and in the same VM. A member that is missing or refuses is passed over; one
/// that took the vector is woken, and run promptly unless it is the sender.
pub proof fn interrupt_to_a_set_reaches_every_member(
    b: &Bridge,
    vm: u64,
    set: u64,
    n: u8,
    start: IpiStep,
    step: IpiStep,
    contexts: &RunContexts,
    reply: HostReply,
    next: IpiStep,
)
    requires
        b.wf(),
        contexts.wf(),
        call_ensures(inject_interrupt_to_cpus, (b, vm, set, n), start),
        call_ensures(ipi_resume, (step, contexts, reply), next),
    ensures
        ({
            let runs = 1 <= vm <= 16 && b.vms@[vm - 1].in_use && b.vms@[vm - 1].booted;
            &&& !runs ==> start is Done
            &&& runs ==> start == (IpiStep::SenderTask { vm_id: vm, targets: set, vector: n })
        }),
        step matches IpiStep::SenderTask { vm_id, targets, vector } ==> match reply {
            HostReply::TaskId(task) => turns_to_the_lowest(next, vm_id, targets, vector, contexts@.vcpu_of(task)),
            _ => next == step,
        },
        step matches IpiStep::FindVcpu { ipi } ==> match reply {
            HostReply::Flag(true) => next == (IpiStep::Inject { ipi }),
            HostReply::Flag(false) => turns_to_the_lowest(next, ipi.vm_id, ipi.rest, ipi.vector, ipi.sender),
            _ => next == step,
        },
        step matches IpiStep::Inject { ipi } ==> match reply {
            HostReply::Outcome(Ok(_)) => next == (IpiStep::Wake { ipi }),
            HostReply::Outcome(Err(_)) => turns_to_the_lowest(next, ipi.vm_id, ipi.rest, ipi.vector, ipi.sender),
            _ => next == step,
        },
        step matches IpiStep::Wake { ipi } ==> if !(reply is Done) {
            next == step
        } else if ipi.target == ipi.sender {
            turns_to_the_lowest(next, ipi.vm_id, ipi.rest, ipi.vector, ipi.sender)
        } else {
            next == (IpiStep::Boost { ipi })
        },
        step matches IpiStep::Boost { ipi } ==> if reply is Done {
            turns_to_the_lowest(next, ipi.vm_id, ipi.rest, ipi.vector, ipi.sender)
        } else {
            next == step
        },
        step is Done ==> next is Done,
{
    assert(next == ipi_next(step, contexts@, reply));
    match step {
        IpiStep::SenderTask { vm_id, targets, vector } => {
            if let HostReply::TaskId(task) = reply {
                lemma_turns_to_the_lowest(vm_id, targets, vector, contexts@.vcpu_of(task));
            }
        },
        IpiStep::FindVcpu { ipi } => {
            lemma_turns_to_the_lowest(ipi.vm_id, ipi.rest, ipi.vector, ipi.sender);
        },
        IpiStep::Inject { ipi } => {
            lemma_turns_to_the_lowest(ipi.vm_id, ipi.rest, ipi.vector, ipi.sender);
        },
        IpiStep::Wake { ipi } => {
            lemma_turns_to_the_lowest(ipi.vm_id, ipi.rest, ipi.vector, ipi.sender);
        },
        IpiStep::Boost { ipi } => {
            lemma_turns_to_the_lowest(ipi.vm_id, ipi.rest, ipi.vector, ipi.sender);
        },
        IpiStep::Done => {},
    }
}

} // verus!
