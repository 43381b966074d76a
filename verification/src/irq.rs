//! Delivery of virtual interrupts.
use vstd::prelude::*;

use crate::context::{RunContexts, RunContextsView};
use crate::errno::EINVAL;
use crate::host::{HostReply, InterruptTriggerMode, IoapicIrq};
use crate::state::{Bridge, KVM_IOAPIC_NUM_PINS};
use crate::vm::axvm_for_vm_id;

verus! {

/// The interval timer's pin of the I/O APIC.
pub const X86_PIT_TIMER_GSI: usize = 0;

/// The interval timer's line of the interrupt controller.
pub const X86_PIT_TIMER_IRQ: u8 = 0;

/// The first serial line's pin of the I/O APIC.
pub const X86_COM1_GSI: usize = 4;

/// The first serial line's line of the interrupt controller.
pub const X86_COM1_IRQ: u8 = 4;

/// The delivery of one interrupt to one vCPU. `Done` says whether it arrived.
#[allow(inconsistent_fields)]
#[derive(Clone, Copy, Debug, PartialEq, Eq, Structural)]
pub enum DeliverStep {
    /// Raise a line of the interrupt controller; it may give a vector.
    AssertPic { vcpu_id: usize, irq: u8 },
    /// Tell whether the machine has the vCPU.
    FindVcpu { vcpu_id: usize, vector: u8, trigger: InterruptTriggerMode },
    /// Inject the vector into the vCPU.
    Inject { vcpu_id: usize, vector: u8, trigger: InterruptTriggerMode },
    /// Tell which task is calling.
    CurrentTask { vcpu_id: usize },
    /// Wake the vCPU, which may be halted.
    Wake { vm_id: u64, vcpu_id: u32 },
    Done(bool),
}

/// A vCPU id as the host takes it.
pub open spec fn host_vcpu_id(vcpu_id: usize) -> u32 {
    (vcpu_id as int % 0x1_0000_0000) as u32
}

fn to_host_vcpu_id(vcpu_id: usize) -> (r: u32)
    ensures
        r == host_vcpu_id(vcpu_id),
{
    (vcpu_id as u64 % 0x1_0000_0000) as u32
}

/// The step of a delivery after a reply.
pub open spec fn deliver_next(step: DeliverStep, contexts: RunContextsView, reply: HostReply) -> DeliverStep {
    match (step, reply) {
        (DeliverStep::AssertPic { vcpu_id, irq }, HostReply::Vector(None)) => DeliverStep::Done(false),
        (DeliverStep::AssertPic { vcpu_id, irq }, HostReply::Vector(Some(vector))) => DeliverStep::FindVcpu {
            vcpu_id,
            vector,
            trigger: InterruptTriggerMode::EdgeTriggered,
        },
        (DeliverStep::FindVcpu { vcpu_id, vector, trigger }, HostReply::Flag(found)) => if found {
            DeliverStep::Inject { vcpu_id, vector, trigger }
        } else {
            DeliverStep::Done(false)
        },
        (DeliverStep::Inject { vcpu_id, vector, trigger }, HostReply::Outcome(outcome)) => if outcome is Ok {
            DeliverStep::CurrentTask { vcpu_id }
        } else {
            DeliverStep::Done(false)
        },
        (DeliverStep::CurrentTask { vcpu_id }, HostReply::TaskId(task_id)) => DeliverStep::Wake {
            vm_id: contexts.vm_of(task_id),
            vcpu_id: host_vcpu_id(vcpu_id),
        },
        (DeliverStep::Wake { vm_id, vcpu_id }, HostReply::Done) => DeliverStep::Done(true),
        _ => step,
    }
}

/// Goes on with a delivery after the host's reply.
pub fn deliver_resume(step: DeliverStep, contexts: &RunContexts, reply: HostReply) -> (next: DeliverStep)
    requires
        contexts.wf(),
    ensures
        next == deliver_next(step, contexts@, reply),
{
    match (step, reply) {
        (DeliverStep::AssertPic { vcpu_id: _, irq: _ }, HostReply::Vector(None)) => DeliverStep::Done(false),
        (DeliverStep::AssertPic { vcpu_id, irq: _ }, HostReply::Vector(Some(vector))) => DeliverStep::FindVcpu {
            vcpu_id,
            vector,
            trigger: InterruptTriggerMode::EdgeTriggered,
        },
        (DeliverStep::FindVcpu { vcpu_id, vector, trigger }, HostReply::Flag(found)) => if found {
            DeliverStep::Inject { vcpu_id, vector, trigger }
        } else {
            DeliverStep::Done(false)
        },
        (DeliverStep::Inject { vcpu_id, vector: _, trigger: _ }, HostReply::Outcome(outcome)) => if outcome.is_ok() {
            DeliverStep::CurrentTask { vcpu_id }
        } else {
            DeliverStep::Done(false)
        },
        (DeliverStep::CurrentTask { vcpu_id }, HostReply::TaskId(task_id)) => DeliverStep::Wake {
            vm_id: contexts.current_vm_id(task_id),
            vcpu_id: to_host_vcpu_id(vcpu_id),
        },
        (DeliverStep::Wake { vm_id: _, vcpu_id: _ }, HostReply::Done) => DeliverStep::Done(true),
        _ => step,
    }
}

/// The start of the delivery of an interrupt of the I/O APIC.
pub open spec fn ioapic_delivery(target_vcpu_id: usize, vector: u8, level_triggered: bool) -> DeliverStep {
    DeliverStep::FindVcpu {
        vcpu_id: target_vcpu_id,
        vector,
        trigger: if level_triggered {
            InterruptTriggerMode::LevelTriggered
        } else {
            InterruptTriggerMode::EdgeTriggered
        },
    }
}

/// The vCPU that an interrupt of the I/O APIC goes to.
pub open spec fn ioapic_target(irq: IoapicIrq, default: usize) -> usize {
    match irq.target_vcpu_id {
        Some(id) => id,
        None => default,
    }
}

/// Begins the delivery of an interrupt of the I/O APIC.
pub fn inject_x86_ioapic_irq(target_vcpu_id: usize, vector: u8, level_triggered: bool) -> (step: DeliverStep)
    ensures
        step == ioapic_delivery(target_vcpu_id, vector, level_triggered),
{
    let trigger = if level_triggered {
        InterruptTriggerMode::LevelTriggered
    } else {
        InterruptTriggerMode::EdgeTriggered
    };
    DeliverStep::FindVcpu { vcpu_id: target_vcpu_id, vector, trigger }
}

fn deliver_ioapic_irq(irq: IoapicIrq, default: usize) -> (step: DeliverStep)
    ensures
        step == ioapic_delivery(ioapic_target(irq, default), irq.vector, irq.level_triggered),
{
    inject_x86_ioapic_irq(irq.target_vcpu_id.unwrap_or(default), irq.vector, irq.level_triggered)
}

/// Begins the delivery of an interrupt through the interrupt controller.
pub fn inject_x86_pic_irq(vcpu_id: usize, irq: u8) -> (step: DeliverStep)
    ensures
        step == (DeliverStep::AssertPic { vcpu_id, irq }),
{
    DeliverStep::AssertPic { vcpu_id, irq }
}

/// The devices that interrupt the guest on their own.
#[derive(Clone, Copy, Debug, PartialEq, Eq, Structural)]
pub enum IrqLine {
    Pit,
    Serial,
}

impl IrqLine {
    /// The device's line of the interrupt controller.
    pub open spec fn spec_irq(self) -> u8 {
        match self {
            IrqLine::Pit => X86_PIT_TIMER_IRQ,
            IrqLine::Serial => X86_COM1_IRQ,
        }
    }

    /// The device's pin of the I/O APIC.
    pub open spec fn spec_gsi(self) -> usize {
        match self {
            IrqLine::Pit => X86_PIT_TIMER_GSI,
            IrqLine::Serial => X86_COM1_GSI,
        }
    }

    /// The device's line of the interrupt controller.
    pub fn irq(self) -> (r: u8)
        ensures
            r == self.spec_irq(),
    {
        match self {
            IrqLine::Pit => X86_PIT_TIMER_IRQ,
            IrqLine::Serial => X86_COM1_IRQ,
        }
    }

    fn gsi(self) -> (r: usize)
        ensures
            r == self.spec_gsi(),
    {
        match self {
            IrqLine::Pit => X86_PIT_TIMER_GSI,
            IrqLine::Serial => X86_COM1_GSI,
        }
    }
}

/// The interrupt of one device: is it due, and if so, through the interrupt
/// controller, or else through the I/O APIC.
#[derive(Clone, Copy, Debug, PartialEq, Eq, Structural)]
pub enum LineStep {
    /// Tell the time.
    CurrentTime { vcpu_id: usize },
    /// Tell whether the interval timer is due at a time, and take the tick if so.
    ConsumePitIrq { vcpu_id: usize, now_ns: u64 },
    /// Tell whether the serial line has an interrupt.
    PollSerialIrq { vcpu_id: usize },
    /// Deliver through the interrupt controller.
    ThroughPic { line: IrqLine, deliver: DeliverStep },
    /// Raise a pin of the I/O APIC; it may raise an interrupt.
    AssertGsi { gsi: usize },
    /// Deliver what the I/O APIC raised.
    ThroughIoapic(DeliverStep),
    Done,
}

/// The step of a device's interrupt after a reply.
pub open spec fn line_next(step: LineStep, contexts: RunContextsView, reply: HostReply) -> LineStep {
    match step {
        LineStep::CurrentTime { vcpu_id } => match reply {
            HostReply::Nanos(now_ns) => LineStep::ConsumePitIrq { vcpu_id, now_ns },
            _ => step,
        },
        LineStep::ConsumePitIrq { vcpu_id, now_ns } => match reply {
            HostReply::Flag(true) => LineStep::ThroughPic {
                line: IrqLine::Pit,
                deliver: DeliverStep::AssertPic { vcpu_id, irq: X86_PIT_TIMER_IRQ },
            },
            HostReply::Flag(false) => LineStep::Done,
            _ => step,
        },
        LineStep::PollSerialIrq { vcpu_id } => match reply {
            HostReply::Flag(true) => LineStep::ThroughPic {
                line: IrqLine::Serial,
                deliver: DeliverStep::AssertPic { vcpu_id, irq: X86_COM1_IRQ },
            },
            HostReply::Flag(false) => LineStep::Done,
            _ => step,
        },
        LineStep::ThroughPic { line, deliver } => match deliver_next(deliver, contexts, reply) {
            DeliverStep::Done(true) => LineStep::Done,
            DeliverStep::Done(false) => LineStep::AssertGsi { gsi: line.spec_gsi() },
            next => LineStep::ThroughPic { line, deliver: next },
        },
        LineStep::AssertGsi { gsi } => match reply {
            HostReply::Irq(Some(irq)) => LineStep::ThroughIoapic(
                ioapic_delivery(ioapic_target(irq, 0), irq.vector, irq.level_triggered),
            ),
            HostReply::Irq(None) => LineStep::Done,
            _ => step,
        },
        LineStep::ThroughIoapic(deliver) => match deliver_next(deliver, contexts, reply) {
            DeliverStep::Done(_) => LineStep::Done,
            next => LineStep::ThroughIoapic(next),
        },
        LineStep::Done => step,
    }
}

/// Goes on with a device's interrupt after the host's reply.
pub fn line_resume(step: LineStep, contexts: &RunContexts, reply: HostReply) -> (next: LineStep)
    requires
        contexts.wf(),
    ensures
        next == line_next(step, contexts@, reply),
{
    match step {
        LineStep::CurrentTime { vcpu_id } => match reply {
            HostReply::Nanos(now_ns) => LineStep::ConsumePitIrq { vcpu_id, now_ns },
            _ => step,
        },
        LineStep::ConsumePitIrq { vcpu_id, now_ns: _ } => match reply {
            HostReply::Flag(true) => LineStep::ThroughPic {
                line: IrqLine::Pit,
                deliver: inject_x86_pic_irq(vcpu_id, IrqLine::Pit.irq()),
            },
            HostReply::Flag(false) => LineStep::Done,
            _ => step,
        },
        LineStep::PollSerialIrq { vcpu_id } => match reply {
            HostReply::Flag(true) => LineStep::ThroughPic {
                line: IrqLine::Serial,
                deliver: inject_x86_pic_irq(vcpu_id, IrqLine::Serial.irq()),
            },
            HostReply::Flag(false) => LineStep::Done,
            _ => step,
        },
        LineStep::ThroughPic { line, deliver } => match deliver_resume(deliver, contexts, reply) {
            DeliverStep::Done(true) => LineStep::Done,
            DeliverStep::Done(false) => LineStep::AssertGsi { gsi: line.gsi() },
            next => LineStep::ThroughPic { line, deliver: next },
        },
        LineStep::AssertGsi { gsi: _ } => match reply {
            HostReply::Irq(Some(irq)) => LineStep::ThroughIoapic(deliver_ioapic_irq(irq, 0)),
            HostReply::Irq(None) => LineStep::Done,
            _ => step,
        },
        LineStep::ThroughIoapic(deliver) => match deliver_resume(deliver, contexts, reply) {
            DeliverStep::Done(_) => LineStep::Done,
            next => LineStep::ThroughIoapic(next),
        },
        LineStep::Done => step,
    }
}

/// Begins the interval timer's interrupt, where it is due.
pub fn inject_due_x86_pit_irq0(vcpu_id: usize) -> (step: LineStep)
    ensures
        step == (LineStep::CurrentTime { vcpu_id }),
{
    LineStep::CurrentTime { vcpu_id }
}

/// Begins the serial line's interrupt, where there is one.
pub fn inject_pending_x86_serial_irq(vcpu_id: usize) -> (step: LineStep)
    ensures
        step == (LineStep::PollSerialIrq { vcpu_id }),
{
    LineStep::PollSerialIrq { vcpu_id }
}

/// The interrupts of all devices, in order.
#[derive(Clone, Copy, Debug, PartialEq, Eq, Structural)]
pub enum VirqStep {
    Pit { vcpu_id: usize, line: LineStep },
    Serial(LineStep),
    Done,
}

/// The start of the device interrupts: only the first vCPU takes them.
pub open spec fn virq_start(vcpu_id: usize) -> VirqStep {
    if vcpu_id != 0 {
        VirqStep::Done
    } else {
        VirqStep::Pit { vcpu_id, line: LineStep::CurrentTime { vcpu_id } }
    }
}

/// Begins the device interrupts of a vCPU; only the first vCPU takes them.
pub fn progress_x86_virtual_irqs(vcpu_id: usize) -> (step: VirqStep)
    ensures
        step == virq_start(vcpu_id),
{
    if vcpu_id != 0 {
        return VirqStep::Done;
    }
    VirqStep::Pit { vcpu_id, line: inject_due_x86_pit_irq0(vcpu_id) }
}

/// The step of the device interrupts after a reply: the interval timer's first,
/// then the serial line's.
pub open spec fn virq_next(step: VirqStep, contexts: RunContextsView, reply: HostReply) -> VirqStep {
    match step {
        VirqStep::Pit { vcpu_id, line } => match line_next(line, contexts, reply) {
            LineStep::Done => VirqStep::Serial(LineStep::PollSerialIrq { vcpu_id }),
            next => VirqStep::Pit { vcpu_id, line: next },
        },
        VirqStep::Serial(line) => match line_next(line, contexts, reply) {
            LineStep::Done => VirqStep::Done,
            next => VirqStep::Serial(next),
        },
        VirqStep::Done => step,
    }
}

/// Goes on with the device interrupts after the host's reply.
pub fn virq_resume(step: VirqStep, contexts: &RunContexts, reply: HostReply) -> (next: VirqStep)
    requires
        contexts.wf(),
    ensures
        next == virq_next(step, contexts@, reply),
{
    match step {
        VirqStep::Pit { vcpu_id, line } => match line_resume(line, contexts, reply) {
            LineStep::Done => VirqStep::Serial(inject_pending_x86_serial_irq(vcpu_id)),
            next => VirqStep::Pit { vcpu_id, line: next },
        },
        VirqStep::Serial(line) => match line_resume(line, contexts, reply) {
            LineStep::Done => VirqStep::Done,
            next => VirqStep::Serial(next),
        },
        VirqStep::Done => step,
    }
}

/// The end of an interrupt that a guest acknowledged.
#[derive(Clone, Copy, Debug, PartialEq, Eq, Structural)]
pub enum EoiStep {
    /// Tell the interrupt controller.
    EndPic { vcpu_id: usize, vector: u8 },
    /// Tell the I/O APIC; an interrupt may have waited for it.
    EndIoapic { vcpu_id: usize, vector: u8 },
    /// Deliver the interrupt that waited.
    Deliver(DeliverStep),
    Done,
}

/// Begins the end of an interrupt; without a vector there is nothing to do.
pub fn complete_x86_external_eoi(vcpu_id: usize, vector: Option<u8>) -> (step: EoiStep)
    ensures
        step == (match vector {
            Some(vector) => EoiStep::EndPic { vcpu_id, vector },
            None => EoiStep::Done,
        }),
{
    match vector {
        Some(vector) => EoiStep::EndPic { vcpu_id, vector },
        None => EoiStep::Done,
    }
}

/// The step of an end of interrupt after a reply. An interrupt that waited goes to
/// its own target, or else to the vCPU that acknowledged.
pub open spec fn eoi_next(step: EoiStep, contexts: RunContextsView, reply: HostReply) -> EoiStep {
    match step {
        EoiStep::EndPic { vcpu_id, vector } => match reply {
            HostReply::Done => EoiStep::EndIoapic { vcpu_id, vector },
            _ => step,
        },
        EoiStep::EndIoapic { vcpu_id, vector } => match reply {
            HostReply::Irq(Some(irq)) => EoiStep::Deliver(
                ioapic_delivery(ioapic_target(irq, vcpu_id), irq.vector, irq.level_triggered),
            ),
            HostReply::Irq(None) => EoiStep::Done,
            _ => step,
        },
        EoiStep::Deliver(deliver) => match deliver_next(deliver, contexts, reply) {
            DeliverStep::Done(_) => EoiStep::Done,
            next => EoiStep::Deliver(next),
        },
        EoiStep::Done => step,
    }
}

/// Goes on with the end of an interrupt after the host's reply.
pub fn eoi_resume(step: EoiStep, contexts: &RunContexts, reply: HostReply) -> (next: EoiStep)
    requires
        contexts.wf(),
    ensures
        next == eoi_next(step, contexts@, reply),
{
    match step {
        EoiStep::EndPic { vcpu_id, vector } => match reply {
            HostReply::Done => EoiStep::EndIoapic { vcpu_id, vector },
            _ => step,
        },
        EoiStep::EndIoapic { vcpu_id, vector: _ } => match reply {
            HostReply::Irq(Some(irq)) => EoiStep::Deliver(deliver_ioapic_irq(irq, vcpu_id)),
            HostReply::Irq(None) => EoiStep::Done,
            _ => step,
        },
        EoiStep::Deliver(deliver) => match deliver_resume(deliver, contexts, reply) {
            DeliverStep::Done(_) => EoiStep::Done,
            next => EoiStep::Deliver(next),
        },
        EoiStep::Done => step,
    }
}

/// The injection of an interrupt by its global number: through the I/O APIC, with
/// a default entry where the guest set none, then through the machine's own
/// injection, with the default entry where that fails, then for the low numbers
/// through the interrupt controller. `Done` holds the result.
#[derive(Clone, Copy, Debug, PartialEq, Eq, Structural)]
pub enum InjectIrqStep {
    /// Raise the pin.
    AssertGsi { gsi: u32 },
    /// Set the pin's entry to the default.
    SetDefaultEntry { gsi: u32, entry: u64 },
    /// Raise the pin with its default entry.
    AssertGsiAgain { gsi: u32 },
    /// Deliver what the I/O APIC raised.
    Deliver(DeliverStep),
    /// Let the machine inject.
    InjectGsi { gsi: u32 },
    /// Set the pin's entry to the default after the machine failed.
    SetEntryAfterFailure { gsi: u32, entry: u64, err: i32 },
    /// Let the machine inject again.
    InjectGsiAgain { gsi: u32, err: i32 },
    /// Deliver through the interrupt controller.
    ThroughPic { deliver: DeliverStep, err: i32 },
    Done(i32),
}

/// The entry of a pin that the guest did not set: the vectors from 0x20 on.
pub open spec fn default_entry(gsi: u32) -> u64 {
    (0x20 + gsi) as u64
}

/// The last resort after the machine failed.
pub open spec fn inject_last_resort(gsi: u32, err: i32) -> InjectIrqStep {
    if gsi < 16 {
        InjectIrqStep::ThroughPic { deliver: DeliverStep::AssertPic { vcpu_id: 0, irq: gsi as u8 }, err }
    } else {
        InjectIrqStep::Done(err)
    }
}

fn last_resort(gsi: u32, err: i32) -> (step: InjectIrqStep)
    ensures
        step == inject_last_resort(gsi, err),
{
    if gsi < 16 {
        InjectIrqStep::ThroughPic { deliver: inject_x86_pic_irq(0, gsi as u8), err }
    } else {
        InjectIrqStep::Done(err)
    }
}

/// Begins the injection of an interrupt into a VM; refused unless the VM exists
/// and is booted.
pub fn axvisor_kvm_rs_inject_irq(bridge: &Bridge, backend_vm: u64, gsi: u32) -> (step: InjectIrqStep)
    requires
        bridge.wf(),
    ensures
        step == (if !(bridge@.vm_live(backend_vm) && bridge@.vm(backend_vm).booted) {
            InjectIrqStep::Done((-EINVAL) as i32)
        } else if gsi < KVM_IOAPIC_NUM_PINS {
            InjectIrqStep::AssertGsi { gsi }
        } else {
            InjectIrqStep::InjectGsi { gsi }
        }),
{
    if !axvm_for_vm_id(bridge, backend_vm) {
        return InjectIrqStep::Done(-EINVAL);
    }
    if gsi < KVM_IOAPIC_NUM_PINS as u32 {
        InjectIrqStep::AssertGsi { gsi }
    } else {
        InjectIrqStep::InjectGsi { gsi }
    }
}

/// The step of an injection after a reply.
pub open spec fn inject_next(step: InjectIrqStep, contexts: RunContextsView, reply: HostReply) -> InjectIrqStep {
    match step {
        InjectIrqStep::AssertGsi { gsi } => match reply {
            HostReply::Irq(Some(irq)) => InjectIrqStep::Deliver(
                ioapic_delivery(ioapic_target(irq, 0), irq.vector, irq.level_triggered),
            ),
            HostReply::Irq(None) => InjectIrqStep::SetDefaultEntry { gsi, entry: default_entry(gsi) },
            _ => step,
        },
        InjectIrqStep::SetDefaultEntry { gsi, entry } => match reply {
            HostReply::Flag(true) => InjectIrqStep::AssertGsiAgain { gsi },
            HostReply::Flag(false) => InjectIrqStep::InjectGsi { gsi },
            _ => step,
        },
        InjectIrqStep::AssertGsiAgain { gsi } => match reply {
            HostReply::Irq(Some(irq)) => InjectIrqStep::Deliver(
                ioapic_delivery(ioapic_target(irq, 0), irq.vector, irq.level_triggered),
            ),
            HostReply::Irq(None) => InjectIrqStep::InjectGsi { gsi },
            _ => step,
        },
        InjectIrqStep::Deliver(deliver) => match deliver_next(deliver, contexts, reply) {
            DeliverStep::Done(_) => InjectIrqStep::Done(0),
            next => InjectIrqStep::Deliver(next),
        },
        InjectIrqStep::InjectGsi { gsi } => match reply {
            HostReply::Outcome(Ok(_)) => InjectIrqStep::Done(0),
            HostReply::Outcome(Err(err)) => if gsi < KVM_IOAPIC_NUM_PINS {
                InjectIrqStep::SetEntryAfterFailure { gsi, entry: default_entry(gsi), err }
            } else {
                inject_last_resort(gsi, err)
            },
            _ => step,
        },
        InjectIrqStep::SetEntryAfterFailure { gsi, entry, err } => match reply {
            HostReply::Flag(true) => InjectIrqStep::InjectGsiAgain { gsi, err },
            HostReply::Flag(false) => inject_last_resort(gsi, err),
            _ => step,
        },
        InjectIrqStep::InjectGsiAgain { gsi, err } => match reply {
            HostReply::Outcome(Ok(_)) => InjectIrqStep::Done(0),
            HostReply::Outcome(Err(_)) => inject_last_resort(gsi, err),
            _ => step,
        },
        InjectIrqStep::ThroughPic { deliver, err } => match deliver_next(deliver, contexts, reply) {
            DeliverStep::Done(true) => InjectIrqStep::Done(0),
            DeliverStep::Done(false) => InjectIrqStep::Done(err),
            next => InjectIrqStep::ThroughPic { deliver: next, err },
        },
        InjectIrqStep::Done(_) => step,
    }
}

/// Goes on with an injection after the host's reply.
pub fn inject_irq_resume(step: InjectIrqStep, contexts: &RunContexts, reply: HostReply) -> (next: InjectIrqStep)
    requires
        contexts.wf(),
    ensures
        next == inject_next(step, contexts@, reply),
{
    match step {
        InjectIrqStep::AssertGsi { gsi } => match reply {
            HostReply::Irq(Some(irq)) => InjectIrqStep::Deliver(deliver_ioapic_irq(irq, 0)),
            HostReply::Irq(None) => InjectIrqStep::SetDefaultEntry { gsi, entry: 0x20 + gsi as u64 },
            _ => step,
        },
        InjectIrqStep::SetDefaultEntry { gsi, entry: _ } => match reply {
            HostReply::Flag(true) => InjectIrqStep::AssertGsiAgain { gsi },
            HostReply::Flag(false) => InjectIrqStep::InjectGsi { gsi },
            _ => step,
        },
        InjectIrqStep::AssertGsiAgain { gsi } => match reply {
            HostReply::Irq(Some(irq)) => InjectIrqStep::Deliver(deliver_ioapic_irq(irq, 0)),
            HostReply::Irq(None) => InjectIrqStep::InjectGsi { gsi },
            _ => step,
        },
        InjectIrqStep::Deliver(deliver) => match deliver_resume(deliver, contexts, reply) {
            DeliverStep::Done(_) => InjectIrqStep::Done(0),
            next => InjectIrqStep::Deliver(next),
        },
        InjectIrqStep::InjectGsi { gsi } => match reply {
            HostReply::Outcome(Ok(_)) => InjectIrqStep::Done(0),
            HostReply::Outcome(Err(err)) => if gsi < KVM_IOAPIC_NUM_PINS as u32 {
                InjectIrqStep::SetEntryAfterFailure { gsi, entry: 0x20 + gsi as u64, err }
            } else {
                last_resort(gsi, err)
            },
            _ => step,
        },
        InjectIrqStep::SetEntryAfterFailure { gsi, entry: _, err } => match reply {
            HostReply::Flag(true) => InjectIrqStep::InjectGsiAgain { gsi, err },
            HostReply::Flag(false) => last_resort(gsi, err),
            _ => step,
        },
        InjectIrqStep::InjectGsiAgain { gsi, err } => match reply {
            HostReply::Outcome(Ok(_)) => InjectIrqStep::Done(0),
            HostReply::Outcome(Err(_)) => last_resort(gsi, err),
            _ => step,
        },
        InjectIrqStep::ThroughPic { deliver, err } => match deliver_resume(deliver, contexts, reply) {
            DeliverStep::Done(true) => InjectIrqStep::Done(0),
            DeliverStep::Done(false) => InjectIrqStep::Done(err),
            next => InjectIrqStep::ThroughPic { deliver: next, err },
        },
        InjectIrqStep::Done(_) => step,
    }
}

/// An interrupt from one vCPU, or from a device, to a set of vCPUs of a VM.
#[derive(Clone, Copy, Debug, PartialEq, Eq, Structural)]
pub enum IpiStep {
    /// Tell which task is calling; asked before the first target.
    SenderTask { vm_id: u64, targets: u64, vector: u8 },
    /// Tell whether the machine has a target.
    FindVcpu { ipi: Ipi },
    /// Inject the vector into a target.
    Inject { ipi: Ipi },
    /// Wake a target.
    Wake { ipi: Ipi },
    /// Run a target promptly: it is not the sender.
    Boost { ipi: Ipi },
    Done,
}

/// Where a sequence of injections stands: the target, the targets after it, and
/// the sender.
#[derive(Clone, Copy, Debug, PartialEq, Eq, Structural)]
pub struct Ipi {
    pub vm_id: u64,
    pub target: usize,
    pub rest: u64,
    pub vector: u8,
    pub sender: usize,
}

/// The lowest member of a nonempty set of small numbers kept as a mask.
pub open spec fn lowest(mask: u64, k: u64) -> bool {
    &&& k < 64
    &&& (mask >> k) & 1 == 1
    &&& forall|j: u64| j < k ==> #[trigger] (mask >> j) & 1 == 0
}

/// A set without one of its members.
pub open spec fn without_bit(mask: u64, k: u64) -> u64 {
    mask & !(1u64 << k)
}

/// The step that turns to the lowest target left.
pub open spec fn ipi_turn(vm_id: u64, targets: u64, vector: u8, sender: usize) -> IpiStep {
    if targets == 0 {
        IpiStep::Done
    } else {
        let k = choose|k: u64| lowest(targets, k);
        IpiStep::FindVcpu {
            ipi: Ipi { vm_id, target: k as usize, rest: without_bit(targets, k), vector, sender },
        }
    }
}

proof fn lemma_one_more_bit_clear(mask: u64, k: u64)
    by (bit_vector)
    requires
        k < 64,
        (mask >> k) & 1 == 0,
        mask == (mask >> k) << k,
    ensures
        mask == (mask >> ((k + 1) as u64)) << ((k + 1) as u64),
{
}

proof fn lemma_low_bits_clear(mask: u64, k: u64)
    requires
        k <= 64,
        forall|j: u64| j < 64 ==> #[trigger] (mask >> j) & 1 == 0,
    ensures
        mask == (mask >> k) << k,
    decreases k,
{
    if k == 0 {
        assert(mask == (mask >> 0u64) << 0u64) by (bit_vector);
    } else {
        let below = (k - 1) as u64;
        lemma_low_bits_clear(mask, below);
        assert((mask >> below) & 1 == 0);
        lemma_one_more_bit_clear(mask, below);
    }
}

proof fn lemma_all_bits_clear(mask: u64)
    requires
        forall|j: u64| j < 64 ==> #[trigger] (mask >> j) & 1 == 0,
    ensures
        mask == 0,
{
    lemma_low_bits_clear(mask, 64);
    assert((mask >> 64u64) << 64u64 == 0) by (bit_vector);
}

fn next_target(vm_id: u64, targets: u64, vector: u8, sender: usize) -> (step: IpiStep)
    ensures
        step == ipi_turn(vm_id, targets, vector, sender),
{
    if targets == 0 {
        return IpiStep::Done;
    }
    let mut k: u64 = 0;
    while k < 64
        invariant
            k <= 64,
            targets != 0,
            forall|j: u64| j < k ==> #[trigger] (targets >> j) & 1 == 0,
        decreases 64 - k,
    {
        let bit: u64 = (targets >> k) & 1;
        if bit == 1 {
            proof {
                assert(lowest(targets, k));
                let other = choose|o: u64| lowest(targets, o);
                assert(lowest(targets, other));
                if other < k {
                    assert((targets >> other) & 1 == 0);
                }
                if k < other {
                    assert((targets >> k) & 1 == 0);
                }
            }
            return IpiStep::FindVcpu {
                ipi: Ipi { vm_id, target: k as usize, rest: targets & !(1u64 << k), vector, sender },
            };
        }
        proof {
            assert(bit == 0 || bit == 1) by (bit_vector)
                requires
                    bit == (targets >> k) & 1,
            ;
        }
        k += 1;
    }
    proof {
        lemma_all_bits_clear(targets);
    }
    IpiStep::Done
}

/// Begins an interrupt to a set of vCPUs of a VM, given as a mask of ids; nothing
/// happens unless the VM exists and is booted.
pub fn inject_interrupt_to_cpus(bridge: &Bridge, vm_id: u64, vcpu_set: u64, vector: u8) -> (step: IpiStep)
    requires
        bridge.wf(),
    ensures
        step == (if bridge@.vm_live(vm_id) && bridge@.vm(vm_id).booted {
            IpiStep::SenderTask { vm_id, targets: vcpu_set, vector }
        } else {
            IpiStep::Done
        }),
{
    if !axvm_for_vm_id(bridge, vm_id) {
        return IpiStep::Done;
    }
    IpiStep::SenderTask { vm_id, targets: vcpu_set, vector }
}

/// The step of an interrupt to a set of vCPUs after a reply. A target that the
/// machine does not have, or that refuses the vector, is passed over.
pub open spec fn ipi_next(step: IpiStep, contexts: RunContextsView, reply: HostReply) -> IpiStep {
    match (step, reply) {
        (IpiStep::SenderTask { vm_id, targets, vector }, HostReply::TaskId(task_id)) => ipi_turn(
            vm_id,
            targets,
            vector,
            contexts.vcpu_of(task_id),
        ),
        (IpiStep::FindVcpu { ipi }, HostReply::Flag(found)) => if found {
            IpiStep::Inject { ipi }
        } else {
            ipi_turn(ipi.vm_id, ipi.rest, ipi.vector, ipi.sender)
        },
        (IpiStep::Inject { ipi }, HostReply::Outcome(outcome)) => if outcome is Ok {
            IpiStep::Wake { ipi }
        } else {
            ipi_turn(ipi.vm_id, ipi.rest, ipi.vector, ipi.sender)
        },
        (IpiStep::Wake { ipi }, HostReply::Done) => if ipi.target != ipi.sender {
            IpiStep::Boost { ipi }
        } else {
            ipi_turn(ipi.vm_id, ipi.rest, ipi.vector, ipi.sender)
        },
        (IpiStep::Boost { ipi }, HostReply::Done) => ipi_turn(ipi.vm_id, ipi.rest, ipi.vector, ipi.sender),
        _ => step,
    }
}

/// Goes on with an interrupt to a set of vCPUs after the host's reply.
pub fn ipi_resume(step: IpiStep, contexts: &RunContexts, reply: HostReply) -> (next: IpiStep)
    requires
        contexts.wf(),
    ensures
        next == ipi_next(step, contexts@, reply),
{
    match (step, reply) {
        (IpiStep::SenderTask { vm_id, targets, vector }, HostReply::TaskId(task_id)) => {
            let sender: usize = contexts.current_vcpu_id(task_id);
            next_target(vm_id, targets, vector, sender)
        },
        (IpiStep::FindVcpu { ipi }, HostReply::Flag(found)) => if found {
            IpiStep::Inject { ipi }
        } else {
            next_target(ipi.vm_id, ipi.rest, ipi.vector, ipi.sender)
        },
        (IpiStep::Inject { ipi }, HostReply::Outcome(outcome)) => if outcome.is_ok() {
            IpiStep::Wake { ipi }
        } else {
            next_target(ipi.vm_id, ipi.rest, ipi.vector, ipi.sender)
        },
        (IpiStep::Wake { ipi }, HostReply::Done) => if ipi.target != ipi.sender {
            IpiStep::Boost { ipi }
        } else {
            next_target(ipi.vm_id, ipi.rest, ipi.vector, ipi.sender)
        },
        (IpiStep::Boost { ipi }, HostReply::Done) => next_target(ipi.vm_id, ipi.rest, ipi.vector, ipi.sender),
        _ => step,
    }
}

/// An interrupt to one vCPU of a VM.
#[derive(Clone, Copy, Debug, PartialEq, Eq, Structural)]
pub enum InjectStep {
    /// Tell whether the machine has the vCPU.
    FindVcpu { vm_id: u64, vcpu_id: usize, vector: u8 },
    /// Inject the vector.
    Inject { vm_id: u64, vcpu_id: usize, vector: u8 },
    /// Wake the vCPU.
    Wake { vm_id: u64, vcpu_id: usize },
    /// Tell which task is calling.
    SenderTask { vm_id: u64, vcpu_id: usize },
    /// Run the vCPU promptly: it is not the sender.
    Boost { vm_id: u64, vcpu_id: usize },
    Done,
}

/// Begins an interrupt to one vCPU of a VM; nothing happens unless the VM exists
/// and is booted.
pub fn inject_interrupt(bridge: &Bridge, vm_id: u64, vcpu_id: usize, vector: u8) -> (step: InjectStep)
    requires
        bridge.wf(),
    ensures
        step == (if bridge@.vm_live(vm_id) && bridge@.vm(vm_id).booted {
            InjectStep::FindVcpu { vm_id, vcpu_id, vector }
        } else {
            InjectStep::Done
        }),
{
    if !axvm_for_vm_id(bridge, vm_id) {
        return InjectStep::Done;
    }
    InjectStep::FindVcpu { vm_id, vcpu_id, vector }
}

/// The step of an interrupt to one vCPU after a reply.
pub open spec fn inject_one_next(step: InjectStep, contexts: RunContextsView, reply: HostReply) -> InjectStep {
    match (step, reply) {
        (InjectStep::FindVcpu { vm_id, vcpu_id, vector }, HostReply::Flag(found)) => if found {
            InjectStep::Inject { vm_id, vcpu_id, vector }
        } else {
            InjectStep::Done
        },
        (InjectStep::Inject { vm_id, vcpu_id, vector }, HostReply::Outcome(outcome)) => if outcome is Ok {
            InjectStep::Wake { vm_id, vcpu_id }
        } else {
            InjectStep::Done
        },
        (InjectStep::Wake { vm_id, vcpu_id }, HostReply::Done) => InjectStep::SenderTask { vm_id, vcpu_id },
        (InjectStep::SenderTask { vm_id, vcpu_id }, HostReply::TaskId(task_id)) => if vcpu_id != contexts.vcpu_of(
            task_id,
        ) {
            InjectStep::Boost { vm_id, vcpu_id }
        } else {
            InjectStep::Done
        },
        (InjectStep::Boost { vm_id, vcpu_id }, HostReply::Done) => InjectStep::Done,
        _ => step,
    }
}

/// Goes on with an interrupt to one vCPU after the host's reply.
pub fn inject_interrupt_resume(step: InjectStep, contexts: &RunContexts, reply: HostReply) -> (next: InjectStep)
    requires
        contexts.wf(),
    ensures
        next == inject_one_next(step, contexts@, reply),
{
    match (step, reply) {
        (InjectStep::FindVcpu { vm_id, vcpu_id, vector }, HostReply::Flag(found)) => if found {
            InjectStep::Inject { vm_id, vcpu_id, vector }
        } else {
            InjectStep::Done
        },
        (InjectStep::Inject { vm_id, vcpu_id, vector: _ }, HostReply::Outcome(outcome)) => if outcome.is_ok() {
            InjectStep::Wake { vm_id, vcpu_id }
        } else {
            InjectStep::Done
        },
        (InjectStep::Wake { vm_id, vcpu_id }, HostReply::Done) => InjectStep::SenderTask { vm_id, vcpu_id },
        (InjectStep::SenderTask { vm_id, vcpu_id }, HostReply::TaskId(task_id)) => if vcpu_id
            != contexts.current_vcpu_id(task_id) {
            InjectStep::Boost { vm_id, vcpu_id }
        } else {
            InjectStep::Done
        },
        (InjectStep::Boost { vm_id: _, vcpu_id: _ }, HostReply::Done) => InjectStep::Done,
        _ => step,
    }
}

/// An interrupt that was injected always wakes its target: a delivery is reported
/// as arrived only after the wake-up was done.
pub proof fn delivered_interrupt_wakes_its_target(step: DeliverStep, contexts: RunContextsView, reply: HostReply)
    requires
        !(step is Done),
        deliver_next(step, contexts, reply) == DeliverStep::Done(true),
    ensures
        step is Wake,
        reply is Done,
{
}

/// A set of targets shrinks with every target that was turned to, and no target is
/// turned to twice.
pub proof fn target_is_turned_to_once(vm_id: u64, targets: u64, vector: u8, sender: usize)
    requires
        targets != 0,
    ensures
        ({
            let step = ipi_turn(vm_id, targets, vector, sender);
            &&& step matches IpiStep::FindVcpu { ipi }
            &&& ipi.target < 64
            &&& (targets >> ipi.target as u64) & 1 == 1
            &&& (ipi.rest >> ipi.target as u64) & 1 == 0
            &&& ipi.rest < targets
        }),
{
    let k = choose|k: u64| lowest(targets, k);
    lemma_has_lowest(targets, 0);
    assert(lowest(targets, k));
    lemma_without_bit(targets, k);
}

proof fn lemma_without_bit(mask: u64, k: u64)
    by (bit_vector)
    requires
        k < 64,
        (mask >> k) & 1 == 1,
    ensures
        (mask & !(1u64 << k)) >> k & 1 == 0,
        mask & !(1u64 << k) < mask,
{
}

pub(crate) proof fn lemma_has_lowest(mask: u64, k: u64)
    requires
        mask != 0,
        k <= 64,
        forall|j: u64| j < k ==> #[trigger] (mask >> j) & 1 == 0,
    ensures
        exists|i: u64| lowest(mask, i),
    decreases 64 - k,
{
    if k == 64 {
        lemma_all_bits_clear(mask);
    } else {
        let bit = (mask >> k) & 1;
        assert(bit == 0 || bit == 1) by (bit_vector)
            requires
                bit == (mask >> k) & 1,
        ;
        if bit == 1 {
            assert(lowest(mask, k));
        } else {
            lemma_has_lowest(mask, (k + 1) as u64);
        }
    }
}

impl InjectIrqStep {
    /// The error that the machine gave first, once it gave one.
    pub open spec fn first_error(self) -> Option<i32> {
        match self {
            InjectIrqStep::SetEntryAfterFailure { gsi, entry, err } => Some(err),
            InjectIrqStep::InjectGsiAgain { gsi, err } => Some(err),
            InjectIrqStep::ThroughPic { deliver, err } => Some(err),
            _ => None,
        }
    }
}

/// An injection that the machine refused ends with success, or with the error that
/// the machine gave first, whatever comes after it.
pub proof fn injection_keeps_the_first_error(step: InjectIrqStep, contexts: RunContextsView, reply: HostReply)
    requires
        step.first_error() is Some,
    ensures
        ({
            let next = inject_next(step, contexts, reply);
            ||| next.first_error() == step.first_error()
            ||| next == InjectIrqStep::Done(0)
            ||| next == InjectIrqStep::Done(step.first_error()->Some_0)
        }),
{
}

} // verus!
