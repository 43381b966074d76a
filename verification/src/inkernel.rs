//! Guest accesses that devices in the kernel serve, and reads that wait for data
//! from outside.
use vstd::prelude::*;

use crate::access::{
    inkernel_port, is_x86_inkernel_irqchip_port, is_x86_pic_port, is_x86_pit_port, load_value, loaded_value, pic_port,
    pit_port, truncate_to_width, truncated, width_bytes, AccessWidth, GuestPhysAddr, Port,
};
use crate::bytes::{le_value, mmio_read_value};
use crate::errno::{EINVAL, EOPNOTSUPP};
use crate::host::HostReply;
use crate::state::{
    vcpu_index_from_handle, vm_index_from_handle, BackendVcpu, Bridge, BridgeView, PendingIoRead, PendingMmioRead,
    MAX_VCPUS,
};
use crate::vcpu::lemma_vcpu_update_keeps_inv;

verus! {

/// The device that serves a port in the kernel.
#[derive(Clone, Copy, Debug, PartialEq, Eq, Structural)]
pub enum PortDevice {
    Pit,
    Pic,
    /// Any other device of the machine.
    Other,
}

/// The device that serves a port.
pub open spec fn port_device(n: u16) -> PortDevice {
    if pit_port(n) {
        PortDevice::Pit
    } else if pic_port(n) {
        PortDevice::Pic
    } else {
        PortDevice::Other
    }
}

fn device_of_port(port: Port) -> (d: PortDevice)
    ensures
        d == port_device(port.0),
{
    if is_x86_pit_port(port) {
        PortDevice::Pit
    } else if is_x86_pic_port(port) {
        PortDevice::Pic
    } else {
        PortDevice::Other
    }
}

/// An access served in the kernel. `Done` holds the result: zero, an error, or
/// that the access is not served in the kernel.
#[derive(Clone, Copy, Debug, PartialEq, Eq, Structural)]
pub enum InKernelStep {
    /// Read a port of a device.
    ReadPort { vcpu_id: usize, device: PortDevice, port: Port, width: AccessWidth },
    /// Hand the guest what it read from a port.
    CompleteIoRead { vcpu_id: usize, value: u64, size: u32 },
    /// Write a port of a device.
    WritePort { device: PortDevice, port: Port, width: AccessWidth, value: u64 },
    /// Tell whether a device serves an address that the guest reads.
    FindMmioForRead { read: MmioRead },
    /// Read from the device.
    ReadMmio { read: MmioRead },
    /// Tell whether the machine has the vCPU that reads.
    FindVcpu { vcpu_id: usize, reg: usize, value: u64 },
    /// Set a general register of the vCPU.
    SetGpr { vcpu_id: usize, reg: usize, value: u64 },
    /// Tell whether a device serves an address that the guest writes.
    FindMmioForWrite { addr: GuestPhysAddr, width: AccessWidth, value: u64 },
    /// Write to the device.
    WriteMmio { addr: GuestPhysAddr, width: AccessWidth, value: u64 },
    Done(i32),
}

/// A memory-mapped read of a vCPU.
#[derive(Clone, Copy, Debug, PartialEq, Eq, Structural)]
pub struct MmioRead {
    pub vcpu_id: usize,
    pub addr: GuestPhysAddr,
    pub width: AccessWidth,
    pub reg: usize,
    pub reg_width: AccessWidth,
    pub signed_ext: bool,
}

/// Begins a port read.
pub fn handle_x86_inkernel_io_read(vcpu_id: usize, port: Port, width: AccessWidth) -> (step: InKernelStep)
    ensures
        step == (if inkernel_port(port.0) {
            InKernelStep::ReadPort { vcpu_id, device: port_device(port.0), port, width }
        } else {
            InKernelStep::Done((-EOPNOTSUPP) as i32)
        }),
{
    if !is_x86_inkernel_irqchip_port(port) {
        return InKernelStep::Done(-EOPNOTSUPP);
    }
    InKernelStep::ReadPort { vcpu_id, device: device_of_port(port), port, width }
}

/// Begins a port write: the data is cut to the width.
pub fn handle_x86_inkernel_io_write(port: Port, width: AccessWidth, data: u64) -> (step: InKernelStep)
    ensures
        step == (if inkernel_port(port.0) {
            InKernelStep::WritePort { device: port_device(port.0), port, width, value: truncated(data, width) }
        } else {
            InKernelStep::Done((-EOPNOTSUPP) as i32)
        }),
{
    if !is_x86_inkernel_irqchip_port(port) {
        return InKernelStep::Done(-EOPNOTSUPP);
    }
    InKernelStep::WritePort { device: device_of_port(port), port, width, value: truncate_to_width(data, width) }
}

/// Begins a memory-mapped read.
pub fn handle_x86_inkernel_mmio_read(
    vcpu_id: usize,
    addr: GuestPhysAddr,
    width: AccessWidth,
    reg: usize,
    reg_width: AccessWidth,
    signed_ext: bool,
) -> (step: InKernelStep)
    ensures
        step == (InKernelStep::FindMmioForRead {
            read: MmioRead { vcpu_id, addr, width, reg, reg_width, signed_ext },
        }),
{
    InKernelStep::FindMmioForRead { read: MmioRead { vcpu_id, addr, width, reg, reg_width, signed_ext } }
}

/// Begins a memory-mapped write: the data is cut to the width.
pub fn handle_x86_inkernel_mmio_write(addr: GuestPhysAddr, width: AccessWidth, data: u64) -> (step: InKernelStep)
    ensures
        step == (InKernelStep::FindMmioForWrite { addr, width, value: truncated(data, width) }),
{
    InKernelStep::FindMmioForWrite { addr, width, value: truncate_to_width(data, width) }
}

/// The end of an access with the outcome of its last act.
pub open spec fn access_end(outcome: Result<(), i32>) -> InKernelStep {
    match outcome {
        Ok(_) => InKernelStep::Done(0),
        Err(err) => InKernelStep::Done(err),
    }
}

/// The step of an access after a reply.
pub open spec fn inkernel_next(step: InKernelStep, reply: HostReply) -> InKernelStep {
    match (step, reply) {
        (InKernelStep::ReadPort { vcpu_id, device, port, width }, HostReply::Value(result)) => match result {
            Ok(value) => InKernelStep::CompleteIoRead { vcpu_id, value, size: width.bytes() },
            Err(err) => InKernelStep::Done(err),
        },
        (InKernelStep::CompleteIoRead { vcpu_id, value, size }, HostReply::Outcome(outcome)) => access_end(outcome),
        (InKernelStep::WritePort { device, port, width, value }, HostReply::Outcome(outcome)) => access_end(outcome),
        (InKernelStep::FindMmioForRead { read }, HostReply::Flag(found)) => if found {
            InKernelStep::ReadMmio { read }
        } else {
            InKernelStep::Done((-EOPNOTSUPP) as i32)
        },
        (InKernelStep::ReadMmio { read }, HostReply::Value(result)) => match result {
            Ok(raw) => InKernelStep::FindVcpu {
                vcpu_id: read.vcpu_id,
                reg: read.reg,
                value: loaded_value(raw, read.width, read.reg_width, read.signed_ext),
            },
            Err(err) => InKernelStep::Done(err),
        },
        (InKernelStep::FindVcpu { vcpu_id, reg, value }, HostReply::Flag(found)) => if found {
            InKernelStep::SetGpr { vcpu_id, reg, value }
        } else {
            InKernelStep::Done((-EINVAL) as i32)
        },
        (InKernelStep::SetGpr { vcpu_id, reg, value }, HostReply::Done) => InKernelStep::Done(0),
        (InKernelStep::FindMmioForWrite { addr, width, value }, HostReply::Flag(found)) => if found {
            InKernelStep::WriteMmio { addr, width, value }
        } else {
            InKernelStep::Done((-EOPNOTSUPP) as i32)
        },
        (InKernelStep::WriteMmio { addr, width, value }, HostReply::Outcome(outcome)) => access_end(outcome),
        _ => step,
    }
}

fn end_access(outcome: Result<(), i32>) -> (step: InKernelStep)
    ensures
        step == access_end(outcome),
{
    match outcome {
        Ok(_) => InKernelStep::Done(0),
        Err(err) => InKernelStep::Done(err),
    }
}

/// Goes on with an access after the host's reply.
pub fn inkernel_resume(step: InKernelStep, reply: HostReply) -> (next: InKernelStep)
    ensures
        next == inkernel_next(step, reply),
{
    match (step, reply) {
        (InKernelStep::ReadPort { vcpu_id, device: _, port: _, width }, HostReply::Value(result)) => match result {
            Ok(value) => InKernelStep::CompleteIoRead { vcpu_id, value, size: width_bytes(width) },
            Err(err) => InKernelStep::Done(err),
        },
        (InKernelStep::CompleteIoRead { vcpu_id: _, value: _, size: _ }, HostReply::Outcome(outcome)) => end_access(
            outcome,
        ),
        (InKernelStep::WritePort { device: _, port: _, width: _, value: _ }, HostReply::Outcome(outcome)) => end_access(
            outcome,
        ),
        (InKernelStep::FindMmioForRead { read }, HostReply::Flag(found)) => if found {
            InKernelStep::ReadMmio { read }
        } else {
            InKernelStep::Done(-EOPNOTSUPP)
        },
        (InKernelStep::ReadMmio { read }, HostReply::Value(result)) => match result {
            Ok(raw) => InKernelStep::FindVcpu {
                vcpu_id: read.vcpu_id,
                reg: read.reg,
                value: load_value(raw, read.width, read.reg_width, read.signed_ext),
            },
            Err(err) => InKernelStep::Done(err),
        },
        (InKernelStep::FindVcpu { vcpu_id, reg, value }, HostReply::Flag(found)) => if found {
            InKernelStep::SetGpr { vcpu_id, reg, value }
        } else {
            InKernelStep::Done(-EINVAL)
        },
        (InKernelStep::SetGpr { vcpu_id: _, reg: _, value: _ }, HostReply::Done) => InKernelStep::Done(0),
        (InKernelStep::FindMmioForWrite { addr, width, value }, HostReply::Flag(found)) => if found {
            InKernelStep::WriteMmio { addr, width, value }
        } else {
            InKernelStep::Done(-EOPNOTSUPP)
        },
        (InKernelStep::WriteMmio { addr: _, width: _, value: _ }, HostReply::Outcome(outcome)) => end_access(outcome),
        _ => step,
    }
}

/// The completion of a read that waited for data from outside. `Done` holds the
/// result.
#[derive(Clone, Copy, Debug, PartialEq, Eq, Structural)]
pub enum CompleteStep {
    /// Tell whether the machine has the vCPU.
    FindVcpu { slot: usize, vcpu_id: u32, reg: usize, value: u64 },
    /// Set a general register of the vCPU.
    SetGpr { slot: usize, vcpu_id: u32, reg: usize, value: u64 },
    /// Hand the guest what it read from a port.
    CompleteIoRead { slot: usize, vcpu_id: u32, value: u64, len: u32 },
    Done(i32),
}

impl CompleteStep {
    /// The vCPU of the step is one of the table.
    pub open spec fn wf(self) -> bool {
        match self {
            CompleteStep::FindVcpu { slot, vcpu_id, reg, value } => slot < MAX_VCPUS,
            CompleteStep::SetGpr { slot, vcpu_id, reg, value } => slot < MAX_VCPUS,
            CompleteStep::CompleteIoRead { slot, vcpu_id, value, len } => slot < MAX_VCPUS,
            CompleteStep::Done(_) => true,
        }
    }
}

impl BridgeView {
    /// A vCPU exists, and so does its VM, which is booted.
    pub open spec fn runnable(self, slot: int) -> bool {
        let v = self.vcpus[slot];
        v.in_use && self.vm_live(v.vm_handle) && self.vm(v.vm_handle).booted
    }
}

/// A vCPU exists, and so does its VM, which is booted.
pub fn vcpu_runnable(bridge: &Bridge, slot: usize) -> (r: bool)
    requires
        bridge.wf(),
        slot < MAX_VCPUS,
    ensures
        r == bridge@.runnable(slot as int),
{
    if !bridge.vcpus[slot].in_use {
        return false;
    }
    match vm_index_from_handle(bridge.vcpus[slot].vm_handle) {
        Err(_) => false,
        Ok(vm_index) => bridge.vms[vm_index].in_use && bridge.vms[vm_index].booted,
    }
}

/// A completion buffer of the length that an access asked for.
pub open spec fn buffer_fits(data: Option<&[u8]>, len: u32, width: AccessWidth) -> bool {
    data is Some && len == width.bytes()
}

/// The number in a completion buffer.
pub open spec fn buffer_value(data: Option<&[u8]>, len: u32) -> u64 {
    le_value(data->Some_0@.take(len as int)) as u64
}

/// Begins the completion of a memory-mapped read that waited: the data must have
/// the length that the read asked for.
pub fn axvisor_kvm_rs_complete_mmio_read(bridge: &Bridge, backend_vcpu: u64, data: Option<&[u8]>, len: u32) -> (step:
    CompleteStep)
    requires
        bridge.wf(),
        data matches Some(bytes) ==> bytes@.len() >= len,
    ensures
        step.wf(),
        step == ({
            let v = bridge@.vcpu(backend_vcpu);
            let p = v.pending_mmio_read;
            if bridge@.vcpu_live(backend_vcpu) && p.active && buffer_fits(data, len, p.width) && bridge@.runnable(
                backend_vcpu - 1,
            ) {
                CompleteStep::FindVcpu {
                    slot: (backend_vcpu - 1) as usize,
                    vcpu_id: v.id,
                    reg: p.reg,
                    value: loaded_value(buffer_value(data, len), p.width, p.reg_width, p.signed_ext),
                }
            } else {
                CompleteStep::Done((-EINVAL) as i32)
            }
        }),
{
    let slot: usize = match vcpu_index_from_handle(backend_vcpu) {
        Ok(slot) => slot,
        Err(err) => {
            return CompleteStep::Done(err);
        },
    };
    complete_pending_mmio_read(bridge, slot, data, len)
}

/// Begins the completion of a memory-mapped read of the vCPU at a position.
pub fn complete_pending_mmio_read(bridge: &Bridge, slot: usize, data: Option<&[u8]>, len: u32) -> (step: CompleteStep)
    requires
        bridge.wf(),
        slot < MAX_VCPUS,
        data matches Some(bytes) ==> bytes@.len() >= len,
    ensures
        step.wf(),
        step == ({
            let v = bridge@.vcpus[slot as int];
            let p = v.pending_mmio_read;
            if v.in_use && p.active && buffer_fits(data, len, p.width) && bridge@.runnable(slot as int) {
                CompleteStep::FindVcpu {
                    slot,
                    vcpu_id: v.id,
                    reg: p.reg,
                    value: loaded_value(buffer_value(data, len), p.width, p.reg_width, p.signed_ext),
                }
            } else {
                CompleteStep::Done((-EINVAL) as i32)
            }
        }),
{
    if !bridge.vcpus[slot].in_use {
        return CompleteStep::Done(-EINVAL);
    }
    let pending: PendingMmioRead = bridge.vcpus[slot].pending_mmio_read;
    if !pending.active {
        return CompleteStep::Done(-EINVAL);
    }
    if len != width_bytes(pending.width) {
        return CompleteStep::Done(-EINVAL);
    }
    let raw: u64 = match mmio_read_value(data, len) {
        Ok(raw) => raw,
        Err(err) => {
            return CompleteStep::Done(err);
        },
    };
    let value: u64 = load_value(raw, pending.width, pending.reg_width, pending.signed_ext);
    if !vcpu_runnable(bridge, slot) {
        return CompleteStep::Done(-EINVAL);
    }
    CompleteStep::FindVcpu { slot, vcpu_id: bridge.vcpus[slot].id, reg: pending.reg, value }
}

/// Begins the completion of a port read that waited: the data must have the length
/// that the read asked for.
pub fn axvisor_kvm_rs_complete_io_read(bridge: &Bridge, backend_vcpu: u64, data: Option<&[u8]>, len: u32) -> (step:
    CompleteStep)
    requires
        bridge.wf(),
        data matches Some(bytes) ==> bytes@.len() >= len,
    ensures
        step.wf(),
        step == ({
            let v = bridge@.vcpu(backend_vcpu);
            let p = v.pending_io_read;
            if bridge@.vcpu_live(backend_vcpu) && p.active && buffer_fits(data, len, p.width) && bridge@.runnable(
                backend_vcpu - 1,
            ) {
                CompleteStep::CompleteIoRead {
                    slot: (backend_vcpu - 1) as usize,
                    vcpu_id: v.id,
                    value: truncated(buffer_value(data, len), p.width),
                    len,
                }
            } else {
                CompleteStep::Done((-EINVAL) as i32)
            }
        }),
{
    let slot: usize = match vcpu_index_from_handle(backend_vcpu) {
        Ok(slot) => slot,
        Err(err) => {
            return CompleteStep::Done(err);
        },
    };
    complete_pending_io_read(bridge, slot, data, len)
}

/// Begins the completion of a port read of the vCPU at a position.
pub fn complete_pending_io_read(bridge: &Bridge, slot: usize, data: Option<&[u8]>, len: u32) -> (step: CompleteStep)
    requires
        bridge.wf(),
        slot < MAX_VCPUS,
        data matches Some(bytes) ==> bytes@.len() >= len,
    ensures
        step.wf(),
        step == ({
            let v = bridge@.vcpus[slot as int];
            let p = v.pending_io_read;
            if v.in_use && p.active && buffer_fits(data, len, p.width) && bridge@.runnable(slot as int) {
                CompleteStep::CompleteIoRead {
                    slot,
                    vcpu_id: v.id,
                    value: truncated(buffer_value(data, len), p.width),
                    len,
                }
            } else {
                CompleteStep::Done((-EINVAL) as i32)
            }
        }),
{
    if !bridge.vcpus[slot].in_use {
        return CompleteStep::Done(-EINVAL);
    }
    let pending: PendingIoRead = bridge.vcpus[slot].pending_io_read;
    if !pending.active {
        return CompleteStep::Done(-EINVAL);
    }
    if len != width_bytes(pending.width) {
        return CompleteStep::Done(-EINVAL);
    }
    let raw: u64 = match mmio_read_value(data, len) {
        Ok(raw) => raw,
        Err(err) => {
            return CompleteStep::Done(err);
        },
    };
    let value: u64 = truncate_to_width(raw, pending.width);
    if !vcpu_runnable(bridge, slot) {
        return CompleteStep::Done(-EINVAL);
    }
    CompleteStep::CompleteIoRead { slot, vcpu_id: bridge.vcpus[slot].id, value, len }
}

/// The step of a completion after a reply, and the tables after it: a read that was
/// completed does not wait any more.
pub open spec fn complete_next(step: CompleteStep, b: BridgeView, reply: HostReply) -> (CompleteStep, BridgeView) {
    match (step, reply) {
        (CompleteStep::FindVcpu { slot, vcpu_id, reg, value }, HostReply::Flag(found)) => if found {
            (CompleteStep::SetGpr { slot, vcpu_id, reg, value }, b)
        } else {
            (CompleteStep::Done((-EINVAL) as i32), b)
        },
        (CompleteStep::SetGpr { slot, vcpu_id, reg, value }, HostReply::Done) => (
            CompleteStep::Done(0),
            b.with_vcpu_at(
                slot as int,
                BackendVcpu { pending_mmio_read: PendingMmioRead::spec_empty(), ..b.vcpus[slot as int] },
            ),
        ),
        (CompleteStep::CompleteIoRead { slot, vcpu_id, value, len }, HostReply::Outcome(Ok(_))) => (
            CompleteStep::Done(0),
            b.with_vcpu_at(
                slot as int,
                BackendVcpu { pending_io_read: PendingIoRead::spec_empty(), ..b.vcpus[slot as int] },
            ),
        ),
        (CompleteStep::CompleteIoRead { slot, vcpu_id, value, len }, HostReply::Outcome(Err(err))) => (
            CompleteStep::Done(err),
            b,
        ),
        _ => (step, b),
    }
}

/// Goes on with a completion after the host's reply.
pub fn complete_resume(step: CompleteStep, bridge: &mut Bridge, reply: HostReply) -> (next: CompleteStep)
    requires
        old(bridge).wf(),
        step.wf(),
    ensures
        final(bridge).wf(),
        next.wf(),
        (next, final(bridge)@) == complete_next(step, old(bridge)@, reply),
{
    let ghost before = bridge@;
    match (step, reply) {
        (CompleteStep::FindVcpu { slot, vcpu_id, reg, value }, HostReply::Flag(found)) => if found {
            CompleteStep::SetGpr { slot, vcpu_id, reg, value }
        } else {
            CompleteStep::Done(-EINVAL)
        },
        (CompleteStep::SetGpr { slot, vcpu_id: _, reg: _, value: _ }, HostReply::Done) => {
            bridge.vcpus[slot].pending_mmio_read = PendingMmioRead::empty();
            proof {
                let v = BackendVcpu { pending_mmio_read: PendingMmioRead::spec_empty(), ..before.vcpus[slot as int] };
                assert(bridge@ =~= before.with_vcpu_at(slot as int, v));
                lemma_vcpu_update_keeps_inv(before, slot as int, v);
            }
            CompleteStep::Done(0)
        },
        (
            CompleteStep::CompleteIoRead { slot, vcpu_id: _, value: _, len: _ },
            HostReply::Outcome(Ok(_)),
        ) => {
            bridge.vcpus[slot].pending_io_read = PendingIoRead::empty();
            proof {
                let v = BackendVcpu { pending_io_read: PendingIoRead::spec_empty(), ..before.vcpus[slot as int] };
                assert(bridge@ =~= before.with_vcpu_at(slot as int, v));
                lemma_vcpu_update_keeps_inv(before, slot as int, v);
            }
            CompleteStep::Done(0)
        },
        (
            CompleteStep::CompleteIoRead { slot: _, vcpu_id: _, value: _, len: _ },
            HostReply::Outcome(Err(err)),
        ) => CompleteStep::Done(err),
        _ => step,
    }
}

} // verus!
