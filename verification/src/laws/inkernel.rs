//! Accesses that devices in the kernel serve, and the completion of reads.
use vstd::prelude::*;

use crate::access::{AccessWidth, GuestPhysAddr, Port};
use crate::bytes::{le_load_then_store, le_value, pow256};
use crate::host::HostReply;
use crate::inkernel::{
    axvisor_kvm_rs_complete_io_read, axvisor_kvm_rs_complete_mmio_read, complete_pending_io_read,
    complete_pending_mmio_read, complete_resume, handle_x86_inkernel_io_read, handle_x86_inkernel_io_write,
    handle_x86_inkernel_mmio_read, handle_x86_inkernel_mmio_write, inkernel_resume, CompleteStep, InKernelStep,
    PortDevice,
};
use crate::laws::access::{is_load, is_rest, lemma_loaded, lemma_truncated};
use crate::laws::codes::{invalid, unsupported};
use crate::state::{Bridge, MAX_VCPUS};

verus! {

/// A port access goes to the chip that the port belongs to.
pub open spec fn right_device(port: Port, device: PortDevice) -> bool {
    let n = port.0;
    match device {
        PortDevice::Pit => n == 0x40 || n == 0x41 || n == 0x42 || n == 0x43 || n == 0x61,
        PortDevice::Pic => n == 0x20 || n == 0x21 || n == 0xa0 || n == 0xa1 || n == 0x4d0 || n == 0x4d1,
        PortDevice::Other => 0x3f8 <= n < 0x400,
    }
}

/// A port that some device serves in the kernel.
pub open spec fn served_port(port: Port) -> bool {
    exists|device: PortDevice| right_device(port, device)
}

/// A port read asks the port's own device for the port and width of the access, and
/// a port that no device serves is left to the caller.
pub proof fn port_read_asks_its_device(vcpu_id: usize, port: Port, width: AccessWidth, step: InKernelStep)
    requires
        call_ensures(handle_x86_inkernel_io_read, (vcpu_id, port, width), step),
    ensures
        step matches InKernelStep::ReadPort { vcpu_id: v, device, port: p, width: w } ==> {
            &&& v == vcpu_id
            &&& right_device(port, device)
            &&& p == port
            &&& w == width
        },
        served_port(port) ==> step is ReadPort,
        !served_port(port) ==> step == InKernelStep::Done(unsupported()),
{
    if step is ReadPort {
        assert(right_device(port, step->ReadPort_device));
    }
}

/// A port write hands the port's own device the guest's data, cut to the width of
/// the access.
pub proof fn port_write_hands_over_the_data(port: Port, width: AccessWidth, data: u64, step: InKernelStep)
    requires
        call_ensures(handle_x86_inkernel_io_write, (port, width, data), step),
    ensures
        step matches InKernelStep::WritePort { device, port: p, width: w, value } ==> {
            &&& right_device(port, device)
            &&& p == port
            &&& w == width
            &&& is_rest(data as int, pow256(width.bytes() as nat), value as int)
        },
        served_port(port) ==> step is WritePort,
        !served_port(port) ==> step == InKernelStep::Done(unsupported()),
{
    lemma_truncated(data, width);
    if step is WritePort {
        assert(right_device(port, step->WritePort_device));
    }
}

/// A memory-mapped access asks for a device at its own address.
pub proof fn mmio_access_asks_for_its_address(
    vcpu_id: usize,
    addr: GuestPhysAddr,
    width: AccessWidth,
    reg: usize,
    reg_width: AccessWidth,
    signed_ext: bool,
    data: u64,
    read: InKernelStep,
    write: InKernelStep,
)
    requires
        call_ensures(handle_x86_inkernel_mmio_read, (vcpu_id, addr, width, reg, reg_width, signed_ext), read),
        call_ensures(handle_x86_inkernel_mmio_write, (addr, width, data), write),
    ensures
        read matches InKernelStep::FindMmioForRead { read: r } && {
            &&& r.vcpu_id == vcpu_id
            &&& r.addr == addr
            &&& r.width == width
            &&& r.reg == reg
            &&& r.reg_width == reg_width
            &&& r.signed_ext == signed_ext
        },
        write matches InKernelStep::FindMmioForWrite { addr: a, width: w, value } && {
            &&& a == addr
            &&& w == width
            &&& is_rest(data as int, pow256(width.bytes() as nat), value as int)
        },
{
    lemma_truncated(data, width);
}

/// A memory-mapped read sets the register that the access names, of the vCPU that
/// made it, to the device's value, loaded with the access's widths and extension;
/// without a device it is left to the caller, and errors are handed on.
pub proof fn mmio_read_fills_the_named_register(step: InKernelStep, reply: HostReply, next: InKernelStep)
    requires
        call_ensures(inkernel_resume, (step, reply), next),
    ensures
        step matches InKernelStep::FindMmioForRead { read } ==> {
            &&& reply == HostReply::Flag(true) ==> next == (InKernelStep::ReadMmio { read })
            &&& reply == HostReply::Flag(false) ==> next == InKernelStep::Done(unsupported())
            &&& !(reply is Flag) ==> next == step
        },
        step matches InKernelStep::ReadMmio { read } ==> {
            &&& reply matches HostReply::Value(Ok(raw)) ==> next matches InKernelStep::FindVcpu { vcpu_id, reg, value }
                && vcpu_id == read.vcpu_id && reg == read.reg && is_load(
                raw,
                read.width,
                read.reg_width,
                read.signed_ext,
                value,
            )
            &&& reply matches HostReply::Value(Err(err)) ==> next == InKernelStep::Done(err)
            &&& !(reply is Value) ==> next == step
        },
        step matches InKernelStep::FindVcpu { vcpu_id, reg, value } ==> {
            &&& reply == HostReply::Flag(true) ==> next == (InKernelStep::SetGpr { vcpu_id, reg, value })
            &&& reply == HostReply::Flag(false) ==> next == InKernelStep::Done(invalid())
            &&& !(reply is Flag) ==> next == step
        },
        step is SetGpr ==> next == (if reply is Done {
            InKernelStep::Done(0)
        } else {
            step
        }),
{
    if let (InKernelStep::ReadMmio { read }, HostReply::Value(Ok(raw))) = (step, reply) {
        lemma_loaded(raw, read.width, read.reg_width, read.signed_ext);
    }
}

/// A port read hands the guest what the device gave, with the size of the access,
/// and writes are handed to their device unchanged; an access that a device served
/// ends with zero, and one that it refused with its error.
pub proof fn served_access_ends_with_the_devices_outcome(step: InKernelStep, reply: HostReply, next: InKernelStep)
    requires
        call_ensures(inkernel_resume, (step, reply), next),
    ensures
        step matches InKernelStep::ReadPort { vcpu_id, device, port, width } ==> {
            &&& reply matches HostReply::Value(Ok(raw)) ==> next matches InKernelStep::CompleteIoRead {
                vcpu_id: v,
                value,
                size,
            } && v == vcpu_id && value == raw && size == width.bytes()
            &&& reply matches HostReply::Value(Err(err)) ==> next == InKernelStep::Done(err)
            &&& !(reply is Value) ==> next == step
        },
        step is CompleteIoRead || step is WritePort || step is WriteMmio ==> {
            &&& reply == HostReply::Outcome(Ok(())) ==> next == InKernelStep::Done(0)
            &&& reply matches HostReply::Outcome(Err(err)) ==> next == InKernelStep::Done(err)
            &&& !(reply is Outcome) ==> next == step
        },
        step matches InKernelStep::FindMmioForWrite { addr, width, value } ==> {
            &&& reply == HostReply::Flag(true) ==> next == (InKernelStep::WriteMmio { addr, width, value })
            &&& reply == HostReply::Flag(false) ==> next == InKernelStep::Done(unsupported())
            &&& !(reply is Flag) ==> next == step
        },
        step is Done ==> next == step,
{
}

/// A completion is accepted exactly where that vCPU's read waits, the buffer has
/// the read's length, and its VM runs.
pub open spec fn completable(b: &Bridge, slot: int, waits: bool, width: AccessWidth, data: Option<&[u8]>, len: u32) -> bool {
    let v = b.vcpus@[slot];
    &&& v.in_use
    &&& waits
    &&& data is Some
    &&& len == width.bytes()
    &&& 1 <= v.vm_handle <= 16
    &&& b.vms@[v.vm_handle - 1].in_use
    &&& b.vms@[v.vm_handle - 1].booted
}

/// Completing a memory-mapped read loads the number in the buffer, least
/// significant byte first, into the register that the read named.
pub proof fn completed_mmio_read_loads_the_buffer(b: &Bridge, slot: usize, data: Option<&[u8]>, len: u32, step: CompleteStep)
    requires
        b.wf(),
        slot < MAX_VCPUS,
        data matches Some(bytes) ==> bytes@.len() >= len,
        call_ensures(complete_pending_mmio_read, (b, slot, data, len), step),
    ensures
        ({
            let v = b.vcpus@[slot as int];
            let p = v.pending_mmio_read;
            if completable(b, slot as int, p.active, p.width, data, len) {
                step matches CompleteStep::FindVcpu { slot: s, vcpu_id, reg, value } && {
                    &&& s == slot
                    &&& vcpu_id == v.id
                    &&& reg == p.reg
                    &&& exists|raw: u64|
                        raw == le_value(data->Some_0@.subrange(0, len as int)) && #[trigger] is_load(
                            raw,
                            p.width,
                            p.reg_width,
                            p.signed_ext,
                            value,
                        )
                }
            } else {
                step == CompleteStep::Done(invalid())
            }
        }),
{
    reveal_with_fuel(pow256, 9);
    let v = b.vcpus@[slot as int];
    let p = v.pending_mmio_read;
    assert(b@.vcpus[slot as int] == v);
    if completable(b, slot as int, p.active, p.width, data, len) {
        let s = data->Some_0@.take(len as int);
        assert(s =~= data->Some_0@.subrange(0, len as int));
        le_load_then_store(s);
        let raw = le_value(s) as u64;
        lemma_loaded(raw, p.width, p.reg_width, p.signed_ext);
        assert(is_load(raw, p.width, p.reg_width, p.signed_ext, step->FindVcpu_value));
    }
}

/// Completing a port read hands the guest the number in the buffer, least
/// significant byte first.
pub proof fn completed_port_read_hands_over_the_buffer(b: &Bridge, slot: usize, data: Option<&[u8]>, len: u32, step: CompleteStep)
    requires
        b.wf(),
        slot < MAX_VCPUS,
        data matches Some(bytes) ==> bytes@.len() >= len,
        call_ensures(complete_pending_io_read, (b, slot, data, len), step),
    ensures
        ({
            let v = b.vcpus@[slot as int];
            let p = v.pending_io_read;
            if completable(b, slot as int, p.active, p.width, data, len) {
                step matches CompleteStep::CompleteIoRead { slot: s, vcpu_id, value, len: n } && {
                    &&& s == slot
                    &&& vcpu_id == v.id
                    &&& value == le_value(data->Some_0@.subrange(0, len as int))
                    &&& n == len
                }
            } else {
                step == CompleteStep::Done(invalid())
            }
        }),
{
    reveal_with_fuel(pow256, 9);
    let v = b.vcpus@[slot as int];
    let p = v.pending_io_read;
    assert(b@.vcpus[slot as int] == v);
    if completable(b, slot as int, p.active, p.width, data, len) {
        let s = data->Some_0@.take(len as int);
        assert(s =~= data->Some_0@.subrange(0, len as int));
        le_load_then_store(s);
    }
}

/// A completion by handle is that of the vCPU whose record the handle names: handles
/// count the records from one.
pub proof fn completion_by_handle_is_by_record(
    b: &Bridge,
    handle: u64,
    slot: usize,
    data: Option<&[u8]>,
    len: u32,
    mmio: CompleteStep,
    mmio_at: CompleteStep,
    io: CompleteStep,
    io_at: CompleteStep,
)
    requires
        call_ensures(axvisor_kvm_rs_complete_mmio_read, (b, handle, data, len), mmio),
        call_ensures(complete_pending_mmio_read, (b, slot, data, len), mmio_at),
        call_ensures(axvisor_kvm_rs_complete_io_read, (b, handle, data, len), io),
        call_ensures(complete_pending_io_read, (b, slot, data, len), io_at),
    ensures
        handle == slot + 1 && slot < 64 ==> mmio == mmio_at && io == io_at,
        handle == 0 || handle > 64 ==> mmio == CompleteStep::Done(invalid()) && io == CompleteStep::Done(invalid()),
{
}

/// The read stops waiting exactly when the guest has its data: then the completion
/// ends with zero, and until then every record stays as it was.
pub proof fn completed_read_waits_no_more(step: CompleteStep, b: &mut Bridge, reply: HostReply, next: CompleteStep)
    requires
        old(b).wf(),
        step.wf(),
        call_ensures(complete_resume, (step, b, reply), next),
    ensures
        step matches CompleteStep::FindVcpu { slot, vcpu_id, reg, value } ==> {
            &&& reply == HostReply::Flag(true) ==> next == (CompleteStep::SetGpr { slot, vcpu_id, reg, value })
            &&& reply == HostReply::Flag(false) ==> next == CompleteStep::Done(invalid())
            &&& !(reply is Flag) ==> next == step
            &&& final(b)@ == old(b)@
        },
        step matches CompleteStep::SetGpr { slot, vcpu_id, reg, value } ==> if reply is Done {
            &&& next == CompleteStep::Done(0)
            &&& !final(b)@.vcpus[slot as int].pending_mmio_read.active
            &&& final(b)@.vcpus[slot as int].pending_io_read == old(b)@.vcpus[slot as int].pending_io_read
        } else {
            next == step && final(b)@ == old(b)@
        },
        step matches CompleteStep::CompleteIoRead { slot, vcpu_id, value, len } ==> match reply {
            HostReply::Outcome(Ok(_)) => {
                &&& next == CompleteStep::Done(0)
                &&& !final(b)@.vcpus[slot as int].pending_io_read.active
                &&& final(b)@.vcpus[slot as int].pending_mmio_read == old(b)@.vcpus[slot as int].pending_mmio_read
            },
            HostReply::Outcome(Err(err)) => next == CompleteStep::Done(err) && final(b)@ == old(b)@,
            _ => next == step && final(b)@ == old(b)@,
        },
        step is Done ==> next == step && final(b)@ == old(b)@,
        final(b)@.vms == old(b)@.vms,
        final(b)@.mappings == old(b)@.mappings,
        forall|i: int|
            0 <= i < MAX_VCPUS ==> {
                let was = old(b)@.vcpus[i];
                let now = #[trigger] final(b)@.vcpus[i];
                &&& now.in_use == was.in_use && now.vm_handle == was.vm_handle && now.id == was.id
                &&& now.regs == was.regs && now.sregs == was.sregs && now.state_dirty == was.state_dirty
                &&& now != was ==> (step matches CompleteStep::SetGpr { slot, vcpu_id, reg, value } && slot == i) || (
                step matches CompleteStep::CompleteIoRead { slot, vcpu_id, value, len } && slot == i)
            },
{
}

} // verus!
