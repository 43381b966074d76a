//! What passes between the backend's sequences and the host that serves them.
//!
//! A sequence is a step value. Each step but the last is a request: the host
//! carries it out and resumes the sequence with a [`HostReply`]. A reply that
//! does not answer the pending request leaves the sequence where it was.
use vstd::prelude::*;

use crate::access::{
    inkernel_mmio, inkernel_port, is_x86_inkernel_irqchip_port, is_x86_inkernel_mmio_addr, AccessWidth, GuestPhysAddr,
    MappingFlags, Port,
};

verus! {

/// How an interrupt is triggered.
#[derive(Clone, Copy, Debug, PartialEq, Eq, Structural)]
pub enum InterruptTriggerMode {
    EdgeTriggered,
    LevelTriggered,
}

/// An interrupt that the I/O APIC raised.
#[derive(Clone, Copy, Debug, PartialEq, Eq)]
pub struct IoapicIrq {
    pub target_vcpu_id: Option<usize>,
    pub vector: u8,
    pub level_triggered: bool,
}

/// Why a vCPU left guest mode.
#[allow(inconsistent_fields)]
#[derive(Clone, Copy, Debug, PartialEq, Eq)]
pub enum VcpuExit {
    Nothing,
    ExternalInterrupt { vector: u64 },
    Yield,
    InterruptEnd { vector: Option<u8> },
    PreemptionTimer,
    MmioRead { addr: GuestPhysAddr, width: AccessWidth, reg: usize, reg_width: AccessWidth, signed_ext: bool },
    MmioWrite { addr: GuestPhysAddr, width: AccessWidth, data: u64 },
    IoRead { port: Port, width: AccessWidth },
    IoWrite { port: Port, width: AccessWidth, data: u64 },
    Halt,
    SystemDown,
    FailEntry { hardware_entry_failure_reason: u64 },
    CpuUp { target_cpu: u64, entry_point: GuestPhysAddr, arg: u64 },
    Hypercall { nr: u64, args: [u64; 6] },
    NestedPageFault { addr: GuestPhysAddr, access_flags: MappingFlags },
    /// Any other reason.
    Other,
}

/// What the host answers to a request.
#[derive(Clone, Copy, Debug, PartialEq, Eq)]
pub enum HostReply {
    /// It is done.
    Done,
    /// The id of the calling task, zero for none.
    TaskId(u64),
    /// The CPU that the task is on.
    CpuId(usize),
    /// How many CPUs are online.
    Online(usize),
    /// Yes or no.
    Flag(bool),
    /// A status number.
    Code(i32),
    /// Success, or a negative error number.
    Outcome(Result<(), i32>),
    /// A value that was read, or a negative error number.
    Value(Result<u64, i32>),
    /// The time in nanoseconds.
    Nanos(u64),
    /// A vector, where there is one.
    Vector(Option<u8>),
    /// An interrupt of the I/O APIC, where it raised one.
    Irq(Option<IoapicIrq>),
    /// An instruction pointer or a deadline, where there is one.
    Maybe(Option<u64>),
    /// Why the vCPU left guest mode, or a negative error number.
    Exit(Result<VcpuExit, i32>),
}

/// A vCPU by the VM's handle and its own id.
#[derive(Clone, Copy, Debug, PartialEq, Eq, Structural)]
pub struct VcpuRef {
    pub vm_handle: u64,
    pub vcpu_id: u32,
}

/// The counts of internal exits at which the log hears of them.
pub open spec fn log_checkpoint(retry: usize) -> bool {
    retry as int % 4096 == 0
}

/// Whether an exit is worth a log line: benign ones only at a checkpoint after
/// the first entry, accesses that the kernel serves never, others at the first
/// entry and at checkpoints.
pub open spec fn exit_logged(result: Result<VcpuExit, i32>, retry: usize) -> bool {
    match result {
        Ok(VcpuExit::Nothing) | Ok(VcpuExit::PreemptionTimer) | Ok(VcpuExit::Yield) | Ok(VcpuExit::Halt) => retry != 0
            && log_checkpoint(retry),
        Ok(VcpuExit::ExternalInterrupt { vector }) => retry != 0 && log_checkpoint(retry),
        Ok(VcpuExit::InterruptEnd { vector: None }) => retry != 0 && log_checkpoint(retry),
        Ok(VcpuExit::MmioRead { addr, width, reg, reg_width, signed_ext }) => !inkernel_mmio(addr.0) && log_checkpoint(
            retry,
        ),
        Ok(VcpuExit::MmioWrite { addr, width, data }) => !inkernel_mmio(addr.0) && log_checkpoint(retry),
        Ok(VcpuExit::IoRead { port, width }) => !inkernel_port(port.0) && log_checkpoint(retry),
        Ok(VcpuExit::IoWrite { port, width, data }) => !inkernel_port(port.0) && log_checkpoint(retry),
        _ => log_checkpoint(retry),
    }
}

/// Whether an exit is worth a log line.
pub fn should_log_raw_exit(run_result: &Result<VcpuExit, i32>, retry: usize) -> (r: bool)
    ensures
        r == exit_logged(*run_result, retry),
{
    match run_result {
        Ok(VcpuExit::Nothing) | Ok(VcpuExit::PreemptionTimer) | Ok(VcpuExit::Yield) | Ok(VcpuExit::Halt) => retry != 0
            && retry % 4096 == 0,
        Ok(VcpuExit::ExternalInterrupt { vector: _ }) => retry != 0 && retry % 4096 == 0,
        Ok(VcpuExit::InterruptEnd { vector: None }) => retry != 0 && retry % 4096 == 0,
        Ok(VcpuExit::MmioRead { addr, width: _, reg: _, reg_width: _, signed_ext: _ }) => !is_x86_inkernel_mmio_addr(
            *addr,
        ) && retry % 4096 == 0,
        Ok(VcpuExit::MmioWrite { addr, width: _, data: _ }) => !is_x86_inkernel_mmio_addr(*addr) && retry % 4096 == 0,
        Ok(VcpuExit::IoRead { port, width: _ }) => !is_x86_inkernel_irqchip_port(*port) && retry % 4096 == 0,
        Ok(VcpuExit::IoWrite { port, width: _, data: _ }) => !is_x86_inkernel_irqchip_port(*port) && retry % 4096 == 0,
        _ => retry == 0 || retry % 4096 == 0,
    }
}

/// How many internal exits there are from one log line to the next.
pub const KVM_RUN_INTERNAL_EXIT_LOG_INTERVAL: usize = 4096;

/// Counts an internal exit within one run; gives whether the count is worth a log
/// line.
pub fn note_internal_run_progress(retry_count: &mut usize) -> (log: bool)
    requires
        *old(retry_count) < usize::MAX,
    ensures
        *final(retry_count) == *old(retry_count) + 1,
        log == log_checkpoint(*final(retry_count)),
{
    *retry_count = *retry_count + 1;
    *retry_count % KVM_RUN_INTERNAL_EXIT_LOG_INTERVAL == 0
}

} // verus!
