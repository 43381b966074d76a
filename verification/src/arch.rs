//! The host's architecture: its timers and its interrupt vectors.
use vstd::prelude::*;

use crate::arch::riscv64::{RiscvArch, RiscvView};
use crate::arch::timer_base::{BaseView, BridgeCall, OneshotAction};
use crate::arch::x86_64::{X86Arch, X86View};

pub mod riscv64;
pub mod timer_base;
pub mod x86_64;

verus! {

/// The host's architecture.
pub enum Arch {
    X86_64(X86Arch),
    Riscv64(RiscvArch),
    /// One without timers or vectors of its own.
    Other,
}

/// The contents of the host's architecture.
#[verifier::ext_equal]
pub enum ArchView {
    X86_64(X86View),
    Riscv64(RiscvView),
    Other,
}

impl View for Arch {
    type V = ArchView;

    open spec fn view(&self) -> ArchView {
        match self {
            Arch::X86_64(x) => ArchView::X86_64(x@),
            Arch::Riscv64(r) => ArchView::Riscv64(r@),
            Arch::Other => ArchView::Other,
        }
    }
}

impl ArchView {
    /// The parts keep their invariants.
    pub open spec fn wf(self) -> bool {
        match self {
            ArchView::X86_64(x) => x.wf(),
            ArchView::Riscv64(r) => r.wf(),
            ArchView::Other => true,
        }
    }

    /// What the timers of the architectures share.
    pub open spec fn base(self) -> Option<BaseView> {
        match self {
            ArchView::X86_64(x) => Some(x.base),
            ArchView::Riscv64(r) => Some(r.base),
            ArchView::Other => None,
        }
    }

    /// With another shared part.
    pub open spec fn with_base(self, base: BaseView) -> ArchView {
        match self {
            ArchView::X86_64(x) => ArchView::X86_64(X86View { base, ..x }),
            ArchView::Riscv64(r) => ArchView::Riscv64(RiscvView { base, ..r }),
            ArchView::Other => ArchView::Other,
        }
    }

    /// A vector stands for an external interrupt of the supervisor.
    pub open spec fn is_external(self, vector: usize) -> bool {
        self is Riscv64 && riscv64::is_s_ext(vector)
    }

    /// The architecture takes a vector.
    pub open spec fn dispatches(self, vector: usize) -> bool {
        self matches ArchView::Riscv64(r) && r.dispatches(vector)
    }

    /// The architecture lets a vector be registered.
    pub open spec fn can_register(self, vector: usize) -> bool {
        self matches ArchView::Riscv64(r) ==> r.can_register(vector)
    }

    /// After a vector was asked to be registered.
    pub open spec fn registered(self, vector: usize) -> ArchView {
        match self {
            ArchView::Riscv64(r) => ArchView::Riscv64(r.registered(vector)),
            _ => self,
        }
    }
}

/// Sets up the timers for the CPU that calls; `room` says that memory was found.
pub fn init_backend(arch: &mut Arch, cpu_id: usize, room: bool)
    requires
        old(arch)@.wf(),
    ensures
        final(arch)@ == (match old(arch)@ {
            ArchView::Riscv64(r) => ArchView::Riscv64(r.with_callback(cpu_id, room)),
            _ => old(arch)@,
        }),
        final(arch)@.wf(),
{
    match arch {
        Arch::Riscv64(r) => r.init_backend(cpu_id, room),
        _ => {},
    }
}

/// Sets who is told of a timer that expired.
pub fn register_timer_bridge(arch: &mut Arch, handler: u64)
    ensures
        final(arch)@ == (match old(arch)@.base() {
            Some(base) => old(arch)@.with_base(BaseView { bridge: Some(handler), ..base }),
            None => old(arch)@,
        }),
        old(arch)@.wf() ==> final(arch)@.wf(),
{
    match arch {
        Arch::X86_64(x) => x.base.bridge = Some(handler),
        Arch::Riscv64(r) => r.base.bridge = Some(handler),
        Arch::Other => {},
    }
}

/// Records that a CPU is ready; says whether the architecture keeps such a record.
pub fn init_percpu(arch: &mut Arch, cpu_id: usize) -> (r: bool)
    ensures
        r == (old(arch)@ !is Other),
        final(arch)@ == (match old(arch)@.base() {
            Some(base) => old(arch)@.with_base(
                BaseView { percpu_ready: true, last_percpu_cpu_id: cpu_id as u64, ..base },
            ),
            None => old(arch)@,
        }),
        old(arch)@.wf() ==> final(arch)@.wf(),
{
    match arch {
        Arch::X86_64(x) => {
            x.base.init_percpu(cpu_id);
            true
        },
        Arch::Riscv64(r) => {
            r.base.init_percpu(cpu_id);
            true
        },
        Arch::Other => false,
    }
}

/// Sets the timer of the CPU that calls to a deadline, or turns it off, at time
/// `now_nanos`. The flags say whether memory was found for the event and for a
/// timer.
pub fn set_oneshot_timer(
    arch: &mut Arch,
    cpu_id: usize,
    deadline_nanos: u64,
    now_nanos: i64,
    event_room: bool,
    slot_room: bool,
) -> (action: OneshotAction)
    requires
        old(arch)@.wf(),
        now_nanos >= 0,
    ensures
        final(arch)@ == (match old(arch)@ {
            ArchView::X86_64(x) => ArchView::X86_64(x.oneshot(cpu_id, deadline_nanos, event_room, slot_room)),
            ArchView::Riscv64(r) => ArchView::Riscv64(r.oneshot(cpu_id, deadline_nanos, event_room)),
            ArchView::Other => ArchView::Other,
        }),
        action == (match old(arch)@ {
            ArchView::X86_64(x) => x.oneshot_action(cpu_id, deadline_nanos, slot_room, now_nanos),
            ArchView::Riscv64(r) => r.oneshot_action(deadline_nanos, now_nanos),
            ArchView::Other => OneshotAction { cancel: false, start: None },
        }),
        final(arch)@.wf(),
{
    match arch {
        Arch::X86_64(x) => x.set_oneshot_timer(cpu_id, deadline_nanos, now_nanos, event_room, slot_room),
        Arch::Riscv64(r) => r.set_oneshot_timer(cpu_id, deadline_nanos, now_nanos, event_room),
        Arch::Other => OneshotAction { cancel: false, start: None },
    }
}

/// How many timers expired.
pub fn timer_fire_count(arch: &Arch) -> (r: u64)
    ensures
        r == (match arch@.base() {
            Some(base) => base.fire_count,
            None => 0,
        }),
{
    match arch {
        Arch::X86_64(x) => x.base.fire_count,
        Arch::Riscv64(r) => r.base.fire_count,
        Arch::Other => 0,
    }
}

/// Whether some CPU is ready.
pub fn percpu_ready(arch: &Arch) -> (r: bool)
    ensures
        r == (arch@.base() matches Some(base) && base.percpu_ready),
{
    match arch {
        Arch::X86_64(x) => x.base.percpu_ready,
        Arch::Riscv64(r) => r.base.percpu_ready,
        Arch::Other => false,
    }
}

/// The CPU that became ready last.
pub fn last_percpu_cpu_id(arch: &Arch) -> (r: u64)
    ensures
        r == (match arch@.base() {
            Some(base) => base.last_percpu_cpu_id,
            None => u64::MAX,
        }),
{
    match arch {
        Arch::X86_64(x) => x.base.last_percpu_cpu_id,
        Arch::Riscv64(r) => r.base.last_percpu_cpu_id,
        Arch::Other => u64::MAX,
    }
}

/// Whether the architecture takes a vector itself.
pub fn dispatch_external_irq(arch: &Arch, vector: usize) -> (r: bool)
    requires
        arch@.wf(),
    ensures
        r == arch@.dispatches(vector),
{
    match arch {
        Arch::Riscv64(r) => r.dispatch_external_irq(vector),
        _ => false,
    }
}

/// Registers a vector with the architecture; says whether it could be.
pub fn register_irq_vector(arch: &mut Arch, vector: usize) -> (r: bool)
    requires
        old(arch)@.wf(),
    ensures
        r == old(arch)@.can_register(vector),
        final(arch)@ == old(arch)@.registered(vector),
        final(arch)@.wf(),
{
    match arch {
        Arch::Riscv64(r) => r.register_irq_vector(vector),
        _ => true,
    }
}

/// The vector of an external interrupt of the supervisor, or the largest number.
pub fn riscv_supervisor_external_vector(arch: &Arch) -> (v: usize)
    ensures
        v == (if arch@ is Riscv64 {
            riscv64::s_ext_vector()
        } else {
            usize::MAX as int
        }),
{
    match arch {
        Arch::Riscv64(_) => riscv64::riscv_supervisor_external_vector(),
        _ => usize::MAX,
    }
}

/// Whether a vector stands for an external interrupt of the supervisor.
pub fn is_supervisor_external_vector(arch: &Arch, vector: usize) -> (r: bool)
    ensures
        r == arch@.is_external(vector),
{
    match arch {
        Arch::Riscv64(_) => riscv64::is_supervisor_external_vector(vector),
        _ => false,
    }
}

/// The address of the host's device tree, of which the host says that it is at
/// `reported`; zero where the architecture has none.
pub fn host_fdt_vaddr(arch: &Arch, reported: u64) -> (r: u64)
    ensures
        r == (if arch@ is Riscv64 {
            reported
        } else {
            0
        }),
{
    match arch {
        Arch::Riscv64(_) => reported,
        _ => 0,
    }
}

/// The size of the host's device tree, of which the host says that it is `reported`;
/// zero where the architecture has none.
pub fn host_fdt_size(arch: &Arch, reported: usize) -> (r: usize)
    ensures
        r == (if arch@ is Riscv64 {
            reported
        } else {
            0
        }),
{
    match arch {
        Arch::Riscv64(_) => reported,
        _ => 0,
    }
}

/// The frequency of the host's time stamp counter, of which the host says that it is
/// `reported`; zero where the architecture is not known.
pub fn host_tsc_frequency_mhz(arch: &Arch, reported: u32) -> (r: u32)
    ensures
        r == (if arch@ is Other {
            0
        } else {
            reported
        }),
{
    match arch {
        Arch::Other => 0,
        _ => reported,
    }
}

/// The timer of a CPU expired; says who is told. Nothing happens where the CPU has no
/// timer.
pub fn timer_expired(arch: &mut Arch, cpu_id: usize) -> (call: Option<BridgeCall>)
    requires
        old(arch)@.wf(),
        old(arch)@ matches ArchView::X86_64(x) ==> x.slot(cpu_id) is Some,
        old(arch)@ matches ArchView::Riscv64(r) ==> r.callback matches Some(c) && c.cpu_id <= usize::MAX,
    ensures
        final(arch)@.wf(),
        final(arch)@ == (match old(arch)@ {
            ArchView::X86_64(x) => ArchView::X86_64(x.expired(cpu_id)),
            ArchView::Riscv64(r) => ArchView::Riscv64(r.expired()),
            ArchView::Other => ArchView::Other,
        }),
        call == (match old(arch)@ {
            ArchView::X86_64(x) => x.base.bridge_call(cpu_id, x.slot(cpu_id)->0.callback.deadline_nanos),
            ArchView::Riscv64(r) => r.base.bridge_call(r.callback->0.cpu_id as usize, r.callback->0.deadline_nanos),
            ArchView::Other => None,
        }),
{
    match arch {
        Arch::X86_64(x) => x.run(cpu_id),
        Arch::Riscv64(r) => r.run(),
        Arch::Other => None,
    }
}

} // verus!
