//! Loading and unloading the host adapter.
use vstd::prelude::*;

use crate::arch::timer_base::BaseView;
use crate::arch::{init_backend, init_percpu, register_timer_bridge, Arch, ArchView};
use crate::console::{
    ConsoleView, LinuxConsoleAdapter, GUEST_CONSOLE_INPUT_BUFFER_CAPACITY, GUEST_CONSOLE_OUTPUT_BUFFER_CAPACITY,
};
use crate::errno::ENOMEM;
use crate::host::HostReply;
use crate::passthrough::{devices_ok, with_device, LinuxPassthroughRegistry, PassthroughDevice};
use crate::runtime::{glue_hooks, hooked, LinuxRuntimeAdapter};
use crate::tasks::{error_from_errno, error_of};

verus! {

/// The room that the console's input starts with.
pub const CONSOLE_INPUT_BUFFER_CAPACITY: usize = 512;

/// The VM that the block device of an x86 host belongs to.
pub const X86_QEMU_BLK_VM_ID: usize = 1;

/// The interrupt of that device in the VM.
pub const X86_QEMU_BLK_GUEST_GSI: usize = 19;

/// The place that stands for that device.
pub const X86_QEMU_BLK_SYNTHETIC_BASE_HPA: u64 = 0x5850_4943_0000_0300;

/// The key of the adapter's timer bridge.
pub const LINUX_TIMER_BRIDGE: u64 = 1;

/// The CPUs that the host task runs on: the first.
pub const HOST_TASK_CPU_MASK: u64 = 1;

/// The parts of the adapter that loading sets up.
pub struct AdapterParts {
    pub console: LinuxConsoleAdapter,
    pub arch: Arch,
    pub passthrough: LinuxPassthroughRegistry,
    pub runtime: LinuxRuntimeAdapter,
}

/// The contents of the parts.
#[verifier::ext_equal]
pub struct PartsView {
    pub console: ConsoleView,
    pub arch: ArchView,
    pub devices: Seq<PassthroughDevice>,
    pub runtime: LinuxRuntimeAdapter,
}

impl View for AdapterParts {
    type V = PartsView;

    open spec fn view(&self) -> PartsView {
        PartsView {
            console: self.console@,
            arch: self.arch@,
            devices: self.passthrough@,
            runtime: self.runtime,
        }
    }
}

impl PartsView {
    /// The parts keep their invariants.
    pub open spec fn wf(self) -> bool {
        self.arch.wf() && devices_ok(self.devices)
    }

    /// After the timer bridge and the monitor's processors were installed.
    pub open spec fn bridged(self) -> PartsView {
        PartsView {
            arch: match self.arch.base() {
                Some(base) => self.arch.with_base(BaseView { bridge: Some(LINUX_TIMER_BRIDGE), ..base }),
                None => self.arch,
            },
            runtime: hooked(self.runtime, glue_hooks()),
            ..self
        }
    }

    /// After a CPU was set up.
    pub open spec fn with_cpu(self, cpu_id: usize) -> PartsView {
        PartsView {
            arch: match self.arch.base() {
                Some(base) => self.arch.with_base(
                    BaseView { percpu_ready: true, last_percpu_cpu_id: cpu_id as u64, ..base },
                ),
                None => self.arch,
            },
            ..self
        }
    }
}

/// What loading asks the host for next; `Done` holds the outcome.
#[derive(Clone, Copy, Debug, PartialEq, Eq)]
pub enum InitStep {
    /// Find memory for the console's input. The answer is a flag.
    ReserveConsoleInput { capacity: usize },
    /// Find memory for the guest's input. The answer is a flag.
    ReserveGuestInput { capacity: usize },
    /// Find memory for the guest's output. The answer is a flag.
    ReserveGuestOutput { capacity: usize },
    /// Find memory for waiting on the console. The answer is a flag.
    AllocateInputState,
    /// Take over the console's input. The answer is a flag.
    InstallConsoleInput,
    /// Prepare the device tree. The answer is a code.
    PrepareFdt,
    /// Tell which CPU sets up the timer.
    TimerCpu,
    /// Find memory for the timer. The answer is a flag.
    AllocateTimer { cpu_id: usize },
    /// Set up the memory that each CPU has for itself. The answer is an outcome.
    InitPercpuBacking,
    /// Tell the monitor of an interrupt that is passed through. The answer is a flag.
    RegisterGsi { gsi: usize },
    /// Request the interrupt of the block device. The answer is a code.
    RequestIntx,
    /// Give the device tree back; then loading goes on failing.
    ReleaseFdt { error: i32 },
    /// Give interrupts back; then loading goes on failing.
    ReleaseIrqs { error: i32 },
    /// Give the console's input back; then loading has failed.
    RemoveConsoleInput { error: i32 },
    /// Tell which CPU this is.
    CurrentCpu,
    /// Find memory for the host task's entry. The answer is a flag.
    AllocateEntry,
    /// Start the host task on the CPUs of a mask. The answer is an outcome.
    SpawnHostTask { mask: u64 },
    Done(Result<(), i32>),
}

/// What follows the set-up of the slots.
pub open spec fn after_backing(p: PartsView) -> (InitStep, PartsView) {
    let bridged = p.bridged();
    if p.arch is X86_64 {
        (InitStep::RegisterGsi { gsi: X86_QEMU_BLK_GUEST_GSI }, bridged)
    } else {
        (
            InitStep::CurrentCpu,
            PartsView { runtime: LinuxRuntimeAdapter { task_runtime_installed: true, ..bridged.runtime }, ..bridged },
        )
    }
}

/// The block device of an x86 host.
pub open spec fn block_device() -> PassthroughDevice {
    PassthroughDevice {
        vm_id: X86_QEMU_BLK_VM_ID,
        base_hpa: X86_QEMU_BLK_SYNTHETIC_BASE_HPA,
        length: 1,
        irq_id: X86_QEMU_BLK_GUEST_GSI,
    }
}

/// What follows a flag that says whether memory was found.
pub open spec fn if_room(room: bool, next: InitStep) -> InitStep {
    if room {
        next
    } else {
        InitStep::Done(Err((-ENOMEM) as i32))
    }
}

/// What follows a reply.
pub open spec fn init_next(step: InitStep, p: PartsView, reply: HostReply) -> (InitStep, PartsView) {
    match (step, reply) {
        (InitStep::ReserveConsoleInput { capacity }, HostReply::Flag(room)) => (
            if_room(room, InitStep::ReserveGuestInput { capacity: GUEST_CONSOLE_INPUT_BUFFER_CAPACITY }),
            p,
        ),
        (InitStep::ReserveGuestInput { capacity }, HostReply::Flag(room)) => (
            if_room(room, InitStep::ReserveGuestOutput { capacity: GUEST_CONSOLE_OUTPUT_BUFFER_CAPACITY }),
            p,
        ),
        (InitStep::ReserveGuestOutput { capacity }, HostReply::Flag(room)) => (
            if_room(room, InitStep::AllocateInputState),
            p,
        ),
        (InitStep::AllocateInputState, HostReply::Flag(room)) => (
            if_room(room, InitStep::InstallConsoleInput),
            if room {
                PartsView { console: ConsoleView { pending: false, waitable: true, ..p.console }, ..p }
            } else {
                p
            },
        ),
        (InitStep::InstallConsoleInput, HostReply::Flag(installed)) => (if_room(installed, InitStep::PrepareFdt), p),
        (InitStep::PrepareFdt, HostReply::Code(status)) => (
            if status < 0 {
                InitStep::RemoveConsoleInput { error: error_of(status) }
            } else if p.arch is Riscv64 {
                InitStep::TimerCpu
            } else {
                InitStep::InitPercpuBacking
            },
            p,
        ),
        (InitStep::TimerCpu, HostReply::CpuId(cpu_id)) => (InitStep::AllocateTimer { cpu_id }, p),
        (InitStep::AllocateTimer { cpu_id }, HostReply::Flag(room)) => (
            InitStep::InitPercpuBacking,
            PartsView {
                arch: match p.arch {
                    ArchView::Riscv64(r) => ArchView::Riscv64(r.with_callback(cpu_id, room)),
                    _ => p.arch,
                },
                ..p
            },
        ),
        (InitStep::InitPercpuBacking, HostReply::Outcome(Err(e))) => (InitStep::Done(Err(e)), p),
        (InitStep::InitPercpuBacking, HostReply::Outcome(Ok(_))) => after_backing(p),
        (InitStep::RegisterGsi { gsi }, HostReply::Flag(_)) => (
            InitStep::RequestIntx,
            PartsView { devices: with_device(p.devices, block_device()), ..p },
        ),
        (InitStep::RequestIntx, HostReply::Code(status)) => if status < 0 {
            (InitStep::ReleaseFdt { error: error_of(status) }, p)
        } else {
            (
                InitStep::CurrentCpu,
                PartsView { runtime: LinuxRuntimeAdapter { task_runtime_installed: true, ..p.runtime }, ..p },
            )
        },
        (InitStep::ReleaseFdt { error }, HostReply::Done) => (InitStep::ReleaseIrqs { error }, p),
        (InitStep::ReleaseIrqs { error }, HostReply::Done) => (InitStep::RemoveConsoleInput { error }, p),
        (InitStep::RemoveConsoleInput { error }, HostReply::Done) => (InitStep::Done(Err(error)), p),
        (InitStep::CurrentCpu, HostReply::CpuId(cpu_id)) => (InitStep::AllocateEntry, p.with_cpu(cpu_id)),
        (InitStep::AllocateEntry, HostReply::Flag(room)) => (
            if_room(room, InitStep::SpawnHostTask { mask: HOST_TASK_CPU_MASK }),
            p,
        ),
        (InitStep::SpawnHostTask { mask }, HostReply::Outcome(spawned)) => (InitStep::Done(spawned), p),
        _ => (step, p),
    }
}

fn room_or_fail(room: bool, next: InitStep) -> (step: InitStep)
    ensures
        step == if_room(room, next),
{
    if room {
        next
    } else {
        InitStep::Done(Err(-ENOMEM))
    }
}

/// Begins to load the adapter.
pub fn module_init() -> (step: InitStep)
    ensures
        step == (InitStep::ReserveConsoleInput { capacity: CONSOLE_INPUT_BUFFER_CAPACITY }),
{
    InitStep::ReserveConsoleInput { capacity: CONSOLE_INPUT_BUFFER_CAPACITY }
}

impl AdapterParts {
    /// Nothing is set up, on a host of this architecture.
    pub fn new(arch: Arch) -> (p: AdapterParts)
        requires
            arch@.wf(),
        ensures
            p@.wf(),
            p@.arch == arch@,
            p@.console == (ConsoleView { input: seq![], pending: false, waitable: false, shell_ready: false }),
            p@.devices == Seq::<PassthroughDevice>::empty(),
            p@.runtime == crate::runtime::idle_runtime(),
    {
        AdapterParts {
            console: LinuxConsoleAdapter::new(),
            arch,
            passthrough: LinuxPassthroughRegistry::new(),
            runtime: LinuxRuntimeAdapter::new(),
        }
    }

    fn slots_are_up(&mut self) -> (step: InitStep)
        requires
            old(self)@.wf(),
        ensures
            final(self)@.wf(),
            (step, final(self)@) == after_backing(old(self)@),
    {
        register_timer_bridge(&mut self.arch, LINUX_TIMER_BRIDGE);
        let _installed: bool = self.runtime.install();
        assert(self@ =~= old(self)@.bridged());
        match &self.arch {
            Arch::X86_64(_) => InitStep::RegisterGsi { gsi: X86_QEMU_BLK_GUEST_GSI },
            _ => {
                let _fresh: bool = self.runtime.install_kernel_task_runtime();
                InitStep::CurrentCpu
            },
        }
    }

    /// Goes on with loading the adapter.
    pub fn init_resume(&mut self, step: InitStep, reply: HostReply) -> (next: InitStep)
        requires
            old(self)@.wf(),
        ensures
            final(self)@.wf(),
            (next, final(self)@) == init_next(step, old(self)@, reply),
    {
        match (step, reply) {
            (InitStep::ReserveConsoleInput { capacity: _ }, HostReply::Flag(room)) => room_or_fail(
                room,
                InitStep::ReserveGuestInput { capacity: GUEST_CONSOLE_INPUT_BUFFER_CAPACITY },
            ),
            (InitStep::ReserveGuestInput { capacity: _ }, HostReply::Flag(room)) => room_or_fail(
                room,
                InitStep::ReserveGuestOutput { capacity: GUEST_CONSOLE_OUTPUT_BUFFER_CAPACITY },
            ),
            (InitStep::ReserveGuestOutput { capacity: _ }, HostReply::Flag(room)) => room_or_fail(
                room,
                InitStep::AllocateInputState,
            ),
            (InitStep::AllocateInputState, HostReply::Flag(room)) => {
                if room {
                    self.console.install_input_state();
                }
                room_or_fail(room, InitStep::InstallConsoleInput)
            },
            (InitStep::InstallConsoleInput, HostReply::Flag(installed)) => room_or_fail(
                installed,
                InitStep::PrepareFdt,
            ),
            (InitStep::PrepareFdt, HostReply::Code(status)) => if status < 0 {
                InitStep::RemoveConsoleInput { error: error_from_errno(status) }
            } else {
                match &self.arch {
                    Arch::Riscv64(_) => InitStep::TimerCpu,
                    _ => InitStep::InitPercpuBacking,
                }
            },
            (InitStep::TimerCpu, HostReply::CpuId(cpu_id)) => InitStep::AllocateTimer { cpu_id },
            (InitStep::AllocateTimer { cpu_id }, HostReply::Flag(room)) => {
                init_backend(&mut self.arch, cpu_id, room);
                InitStep::InitPercpuBacking
            },
            (InitStep::InitPercpuBacking, HostReply::Outcome(done)) => match done {
                Err(e) => InitStep::Done(Err(e)),
                Ok(_) => self.slots_are_up(),
            },
            (InitStep::RegisterGsi { gsi: _ }, HostReply::Flag(_)) => {
                let _registered: bool = self.passthrough.register_device(
                    X86_QEMU_BLK_VM_ID,
                    X86_QEMU_BLK_SYNTHETIC_BASE_HPA,
                    1,
                    X86_QEMU_BLK_GUEST_GSI,
                );
                InitStep::RequestIntx
            },
            (InitStep::RequestIntx, HostReply::Code(status)) => if status < 0 {
                InitStep::ReleaseFdt { error: error_from_errno(status) }
            } else {
                let _fresh: bool = self.runtime.install_kernel_task_runtime();
                InitStep::CurrentCpu
            },
            (InitStep::ReleaseFdt { error }, HostReply::Done) => InitStep::ReleaseIrqs { error },
            (InitStep::ReleaseIrqs { error }, HostReply::Done) => InitStep::RemoveConsoleInput { error },
            (InitStep::RemoveConsoleInput { error }, HostReply::Done) => InitStep::Done(Err(error)),
            (InitStep::CurrentCpu, HostReply::CpuId(cpu_id)) => {
                let _ready: bool = init_percpu(&mut self.arch, cpu_id);
                InitStep::AllocateEntry
            },
            (InitStep::AllocateEntry, HostReply::Flag(room)) => room_or_fail(
                room,
                InitStep::SpawnHostTask { mask: HOST_TASK_CPU_MASK },
            ),
            (InitStep::SpawnHostTask { mask: _ }, HostReply::Outcome(spawned)) => InitStep::Done(spawned),
            _ => step,
        }
    }
}

/// What unloading asks the host for next.
#[derive(Clone, Copy, Debug, PartialEq, Eq, Structural)]
pub enum DropStep {
    /// Give the console's input back.
    RemoveConsoleInput,
    /// Give the device tree back.
    ReleaseFdt,
    /// Give interrupts back.
    ReleaseIrqs,
    /// Give mappings back.
    ReleaseMappings,
    /// Wait for the host task, where there is one.
    JoinHostTask,
    Done,
}

/// What follows when a step is done.
pub open spec fn drop_next(step: DropStep, host_task: bool) -> DropStep {
    match step {
        DropStep::RemoveConsoleInput => DropStep::ReleaseFdt,
        DropStep::ReleaseFdt => DropStep::ReleaseIrqs,
        DropStep::ReleaseIrqs => DropStep::ReleaseMappings,
        DropStep::ReleaseMappings => if host_task {
            DropStep::JoinHostTask
        } else {
            DropStep::Done
        },
        DropStep::JoinHostTask => DropStep::Done,
        DropStep::Done => DropStep::Done,
    }
}

/// Unloads the adapter, from [`DropStep::RemoveConsoleInput`] on.
pub fn module_drop(step: DropStep, host_task: bool) -> (next: DropStep)
    ensures
        next == drop_next(step, host_task),
{
    match step {
        DropStep::RemoveConsoleInput => DropStep::ReleaseFdt,
        DropStep::ReleaseFdt => DropStep::ReleaseIrqs,
        DropStep::ReleaseIrqs => DropStep::ReleaseMappings,
        DropStep::ReleaseMappings => if host_task {
            DropStep::JoinHostTask
        } else {
            DropStep::Done
        },
        DropStep::JoinHostTask => DropStep::Done,
        DropStep::Done => DropStep::Done,
    }
}

/// The host task is started only once the runtime of kernel tasks is installed and
/// the monitor's processors were offered; that stays so until loading ends.
pub proof fn host_task_starts_on_a_ready_runtime(step: InitStep, p: PartsView, reply: HostReply)
    requires
        step is CurrentCpu || step is AllocateEntry || step is SpawnHostTask ==> p.runtime.task_runtime_installed
            && p.runtime.hooks_installed,
        step is RegisterGsi || step is RequestIntx ==> p.runtime.hooks_installed,
    ensures
        ({
            let (next, after) = init_next(step, p, reply);
            &&& next is CurrentCpu || next is AllocateEntry || next is SpawnHostTask
                ==> after.runtime.task_runtime_installed && after.runtime.hooks_installed
            &&& next is RegisterGsi || next is RequestIntx ==> after.runtime.hooks_installed
        }),
{
}

/// When the interrupt of the block device is refused, the device tree, the interrupts
/// and the console's input are given back, in that order, and loading fails with the
/// host's error.
pub proof fn refused_interrupt_undoes_the_set_up(p: PartsView, status: i32)
    requires
        status < 0,
    ensures
        ({
            let error = error_of(status);
            let (a, p1) = init_next(InitStep::RequestIntx, p, HostReply::Code(status));
            let (b, p2) = init_next(a, p1, HostReply::Done);
            let (c, p3) = init_next(b, p2, HostReply::Done);
            let (d, p4) = init_next(c, p3, HostReply::Done);
            &&& a == InitStep::ReleaseFdt { error }
            &&& b == InitStep::ReleaseIrqs { error }
            &&& c == InitStep::RemoveConsoleInput { error }
            &&& d == InitStep::Done(Err(error))
            &&& p4 == p
        }),
{
}

/// Unloading gives everything back before it waits for the host task, and ends.
pub proof fn unloading_joins_last(host_task: bool)
    ensures
        ({
            let a = drop_next(DropStep::RemoveConsoleInput, host_task);
            let b = drop_next(a, host_task);
            let c = drop_next(b, host_task);
            let d = drop_next(c, host_task);
            &&& a == DropStep::ReleaseFdt
            &&& b == DropStep::ReleaseIrqs
            &&& c == DropStep::ReleaseMappings
            &&& d == (if host_task {
                DropStep::JoinHostTask
            } else {
                DropStep::Done
            })
            &&& drop_next(d, host_task) == DropStep::Done
        }),
{
}

} // verus!
