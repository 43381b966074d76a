//! Devices that are passed through to a VM, and the interrupts that belong to them.
use vstd::prelude::*;

verus! {

/// Most devices.
pub const MAX_PASSTHROUGH_DEVICES: usize = 16;

/// A device that is passed through.
#[derive(Clone, Copy, Debug, PartialEq, Eq, Structural)]
pub struct PassthroughDevice {
    pub vm_id: usize,
    pub base_hpa: u64,
    pub length: u64,
    pub irq_id: usize,
}

/// The devices that are passed through.
pub struct LinuxPassthroughRegistry {
    pub devices: Vec<PassthroughDevice>,
}

impl View for LinuxPassthroughRegistry {
    type V = Seq<PassthroughDevice>;

    open spec fn view(&self) -> Seq<PassthroughDevice> {
        self.devices@
    }
}

/// No more devices than may be, none without a place, and no two at one place.
pub open spec fn devices_ok(devices: Seq<PassthroughDevice>) -> bool {
    &&& devices.len() <= MAX_PASSTHROUGH_DEVICES
    &&& forall|i: int| 0 <= i < devices.len() ==> (#[trigger] devices[i]).base_hpa != 0
    &&& forall|i: int, j: int|
        0 <= i < j < devices.len() ==> (#[trigger] devices[i]).base_hpa != (#[trigger] devices[j]).base_hpa
}

/// `i` is the device at this place.
pub open spec fn is_at(devices: Seq<PassthroughDevice>, base_hpa: u64, i: int) -> bool {
    0 <= i < devices.len() && devices[i].base_hpa == base_hpa
}

/// There is a device at this place.
pub open spec fn has_base(devices: Seq<PassthroughDevice>, base_hpa: u64) -> bool {
    exists|i: int| is_at(devices, base_hpa, i)
}

/// A device can be registered: it has a place and a size, and is known or finds
/// room.
pub open spec fn registrable(devices: Seq<PassthroughDevice>, device: PassthroughDevice) -> bool {
    &&& device.base_hpa != 0
    &&& device.length != 0
    &&& has_base(devices, device.base_hpa) || devices.len() < MAX_PASSTHROUGH_DEVICES
}

/// The devices after one was asked to be registered: a known place is updated, a new
/// one is added at the end.
pub open spec fn with_device(devices: Seq<PassthroughDevice>, device: PassthroughDevice) -> Seq<PassthroughDevice> {
    if !registrable(devices, device) {
        devices
    } else if has_base(devices, device.base_hpa) {
        devices.update(choose|i: int| is_at(devices, device.base_hpa, i), device)
    } else {
        devices.push(device)
    }
}

/// `i` is the first device with this interrupt that belongs to a VM.
pub open spec fn is_owner(devices: Seq<PassthroughDevice>, irq_id: usize, i: int) -> bool {
    &&& 0 <= i < devices.len()
    &&& devices[i].irq_id == irq_id
    &&& devices[i].vm_id != usize::MAX
    &&& forall|j: int|
        0 <= j < i ==> (#[trigger] devices[j]).irq_id != irq_id || devices[j].vm_id == usize::MAX
}

/// The VM that an interrupt belongs to.
pub open spec fn vm_of_irq(devices: Seq<PassthroughDevice>, irq_id: usize) -> Option<usize> {
    if irq_id != 0 && exists|i: int| is_owner(devices, irq_id, i) {
        Some(devices[choose|i: int| is_owner(devices, irq_id, i)].vm_id)
    } else {
        None
    }
}

/// An interrupt belongs to a device.
pub open spec fn has_irq(devices: Seq<PassthroughDevice>, irq_id: usize) -> bool {
    irq_id != 0 && exists|i: int| 0 <= i < devices.len() && (#[trigger] devices[i]).irq_id == irq_id
}

proof fn lemma_at(devices: Seq<PassthroughDevice>, base_hpa: u64, i: int)
    requires
        devices_ok(devices),
        is_at(devices, base_hpa, i),
    ensures
        has_base(devices, base_hpa),
        (choose|k: int| is_at(devices, base_hpa, k)) == i,
{
    let k = choose|k: int| is_at(devices, base_hpa, k);
    assert(is_at(devices, base_hpa, k));
    if k < i {
        assert(devices[k].base_hpa != devices[i].base_hpa);
    } else if i < k {
        assert(devices[i].base_hpa != devices[k].base_hpa);
    }
}

pub(crate) proof fn lemma_owner(devices: Seq<PassthroughDevice>, irq_id: usize, i: int)
    requires
        irq_id != 0,
        is_owner(devices, irq_id, i),
    ensures
        vm_of_irq(devices, irq_id) == Some(devices[i].vm_id),
{
    let k = choose|k: int| is_owner(devices, irq_id, k);
    assert(is_owner(devices, irq_id, k));
    if k < i {
        assert(devices[k].irq_id != irq_id || devices[k].vm_id == usize::MAX);
    } else if i < k {
        assert(devices[i].irq_id != irq_id || devices[i].vm_id == usize::MAX);
    }
}

impl LinuxPassthroughRegistry {
    /// No devices.
    pub fn new() -> (r: LinuxPassthroughRegistry)
        ensures
            r@ == Seq::<PassthroughDevice>::empty(),
            devices_ok(r@),
    {
        LinuxPassthroughRegistry { devices: Vec::new() }
    }

    /// Registers a device, or updates what is known of it; says whether it could be.
    pub fn register_device(&mut self, vm_id: usize, base_hpa: u64, length: u64, irq_id: usize) -> (r: bool)
        requires
            devices_ok(old(self)@),
        ensures
            devices_ok(final(self)@),
            r == registrable(old(self)@, (PassthroughDevice { vm_id, base_hpa, length, irq_id })),
            final(self)@ == with_device(old(self)@, (PassthroughDevice { vm_id, base_hpa, length, irq_id })),
    {
        let device = PassthroughDevice { vm_id, base_hpa, length, irq_id };
        if base_hpa == 0 || length == 0 {
            return false;
        }
        let mut idx: usize = 0;
        while idx < self.devices.len()
            invariant
                devices_ok(self@),
                self@ == old(self)@,
                idx <= self.devices@.len(),
                base_hpa != 0,
                length != 0,
                device == (PassthroughDevice { vm_id, base_hpa, length, irq_id }),
                forall|j: int| 0 <= j < idx ==> (#[trigger] self.devices@[j]).base_hpa != base_hpa,
            decreases self.devices@.len() - idx,
        {
            if self.devices[idx].base_hpa == base_hpa {
                proof {
                    lemma_at(self@, base_hpa, idx as int);
                }
                self.devices[idx] = device;
                return true;
            }
            idx += 1;
        }
        if self.devices.len() >= MAX_PASSTHROUGH_DEVICES {
            return false;
        }
        self.devices.push(device);
        true
    }

    /// How many devices there are.
    pub fn len(&self) -> (n: usize)
        ensures
            n == self@.len(),
    {
        self.devices.len()
    }

    /// Where a device is, or zero.
    pub fn base_hpa(&self, idx: usize) -> (r: u64)
        ensures
            r == (if idx < self@.len() {
                self@[idx as int].base_hpa
            } else {
                0
            }),
    {
        if idx >= self.devices.len() {
            0
        } else {
            self.devices[idx].base_hpa
        }
    }

    /// The interrupt of a device, or zero.
    pub fn irq_id(&self, idx: usize) -> (r: usize)
        ensures
            r == (if idx < self@.len() {
                self@[idx as int].irq_id
            } else {
                0
            }),
    {
        if idx >= self.devices.len() {
            0
        } else {
            self.devices[idx].irq_id
        }
    }

    /// The VM of a device, or the largest number.
    pub fn vm_id(&self, idx: usize) -> (r: usize)
        ensures
            r == (if idx < self@.len() {
                self@[idx as int].vm_id
            } else {
                usize::MAX
            }),
    {
        if idx >= self.devices.len() {
            usize::MAX
        } else {
            self.devices[idx].vm_id
        }
    }

    /// The size of a device, or zero.
    pub fn length(&self, idx: usize) -> (r: u64)
        ensures
            r == (if idx < self@.len() {
                self@[idx as int].length
            } else {
                0
            }),
    {
        if idx >= self.devices.len() {
            0
        } else {
            self.devices[idx].length
        }
    }

    /// Whether an interrupt belongs to a device.
    pub fn contains_irq(&self, irq_id: usize) -> (r: bool)
        ensures
            r == has_irq(self@, irq_id),
    {
        if irq_id == 0 {
            return false;
        }
        let mut idx: usize = 0;
        while idx < self.devices.len()
            invariant
                idx <= self.devices@.len(),
                irq_id != 0,
                forall|j: int| 0 <= j < idx ==> (#[trigger] self.devices@[j]).irq_id != irq_id,
            decreases self.devices@.len() - idx,
        {
            if self.devices[idx].irq_id == irq_id {
                return true;
            }
            idx += 1;
        }
        false
    }

    /// The VM that an interrupt belongs to.
    pub fn vm_id_for_irq(&self, irq_id: usize) -> (r: Option<usize>)
        ensures
            r == vm_of_irq(self@, irq_id),
    {
        if irq_id == 0 {
            return None;
        }
        let mut idx: usize = 0;
        while idx < self.devices.len()
            invariant
                idx <= self.devices@.len(),
                irq_id != 0,
                forall|j: int|
                    0 <= j < idx ==> (#[trigger] self.devices@[j]).irq_id != irq_id || self.devices@[j].vm_id
                        == usize::MAX,
            decreases self.devices@.len() - idx,
        {
            if self.devices[idx].irq_id == irq_id {
                let vm_id: usize = self.devices[idx].vm_id;
                if vm_id != usize::MAX {
                    proof {
                        lemma_owner(self@, irq_id, idx as int);
                    }
                    return Some(vm_id);
                }
            }
            idx += 1;
        }
        None
    }
}

/// Registers a device for a caller.
pub fn axvisor_linux_host_register_passthrough_device(
    registry: &mut LinuxPassthroughRegistry,
    vm_id: usize,
    base_hpa: u64,
    length: u64,
    irq_id: usize,
) -> (r: bool)
    requires
        devices_ok(old(registry)@),
    ensures
        devices_ok(final(registry)@),
        r == registrable(old(registry)@, (PassthroughDevice { vm_id, base_hpa, length, irq_id })),
        final(registry)@ == with_device(old(registry)@, (PassthroughDevice { vm_id, base_hpa, length, irq_id })),
{
    registry.register_device(vm_id, base_hpa, length, irq_id)
}

/// How many devices there are.
pub fn axvisor_linux_passthrough_device_count(registry: &LinuxPassthroughRegistry) -> (n: usize)
    ensures
        n == registry@.len(),
{
    registry.len()
}

/// Where a device is, or zero.
pub fn axvisor_linux_passthrough_device_base_hpa(registry: &LinuxPassthroughRegistry, index: usize) -> (r: u64)
    ensures
        r == (if index < registry@.len() {
            registry@[index as int].base_hpa
        } else {
            0
        }),
{
    registry.base_hpa(index)
}

/// The size of a device, or zero.
pub fn axvisor_linux_passthrough_device_length(registry: &LinuxPassthroughRegistry, index: usize) -> (r: u64)
    ensures
        r == (if index < registry@.len() {
            registry@[index as int].length
        } else {
            0
        }),
{
    registry.length(index)
}

/// The interrupt of a device, or zero.
pub fn axvisor_linux_passthrough_device_irq_id(registry: &LinuxPassthroughRegistry, index: usize) -> (r: usize)
    ensures
        r == (if index < registry@.len() {
            registry@[index as int].irq_id
        } else {
            0
        }),
{
    registry.irq_id(index)
}

/// The VM of a device, or the largest number.
pub fn axvisor_linux_passthrough_device_vm_id(registry: &LinuxPassthroughRegistry, index: usize) -> (r: usize)
    ensures
        r == (if index < registry@.len() {
            registry@[index as int].vm_id
        } else {
            usize::MAX
        }),
{
    registry.vm_id(index)
}

/// The VM that an interrupt belongs to, or the largest number.
pub fn axvisor_linux_passthrough_irq_vm_id(registry: &LinuxPassthroughRegistry, irq_id: usize) -> (r: usize)
    ensures
        r == (match vm_of_irq(registry@, irq_id) {
            Some(vm_id) => vm_id,
            None => usize::MAX,
        }),
{
    match registry.vm_id_for_irq(irq_id) {
        Some(vm_id) => vm_id,
        None => usize::MAX,
    }
}

/// Whether an interrupt belongs to a device.
pub fn axvisor_linux_passthrough_irq_registered(registry: &LinuxPassthroughRegistry, irq_id: usize) -> (r: bool)
    ensures
        r == has_irq(registry@, irq_id),
{
    registry.contains_irq(irq_id)
}

/// What is done with an interrupt of a device.
#[derive(Clone, Copy, Debug, PartialEq, Eq, Structural)]
pub enum PassthroughAction {
    /// Nothing: the answer is no.
    Skip,
    /// Mark it as pending in the VM's interrupt controller; the answer is what that
    /// gives.
    MarkGsiPending { vm_id: usize, irq_id: usize },
    /// Inject it on an x86 VM; the answer is what that gives.
    InjectGsi { vm_id: usize, irq_id: usize },
    /// Inject it on a RISC-V VM; the answer is what that gives.
    InjectInterrupt { vm_id: usize, irq_id: usize },
}

/// The host's kind, as far as injection goes.
#[derive(Clone, Copy, Debug, PartialEq, Eq, Structural)]
pub enum HostKind {
    X86_64,
    Riscv64,
    Other,
}

/// How an interrupt of a device is marked as pending: on x86 only, and where it
/// belongs to a VM.
pub fn axvisor_linux_passthrough_irq_mark_pending(
    registry: &LinuxPassthroughRegistry,
    kind: HostKind,
    irq_id: usize,
) -> (action: PassthroughAction)
    ensures
        action == (match (vm_of_irq(registry@, irq_id), kind) {
            (Some(vm_id), HostKind::X86_64) => PassthroughAction::MarkGsiPending { vm_id, irq_id },
            _ => PassthroughAction::Skip,
        }),
{
    match (registry.vm_id_for_irq(irq_id), kind) {
        (Some(vm_id), HostKind::X86_64) => PassthroughAction::MarkGsiPending { vm_id, irq_id },
        _ => PassthroughAction::Skip,
    }
}

/// How an interrupt of a device is injected, where it belongs to a VM.
pub fn axvisor_linux_passthrough_irq_inject(
    registry: &LinuxPassthroughRegistry,
    kind: HostKind,
    irq_id: usize,
) -> (action: PassthroughAction)
    ensures
        action == (match (vm_of_irq(registry@, irq_id), kind) {
            (Some(vm_id), HostKind::X86_64) => PassthroughAction::InjectGsi { vm_id, irq_id },
            (Some(vm_id), HostKind::Riscv64) => PassthroughAction::InjectInterrupt { vm_id, irq_id },
            _ => PassthroughAction::Skip,
        }),
{
    match (registry.vm_id_for_irq(irq_id), kind) {
        (Some(vm_id), HostKind::X86_64) => PassthroughAction::InjectGsi { vm_id, irq_id },
        (Some(vm_id), HostKind::Riscv64) => PassthroughAction::InjectInterrupt { vm_id, irq_id },
        _ => PassthroughAction::Skip,
    }
}

/// A device that was registered is in the table as it was given, and devices at other
/// places stay as they were.
pub proof fn registered_device_is_kept(devices: Seq<PassthroughDevice>, device: PassthroughDevice, other: int)
    requires
        devices_ok(devices),
        registrable(devices, device),
    ensures
        with_device(devices, device).contains(device),
        0 <= other < devices.len() && devices[other].base_hpa != device.base_hpa ==> with_device(devices, device)[other] == devices[other],
        devices_ok(with_device(devices, device)),
{
    let after = with_device(devices, device);
    if has_base(devices, device.base_hpa) {
        let i = choose|i: int| is_at(devices, device.base_hpa, i);
        assert(is_at(devices, device.base_hpa, i));
        assert(after[i] == device);
    } else {
        assert(after[devices.len() as int] == device);
        assert forall|i: int| 0 <= i < devices.len() implies (#[trigger] devices[i]).base_hpa != device.base_hpa by {
            if devices[i].base_hpa == device.base_hpa {
                assert(is_at(devices, device.base_hpa, i));
            }
        }
    }
}

/// An interrupt that belongs to a VM belongs to a device; no interrupt is number
/// zero.
pub proof fn owned_interrupt_is_registered(devices: Seq<PassthroughDevice>, irq_id: usize)
    ensures
        vm_of_irq(devices, irq_id) is Some ==> has_irq(devices, irq_id),
        vm_of_irq(devices, 0) is None,
        !has_irq(devices, 0),
{
    if vm_of_irq(devices, irq_id) is Some {
        let i = choose|i: int| is_owner(devices, irq_id, i);
        assert(is_owner(devices, irq_id, i));
        assert(devices[i].irq_id == irq_id);
    }
}

} // verus!
