//! The configuration that a VM's machine is created with.
use vstd::prelude::*;
use vstd::string::StringExecFns;

use crate::state::{BackendVcpu, BackendVm, Bridge, BridgeView, MAX_VCPUS};
use crate::text::{decimal, u64_text};

verus! {

/// The machine type for a Linux guest.
pub const VM_TYPE_LINUX: usize = 2;

/// How interrupts reach the guest.
#[derive(Clone, Copy, Debug, PartialEq, Eq, Structural)]
pub enum InterruptMode {
    NoIrq,
    Emulated,
}

/// The kinds of devices that the machine emulates.
#[derive(Clone, Copy, Debug, PartialEq, Eq, Structural)]
pub enum EmulatedDevice {
    Console,
    X86IoApic,
    X86Pic,
    X86Pit,
}

/// One emulated device.
#[derive(Debug)]
pub struct DeviceConfig {
    pub name: String,
    pub base_gpa: u64,
    pub length: u64,
    pub irq_id: usize,
    pub emu_type: EmulatedDevice,
    pub cfg_list: Vec<usize>,
}

/// The configuration of a machine.
#[derive(Debug)]
pub struct VmConfig {
    pub id: u64,
    pub name: String,
    pub vm_type: usize,
    pub cpu_num: u32,
    pub entry_point: u64,
    pub kernel_load_addr: u64,
    pub image_location: Option<String>,
    pub interrupt_mode: InterruptMode,
    pub emu_devices: Vec<DeviceConfig>,
}

/// What identifies an emulated device.
#[verifier::ext_equal]
pub struct DeviceView {
    pub name: Seq<char>,
    pub base_gpa: u64,
    pub length: u64,
    pub irq_id: usize,
    pub emu_type: EmulatedDevice,
    pub cfg_list: Seq<usize>,
}

impl View for DeviceConfig {
    type V = DeviceView;

    open spec fn view(&self) -> DeviceView {
        DeviceView {
            name: self.name@,
            base_gpa: self.base_gpa,
            length: self.length,
            irq_id: self.irq_id,
            emu_type: self.emu_type,
            cfg_list: self.cfg_list@,
        }
    }
}

/// The first serial line, served in the kernel.
pub open spec fn serial_device() -> DeviceView {
    DeviceView {
        name: "serial"@,
        base_gpa: 0,
        length: 0,
        irq_id: 4,
        emu_type: EmulatedDevice::Console,
        cfg_list: seq![],
    }
}

/// The I/O APIC.
pub open spec fn ioapic_device() -> DeviceView {
    DeviceView {
        name: "ioapic"@,
        base_gpa: 0xfec0_0000,
        length: 0x1000,
        irq_id: 0,
        emu_type: EmulatedDevice::X86IoApic,
        cfg_list: seq![],
    }
}

/// The interrupt controllers.
pub open spec fn pic_device() -> DeviceView {
    DeviceView { name: "pic"@, base_gpa: 0, length: 0, irq_id: 0, emu_type: EmulatedDevice::X86Pic, cfg_list: seq![] }
}

/// The interval timer.
pub open spec fn pit_device() -> DeviceView {
    DeviceView { name: "pit"@, base_gpa: 0, length: 0, irq_id: 0, emu_type: EmulatedDevice::X86Pit, cfg_list: seq![] }
}

/// The devices of a VM: always the serial line, the interrupt chips and the
/// interval timer where the KVM caller created them.
pub open spec fn device_list(vm: BackendVm) -> Seq<DeviceView> {
    seq![serial_device()] + (if vm.irqchip_created {
        seq![ioapic_device(), pic_device()]
    } else {
        seq![]
    }) + (if vm.pit_created {
        seq![pit_device()]
    } else {
        seq![]
    })
}

impl BackendVcpu {
    /// The start address of a VM's first vCPU, in one of its records: zero in any
    /// other record.
    pub open spec fn primary_entry(self, vm_handle: u64) -> u64 {
        if self.in_use && self.vm_handle == vm_handle && self.id == 0 {
            if self.regs.rip != 0 {
                self.regs.rip
            } else {
                self.rip
            }
        } else {
            0
        }
    }
}

/// The first start address among vCPU records from a position on, or zero.
pub open spec fn primary_entry_from(s: Seq<BackendVcpu>, vm_handle: u64, from: int) -> u64
    decreases s.len() - from,
{
    if from >= s.len() || from < 0 {
        0
    } else if s[from].primary_entry(vm_handle) != 0 {
        s[from].primary_entry(vm_handle)
    } else {
        primary_entry_from(s, vm_handle, from + 1)
    }
}

/// The start address of a VM.
pub fn find_primary_vcpu_entry(bridge: &Bridge, vm_handle: u64) -> (entry: u64)
    requires
        bridge.wf(),
    ensures
        entry == primary_entry_from(bridge@.vcpus, vm_handle, 0),
{
    let mut i: usize = 0;
    while i < MAX_VCPUS
        invariant
            i <= MAX_VCPUS,
            bridge.wf(),
            primary_entry_from(bridge@.vcpus, vm_handle, 0) == primary_entry_from(bridge@.vcpus, vm_handle, i as int),
        decreases MAX_VCPUS - i,
    {
        if bridge.vcpus[i].in_use && bridge.vcpus[i].vm_handle == vm_handle && bridge.vcpus[i].id == 0 {
            if bridge.vcpus[i].regs.rip != 0 {
                return bridge.vcpus[i].regs.rip;
            }
            if bridge.vcpus[i].rip != 0 {
                return bridge.vcpus[i].rip;
            }
        }
        i += 1;
    }
    0
}

/// `config` is what a VM's machine is created with.
pub open spec fn config_of(b: BridgeView, vm_handle: u64, config: VmConfig) -> bool {
    let vm = b.vm(vm_handle);
    let entry = primary_entry_from(b.vcpus, vm_handle, 0);
    &&& config.id == vm_handle
    &&& config.name@ == "axkvm-"@ + decimal(vm_handle as nat)
    &&& config.vm_type == VM_TYPE_LINUX
    &&& config.cpu_num == (if vm.vcpu_count == 0 {
        1
    } else {
        vm.vcpu_count
    })
    &&& config.entry_point == entry
    &&& config.kernel_load_addr == entry
    &&& config.image_location matches Some(location)
    &&& location@ == "memory"@
    &&& config.interrupt_mode == (if vm.irqchip_created {
        InterruptMode::Emulated
    } else {
        InterruptMode::NoIrq
    })
    &&& config.emu_devices@.len() == device_list(vm).len()
    &&& forall|i: int|
        0 <= i < config.emu_devices@.len() ==> (#[trigger] config.emu_devices@[i])@ == device_list(vm)[i]
}

/// The configuration that a VM's machine is created with.
pub fn build_axvm_config(bridge: &Bridge, vm_handle: u64) -> (config: VmConfig)
    requires
        bridge.wf(),
        bridge@.vm_live(vm_handle),
    ensures
        config_of(bridge@, vm_handle, config),
{
    let vm: BackendVm = bridge.vms[vm_handle as usize - 1];
    let entry: u64 = find_primary_vcpu_entry(bridge, vm_handle);
    let mut name = String::from_str("axkvm-");
    name.append(u64_text(vm_handle).as_str());
    let mut emu_devices: Vec<DeviceConfig> = Vec::new();
    emu_devices.push(
        DeviceConfig {
            name: String::from_str("serial"),
            base_gpa: 0,
            length: 0,
            irq_id: 4,
            emu_type: EmulatedDevice::Console,
            cfg_list: Vec::new(),
        },
    );
    if vm.irqchip_created {
        emu_devices.push(
            DeviceConfig {
                name: String::from_str("ioapic"),
                base_gpa: 0xfec0_0000,
                length: 0x1000,
                irq_id: 0,
                emu_type: EmulatedDevice::X86IoApic,
                cfg_list: Vec::new(),
            },
        );
        emu_devices.push(
            DeviceConfig {
                name: String::from_str("pic"),
                base_gpa: 0,
                length: 0,
                irq_id: 0,
                emu_type: EmulatedDevice::X86Pic,
                cfg_list: Vec::new(),
            },
        );
    }
    if vm.pit_created {
        emu_devices.push(
            DeviceConfig {
                name: String::from_str("pit"),
                base_gpa: 0,
                length: 0,
                irq_id: 0,
                emu_type: EmulatedDevice::X86Pit,
                cfg_list: Vec::new(),
            },
        );
    }
    VmConfig {
        id: vm_handle,
        name,
        vm_type: VM_TYPE_LINUX,
        cpu_num: if vm.vcpu_count == 0 { 1 } else { vm.vcpu_count },
        entry_point: entry,
        kernel_load_addr: entry,
        image_location: Some(String::from_str("memory")),
        interrupt_mode: if vm.irqchip_created { InterruptMode::Emulated } else { InterruptMode::NoIrq },
        emu_devices,
    }
}

} // verus!
