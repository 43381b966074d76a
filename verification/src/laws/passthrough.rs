//! Devices that are passed through.
use vstd::prelude::*;

use crate::passthrough::{
    axvisor_linux_host_register_passthrough_device, axvisor_linux_passthrough_device_base_hpa,
    axvisor_linux_passthrough_device_count, axvisor_linux_passthrough_device_irq_id,
    axvisor_linux_passthrough_device_length, axvisor_linux_passthrough_device_vm_id,
    axvisor_linux_passthrough_irq_inject, axvisor_linux_passthrough_irq_mark_pending,
    axvisor_linux_passthrough_irq_registered, axvisor_linux_passthrough_irq_vm_id, devices_ok, has_base, is_at, is_owner,
    lemma_owner, HostKind, LinuxPassthroughRegistry, PassthroughAction, PassthroughDevice,
};

verus! {

/// A device is registered if it has a place and a length, and its place is known or one of
/// the sixteen records is free. It is then found as it was given, in its old record or a new
/// one at the end; every other record stays.
pub proof fn registered_device_is_found(
    a: &mut LinuxPassthroughRegistry,
    vm: usize,
    base: u64,
    length: u64,
    irq: usize,
    r: bool,
    other: int,
)
    requires
        devices_ok(old(a)@),
        call_ensures(LinuxPassthroughRegistry::register_device, (a, vm, base, length, irq), r) || call_ensures(
            axvisor_linux_host_register_passthrough_device,
            (a, vm, base, length, irq),
            r,
        ),
    ensures
        r <==> base != 0 && length != 0 && (old(a).devices@.len() < 16 || exists|i: int|
            0 <= i < old(a).devices@.len() && (#[trigger] old(a).devices@[i]).base_hpa == base),
        !r ==> final(a).devices@ == old(a).devices@,
        0 <= other < old(a).devices@.len() && old(a).devices@[other].base_hpa != base ==> final(a).devices@[other]
            == old(a).devices@[other],
        r && 0 <= other < old(a).devices@.len() && old(a).devices@[other].base_hpa == base ==> {
            &&& final(a).devices@.len() == old(a).devices@.len()
            &&& final(a).devices@[other] == (PassthroughDevice { vm_id: vm, base_hpa: base, length, irq_id: irq })
        },
        r && (forall|i: int| 0 <= i < old(a).devices@.len() ==> (#[trigger] old(a).devices@[i]).base_hpa != base) ==> {
            &&& final(a).devices@.len() == old(a).devices@.len() + 1
            &&& final(a).devices@[old(a).devices@.len() as int] == (PassthroughDevice {
                vm_id: vm,
                base_hpa: base,
                length,
                irq_id: irq,
            })
        },
{
    let devices = old(a).devices@;
    assert(devices == old(a)@ && final(a).devices@ == final(a)@);
    if has_base(devices, base) {
        let k = choose|k: int| is_at(devices, base, k);
        assert(is_at(devices, base, k));
        assert(devices[k].base_hpa == base);
        if is_at(devices, base, other) {
            if other < k {
                assert(devices[other].base_hpa != devices[k].base_hpa);
            } else if k < other {
                assert(devices[k].base_hpa != devices[other].base_hpa);
            }
        }
    } else {
        assert forall|i: int| 0 <= i < devices.len() implies (#[trigger] devices[i]).base_hpa != base by {
            if devices[i].base_hpa == base {
                assert(is_at(devices, base, i));
            }
        }
    }
}

/// What is known of a device is read as it was given; past the last there is none.
pub proof fn device_is_read_as_given(
    a: &LinuxPassthroughRegistry,
    i: usize,
    n: usize,
    base: u64,
    length: u64,
    irq: usize,
    vm: usize,
    fresh: LinuxPassthroughRegistry,
)
    requires
        call_ensures(LinuxPassthroughRegistry::len, (a,), n) || call_ensures(
            axvisor_linux_passthrough_device_count,
            (a,),
            n,
        ),
        call_ensures(LinuxPassthroughRegistry::base_hpa, (a, i), base) || call_ensures(
            axvisor_linux_passthrough_device_base_hpa,
            (a, i),
            base,
        ),
        call_ensures(LinuxPassthroughRegistry::length, (a, i), length) || call_ensures(
            axvisor_linux_passthrough_device_length,
            (a, i),
            length,
        ),
        call_ensures(LinuxPassthroughRegistry::irq_id, (a, i), irq) || call_ensures(
            axvisor_linux_passthrough_device_irq_id,
            (a, i),
            irq,
        ),
        call_ensures(LinuxPassthroughRegistry::vm_id, (a, i), vm) || call_ensures(
            axvisor_linux_passthrough_device_vm_id,
            (a, i),
            vm,
        ),
        call_ensures(LinuxPassthroughRegistry::new, (), fresh),
    ensures
        n == a.devices@.len(),
        i < n ==> base == a.devices@[i as int].base_hpa && length == a.devices@[i as int].length && irq
            == a.devices@[i as int].irq_id && vm == a.devices@[i as int].vm_id,
        i >= n ==> base == 0 && length == 0 && irq == 0 && vm == usize::MAX,
        fresh.devices@.len() == 0,
{
    assert(fresh.devices@ == fresh@);
}

/// An interrupt other than zero belongs to a device that has it, and to the VM of the first
/// such device that has a VM; there it is marked or injected, in the way of the host.
pub proof fn interrupt_belongs_to_the_first_device_with_a_vm(
    a: &LinuxPassthroughRegistry,
    irq: usize,
    known: bool,
    vm: Option<usize>,
    number: usize,
    kind: HostKind,
    marked: PassthroughAction,
    injected: PassthroughAction,
    first: int,
)
    requires
        call_ensures(LinuxPassthroughRegistry::contains_irq, (a, irq), known) || call_ensures(
            axvisor_linux_passthrough_irq_registered,
            (a, irq),
            known,
        ),
        call_ensures(LinuxPassthroughRegistry::vm_id_for_irq, (a, irq), vm),
        call_ensures(axvisor_linux_passthrough_irq_vm_id, (a, irq), number),
        call_ensures(axvisor_linux_passthrough_irq_mark_pending, (a, kind, irq), marked),
        call_ensures(axvisor_linux_passthrough_irq_inject, (a, kind, irq), injected),
    ensures
        known <==> irq != 0 && exists|i: int| 0 <= i < a.devices@.len() && (#[trigger] a.devices@[i]).irq_id == irq,
        irq == 0 ==> vm is None,
        irq != 0 && 0 <= first < a.devices@.len() && a.devices@[first].irq_id == irq && a.devices@[first].vm_id
            != usize::MAX && (forall|j: int|
            0 <= j < first ==> (#[trigger] a.devices@[j]).irq_id != irq || a.devices@[j].vm_id == usize::MAX) ==> vm
            == Some(a.devices@[first].vm_id),
        vm matches Some(id) ==> id != usize::MAX && exists|i: int|
            0 <= i < a.devices@.len() && (#[trigger] a.devices@[i]).irq_id == irq && a.devices@[i].vm_id == id,
        vm matches Some(id) ==> number == id,
        vm is None ==> number == usize::MAX && marked is Skip && injected is Skip,
        vm matches Some(id) ==> match kind {
            HostKind::X86_64 => {
                &&& marked == (PassthroughAction::MarkGsiPending { vm_id: id, irq_id: irq })
                &&& injected == (PassthroughAction::InjectGsi { vm_id: id, irq_id: irq })
            },
            HostKind::Riscv64 => {
                &&& marked is Skip
                &&& injected == (PassthroughAction::InjectInterrupt { vm_id: id, irq_id: irq })
            },
            HostKind::Other => marked is Skip && injected is Skip,
        },
{
    let devices = a.devices@;
    assert(devices == a@);
    if vm is Some {
        let k = choose|k: int| is_owner(devices, irq, k);
        assert(is_owner(devices, irq, k));
        assert(devices[k].irq_id == irq);
    }
    if irq != 0 && is_owner(devices, irq, first) {
        lemma_owner(devices, irq, first);
    }
}

} // verus!
