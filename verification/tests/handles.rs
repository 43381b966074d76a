use axvisor_kvm::errno::{EEXIST, EINVAL, ENOMEM, EOPNOTSUPP};
use axvisor_kvm::handle_backend::{
    axvisor_kvm_rs_boot_vm, axvisor_kvm_rs_complete_mmio_read, axvisor_kvm_rs_create_vcpu, axvisor_kvm_rs_create_vm,
    axvisor_kvm_rs_destroy_vcpu, axvisor_kvm_rs_destroy_vm, axvisor_kvm_rs_inject_irq, axvisor_kvm_rs_map_page,
    axvisor_kvm_rs_run_vcpu, axvisor_kvm_rs_set_vcpu_cpuid_entry, axvisor_kvm_rs_set_vcpu_msr_entry,
    axvisor_kvm_rs_set_vcpu_segment, axvisor_kvm_rs_set_vm_state, axvisor_kvm_rs_unmap_range, vcpu_from_handle,
    vm_from_handle, BackendVcpuState, BackendVmState, HandleBackend,
};

fn backend() -> (HandleBackend, u64, u64) {
    let mut b = HandleBackend::new();
    let mut vm = Some(0);
    assert_eq!(axvisor_kvm_rs_create_vm(&mut b, &mut vm, true), 0);
    let mut vcpu = Some(0);
    assert_eq!(axvisor_kvm_rs_create_vcpu(&mut b, vm.unwrap(), 0, &mut vcpu, true, true), 0);
    (b, vm.unwrap(), vcpu.unwrap())
}

#[test]
fn empty_records_are_zero() {
    assert_eq!(BackendVmState::empty().version, 0);
    assert_eq!(BackendVcpuState::empty().rip, 0);
}

#[test]
fn creation_needs_room_and_a_place() {
    let mut b = HandleBackend::new();
    let mut out = Some(0);
    assert_eq!(axvisor_kvm_rs_create_vm(&mut b, &mut out, false), -ENOMEM);
    let mut nowhere = None;
    assert_eq!(axvisor_kvm_rs_create_vm(&mut b, &mut nowhere, true), -EINVAL);
    let (mut b, vm, _) = backend();
    assert_eq!(axvisor_kvm_rs_create_vcpu(&mut b, vm, 0, &mut out, true, true), -EEXIST);
    assert_eq!(axvisor_kvm_rs_create_vcpu(&mut b, 99, 1, &mut out, true, true), -EINVAL);
    assert_eq!(axvisor_kvm_rs_create_vcpu(&mut b, vm, 1, &mut out, true, false), -ENOMEM);
}

#[test]
fn stored_entries_are_found() {
    let (mut b, vm, vcpu) = backend();
    assert!(vm_from_handle(&b, vm).is_ok());
    assert!(vcpu_from_handle(&b, vcpu).is_ok());
    assert_eq!(vm_from_handle(&b, 0), Err(-EINVAL));
    assert_eq!(axvisor_kvm_rs_set_vcpu_cpuid_entry(&mut b, vcpu, 2, 7, 0, 0, 1, 2, 3, 4, 100), 0);
    let i = vcpu_from_handle(&b, vcpu).unwrap();
    assert_eq!(b.vcpus[i].as_ref().unwrap().cpuid_entries.len(), 3);
    assert_eq!(b.vcpus[i].as_ref().unwrap().cpuid_entries[2].function, 7);
    assert_eq!(axvisor_kvm_rs_set_vcpu_msr_entry(&mut b, vcpu, 5, 1, 2, 3), -ENOMEM);
    assert_eq!(axvisor_kvm_rs_set_vcpu_segment(&mut b, vcpu, 8, 0, 0, 0, 0, 0, 0, 0, 0, 0, 0, 0, 0), -EINVAL);
}

#[test]
fn destroyed_handles_are_not_found() {
    let (mut b, vm, vcpu) = backend();
    axvisor_kvm_rs_destroy_vcpu(&mut b, vcpu);
    assert_eq!(vcpu_from_handle(&b, vcpu), Err(-EINVAL));
    axvisor_kvm_rs_destroy_vm(&mut b, vm);
    assert_eq!(vm_from_handle(&b, vm), Err(-EINVAL));
}

#[test]
fn pages_are_mapped_and_unmapped() {
    let (mut b, vm, _) = backend();
    assert_eq!(axvisor_kvm_rs_map_page(&mut b, vm, 0x1000, 0x2000, 0, true), 0);
    assert_eq!(axvisor_kvm_rs_map_page(&mut b, vm, 0x3000, 0x4000, 0, false), -ENOMEM);
    let i = vm_from_handle(&b, vm).unwrap();
    assert_eq!(b.vms[i].as_ref().unwrap().mappings.len(), 1);
    assert_eq!(axvisor_kvm_rs_unmap_range(&mut b, vm, 0x1000, 0x1000), 0);
    assert_eq!(b.vms[i].as_ref().unwrap().mappings.len(), 0);
    assert_eq!(axvisor_kvm_rs_set_vm_state(&mut b, vm, 1, 2, 1, 0, 0, 0, 0, 0), 0);
    assert!(b.vms[i].as_ref().unwrap().state.irqchip_created);
}

#[test]
fn running_is_not_supported() {
    let (mut b, vm, vcpu) = backend();
    let (before, _) = axvisor_kvm_rs_run_vcpu(&b, vcpu, true);
    assert!(before < 0);
    let _ = axvisor_kvm_rs_boot_vm(&mut b, vm);
    let (ret, _) = axvisor_kvm_rs_run_vcpu(&b, vcpu, false);
    assert_eq!(ret, -EINVAL);
    assert_eq!(axvisor_kvm_rs_complete_mmio_read(), -EOPNOTSUPP);
    assert_eq!(axvisor_kvm_rs_inject_irq(), -EOPNOTSUPP);
}
