use axvisor_kvm::bytes::FXSAVE_SIZE;
use axvisor_kvm::config::{build_axvm_config, find_primary_vcpu_entry, EmulatedDevice, InterruptMode};
use axvisor_kvm::context::RunContexts;
use axvisor_kvm::errno::{EINVAL, ENOSPC};
use axvisor_kvm::snapshot::{build_kvm_vcpu_state_box, convert_dtable, convert_segment};
use axvisor_kvm::soft_ple::{is_oversubscribed, SoftPle, SpinAction};
use axvisor_kvm::state::{vcpu_index_from_handle, vm_index_from_handle, BackendDtable, BackendSegment, Bridge, MAX_VCPUS, MAX_VMS};
use axvisor_kvm::timers::{
    arm_x86_idle_wakeup_timer, axvisor_kvm_x86_bridge_expire_all_due_timers, expire_due_kvm_timers, oneshot_program,
    ExpireStep, TimerProgram, TimerTables,
};
use axvisor_kvm::vcpu::{
    active_vcpus, axvisor_kvm_rs_create_vcpu, axvisor_kvm_rs_destroy_vcpu, axvisor_kvm_rs_set_vcpu_cpuid_entry,
    axvisor_kvm_rs_set_vcpu_dtable, axvisor_kvm_rs_set_vcpu_fpu, axvisor_kvm_rs_set_vcpu_msr_entry,
    axvisor_kvm_rs_set_vcpu_regs, axvisor_kvm_rs_set_vcpu_segment, axvisor_kvm_rs_set_vcpu_sregs_control,
    axvisor_kvm_rs_set_vcpu_state, axvisor_kvm_rs_set_vcpu_xsave_legacy, clear_vcpu_pending_reads,
    find_vcpu_slot_by_id, reset_vcpu_slot_in_place, vm_active_vcpu_count,
};
use axvisor_kvm::vm::{
    axvisor_kvm_rs_create_vm, axvisor_kvm_rs_destroy_vm, axvisor_kvm_rs_map_page, axvisor_kvm_rs_map_page_nolog,
    axvisor_kvm_rs_set_vm_state, axvisor_kvm_rs_unmap_range, axvm_for_vm_id, finish_map_page, finish_unmap_range,
    machine_code, map_page_into_axvm, vcpu_num, MapPageStep, UnmapStep,
};

fn vm(bridge: &mut Bridge) -> u64 {
    let mut handle = Some(0);
    assert_eq!(axvisor_kvm_rs_create_vm(bridge, &mut handle), 0);
    handle.unwrap()
}

fn vcpu(bridge: &mut Bridge, vm: u64, id: u32) -> u64 {
    let mut handle = Some(0);
    assert_eq!(axvisor_kvm_rs_create_vcpu(bridge, vm, id, &mut handle), 0);
    handle.unwrap()
}

#[test]
fn handles_are_positions_from_one() {
    assert_eq!(vm_index_from_handle(0), Err(-EINVAL));
    assert_eq!(vm_index_from_handle(1), Ok(0));
    assert_eq!(vm_index_from_handle(MAX_VMS as u64), Ok(MAX_VMS - 1));
    assert_eq!(vm_index_from_handle(MAX_VMS as u64 + 1), Err(-EINVAL));
    assert_eq!(vcpu_index_from_handle(MAX_VCPUS as u64), Ok(MAX_VCPUS - 1));
    assert_eq!(vcpu_index_from_handle(MAX_VCPUS as u64 + 1), Err(-EINVAL));
}

#[test]
fn vms_are_created_until_the_table_is_full() {
    let mut bridge = Bridge::new();
    for i in 0..MAX_VMS {
        assert_eq!(vm(&mut bridge), i as u64 + 1);
    }
    let mut handle = Some(0);
    assert_eq!(axvisor_kvm_rs_create_vm(&mut bridge, &mut handle), -ENOSPC);
    let mut nowhere = None;
    assert_eq!(axvisor_kvm_rs_create_vm(&mut bridge, &mut nowhere), -EINVAL);
    let mut timers: TimerTables<u8> = TimerTables::new();
    assert!(axvisor_kvm_rs_destroy_vm(&mut bridge, &mut timers, 3).is_some());
    assert_eq!(vm(&mut bridge), 3);
}

#[test]
fn vm_state_is_recorded() {
    let mut bridge = Bridge::new();
    let h = vm(&mut bridge);
    let table = [7u64, 8, 9];
    let r = axvisor_kvm_rs_set_vm_state(&mut bridge, h, 1, 2, 1, 0, 3, 4, 5, 6, Some(&table), 3);
    assert_eq!(r, 0);
    assert!(bridge.vms[0].irqchip_created && !bridge.vms[0].pit_created);
    assert_eq!(bridge.vms[0].ioapic_redirtbl[2], 9);
    assert_eq!(bridge.vms[0].ioapic_redirtbl_count, 3);
    assert_eq!(axvisor_kvm_rs_set_vm_state(&mut bridge, 9, 1, 2, 1, 0, 3, 4, 5, 6, None, 0), -EINVAL);
}

#[test]
fn recorded_page_is_found_until_unmapped() {
    let mut bridge = Bridge::new();
    let h = vm(&mut bridge);
    assert_eq!(axvisor_kvm_rs_map_page(&mut bridge, h, 0x1000, 0x9000, 0), MapPageStep::Done(0));
    assert_eq!(axvisor_kvm_rs_map_page(&mut bridge, h, 0x2000, 0xa000, 0), MapPageStep::Done(0));
    assert_eq!(bridge.vms[0].page_mapping_count, 2);
    assert!(bridge.mappings.iter().any(|m| m.in_use && m.gpa == 0x1000 && m.hpa == 0x9000));
    assert_eq!(axvisor_kvm_rs_map_page(&mut bridge, h, 0x1000, 0xb000, 0), MapPageStep::Done(0));
    assert_eq!(bridge.vms[0].page_mapping_count, 2);
    assert_eq!(axvisor_kvm_rs_unmap_range(&mut bridge, h, 0x1000, 0x1000), UnmapStep::Done(0));
    assert!(!bridge.mappings.iter().any(|m| m.in_use && m.gpa == 0x1000));
    assert!(bridge.mappings.iter().any(|m| m.in_use && m.gpa == 0x2000));
    assert_eq!(bridge.vms[0].page_mapping_count, 1);
}

#[test]
fn pages_of_a_booted_vm_go_to_the_machine_first() {
    let mut bridge = Bridge::new();
    let h = vm(&mut bridge);
    bridge.vms[0].booted = true;
    bridge.vms[0].machine = true;
    let step = axvisor_kvm_rs_map_page(&mut bridge, h, 0x1000, 0x9000, 0);
    assert_eq!(step, MapPageStep::MapRegion(map_page_into_axvm(0x1000, 0x9000, 0)));
    assert_eq!(finish_map_page(&mut bridge, h, 0x1000, 0x9000, 0, Err(-12)), -12);
    assert_eq!(finish_map_page(&mut bridge, h, 0x1000, 0x9000, 0, Ok(())), 0);
    match axvisor_kvm_rs_unmap_range(&mut bridge, h, 0x1000, 0x1000) {
        UnmapStep::UnmapRegion { gpa, size } => {
            assert_eq!((gpa.0, size), (0x1000, 0x1000));
        }
        UnmapStep::Done(_) => panic!(),
    }
    assert_eq!(finish_unmap_range(&mut bridge, h, 0x1000, 0x1000, Ok(())), 0);
    assert!(axvm_for_vm_id(&bridge, h));
    assert_eq!(machine_code(Err(-5)), -5);
    match axvisor_kvm_rs_map_page_nolog(&bridge, 9, 0, 0, 0) {
        MapPageStep::Done(code) => assert_eq!(code, -EINVAL),
        MapPageStep::MapRegion(_) => panic!(),
    }
}

#[test]
fn vcpus_are_counted_by_their_vm() {
    let mut bridge = Bridge::new();
    let a = vm(&mut bridge);
    let b = vm(&mut bridge);
    let v0 = vcpu(&mut bridge, a, 0);
    let v1 = vcpu(&mut bridge, a, 1);
    let _w = vcpu(&mut bridge, b, 0);
    assert_eq!(vcpu_num(&bridge, a), Some(2));
    assert_eq!(active_vcpus(&bridge, a), Some(0b11));
    assert_eq!(vm_active_vcpu_count(&bridge, a), 1);
    bridge.vcpus[v1 as usize - 1].sipi_started = true;
    assert_eq!(vm_active_vcpu_count(&bridge, a), 2);
    assert_eq!(find_vcpu_slot_by_id(&bridge, a, 1), Some(v1 as usize - 1));
    assert_eq!(find_vcpu_slot_by_id(&bridge, b, 1), None);
    axvisor_kvm_rs_destroy_vcpu(&mut bridge, v0);
    assert_eq!(vm_active_vcpu_count(&bridge, a), 1);
    assert_eq!(vcpu_num(&bridge, a), Some(2));
    axvisor_kvm_rs_destroy_vcpu(&mut bridge, v1);
    assert_eq!(bridge.vms[0].vcpu_count, 0);
    assert_eq!(vcpu_num(&bridge, a), Some(1));
    assert_eq!(vm_active_vcpu_count(&bridge, b), 1);
}

#[test]
fn vcpu_creation_is_refused() {
    let mut bridge = Bridge::new();
    let h = vm(&mut bridge);
    let _v = vcpu(&mut bridge, h, 0);
    let mut out = Some(0);
    assert_eq!(axvisor_kvm_rs_create_vcpu(&mut bridge, 9, 1, &mut out), -EINVAL);
    let mut nowhere = None;
    assert_eq!(axvisor_kvm_rs_create_vcpu(&mut bridge, h, 1, &mut nowhere), -EINVAL);
    for id in 1..MAX_VCPUS as u32 {
        let _ = vcpu(&mut bridge, h, id);
    }
    assert_eq!(axvisor_kvm_rs_create_vcpu(&mut bridge, h, 99, &mut out), -ENOSPC);
}

#[test]
fn vcpu_state_reaches_the_snapshot() {
    let mut bridge = Bridge::new();
    let h = vm(&mut bridge);
    let v = vcpu(&mut bridge, h, 0);
    assert_eq!(
        axvisor_kvm_rs_set_vcpu_regs(
            &mut bridge, v, 1, 2, 3, 4, 5, 6, 7, 8, 9, 10, 11, 12, 13, 14, 15, 16, 0x1234, 2
        ),
        0
    );
    assert_eq!(axvisor_kvm_rs_set_vcpu_sregs_control(&mut bridge, v, 0x10, 0x20, 0x30, 0x40, 5, 0x500, 0xfee0_0900), 0);
    assert_eq!(axvisor_kvm_rs_set_vcpu_segment(&mut bridge, v, 0, 0x100, 0xffff, 8, 11, 1, 0, 1, 1, 0, 1, 0, 0), 0);
    assert_eq!(axvisor_kvm_rs_set_vcpu_dtable(&mut bridge, v, 1, 0x200, 0x7f), 0);
    assert_eq!(axvisor_kvm_rs_set_vcpu_cpuid_entry(&mut bridge, v, 0, 1, 0, 0, 11, 12, 13, 14), 0);
    assert_eq!(axvisor_kvm_rs_set_vcpu_msr_entry(&mut bridge, v, 0, 0x10, 99), 0);
    let state = build_kvm_vcpu_state_box(&bridge.vcpus[0]);
    assert_eq!(state.regs.rax, 1);
    assert_eq!(state.rip, 0x1234);
    assert_eq!(state.cr3, 0x30);
    assert_eq!(state.segments[0].base, 0x100);
    assert_eq!(state.dtables[1].limit, 0x7f);
    assert!(bridge.vcpus[0].state_dirty);
    assert_eq!(axvisor_kvm_rs_set_vcpu_segment(&mut bridge, v, 8, 0, 0, 0, 0, 0, 0, 0, 0, 0, 0, 0, 0), -EINVAL);
    assert_eq!(axvisor_kvm_rs_set_vcpu_dtable(&mut bridge, v, 2, 0, 0), -EINVAL);
    assert_eq!(axvisor_kvm_rs_set_vcpu_cpuid_entry(&mut bridge, v, 256, 0, 0, 0, 0, 0, 0, 0), -EINVAL);
    assert_eq!(axvisor_kvm_rs_set_vcpu_msr_entry(&mut bridge, v, 256, 0, 0), -EINVAL);
    assert_eq!(axvisor_kvm_rs_set_vcpu_regs(&mut bridge, 5, 1, 2, 3, 4, 5, 6, 7, 8, 9, 10, 11, 12, 13, 14, 15, 16, 17, 2), -EINVAL);
}

#[test]
fn vcpu_entry_comes_from_its_state() {
    let mut bridge = Bridge::new();
    let h = vm(&mut bridge);
    let v = vcpu(&mut bridge, h, 0);
    let r = axvisor_kvm_rs_set_vcpu_state(
        &mut bridge, v, 1, 1, 0x7c00, 0x1000, 2, 0x11, 0, 0, 0, 0xfee0_0900, 1, 2, 3, 1_000_000,
    );
    assert_eq!(r, 0);
    assert_eq!(find_primary_vcpu_entry(&bridge, h), 0x7c00);
    let config = build_axvm_config(&bridge, h);
    assert_eq!(config.id, h);
    assert_eq!(config.cpu_num, 1);
    assert_eq!(config.entry_point, 0x7c00);
}

#[test]
fn configuration_follows_the_interrupt_chips() {
    let mut bridge = Bridge::new();
    let h = vm(&mut bridge);
    let _v = vcpu(&mut bridge, h, 0);
    let bare = build_axvm_config(&bridge, h);
    assert_eq!(bare.interrupt_mode, InterruptMode::NoIrq);
    assert_eq!(axvisor_kvm_rs_set_vm_state(&mut bridge, h, 1, 1, 1, 1, 0, 0, 0, 3, None, 0), 0);
    let full = build_axvm_config(&bridge, h);
    assert_eq!(full.interrupt_mode, InterruptMode::Emulated);
    assert!(full.emu_devices.iter().any(|d| d.emu_type == EmulatedDevice::X86IoApic));
    assert!(full.emu_devices.iter().any(|d| d.emu_type == EmulatedDevice::X86Pit));
}

#[test]
fn fpu_state_is_taken_over() {
    let mut bridge = Bridge::new();
    let h = vm(&mut bridge);
    let v = vcpu(&mut bridge, h, 0);
    let fpr = [1u8; 128];
    let xmm = [2u8; 256];
    let r = axvisor_kvm_rs_set_vcpu_fpu(
        &mut bridge, v, 0x37f, 0, 0, 0, 0, 0, 0x1f80, Some(&fpr), 128, Some(&xmm), 256,
    );
    assert_eq!(r, 0);
    assert!(bridge.vcpus[0].fxsave_valid);
    assert_eq!(bridge.vcpus[0].fxsave.bytes[32], 1);
    assert_eq!(bridge.vcpus[0].fxsave.bytes[160], 2);
    let region = [5u8; FXSAVE_SIZE];
    assert_eq!(axvisor_kvm_rs_set_vcpu_xsave_legacy(&mut bridge, v, Some(&region), 128), 0);
    assert_eq!(bridge.vcpus[0].fxsave.bytes[200], 5);
    assert_eq!(axvisor_kvm_rs_set_vcpu_xsave_legacy(&mut bridge, v, None, 128), -EINVAL);
    assert_eq!(axvisor_kvm_rs_set_vcpu_xsave_legacy(&mut bridge, v, Some(&region), 127), -EINVAL);
}

#[test]
fn segments_and_tables_are_narrowed() {
    let mut s = BackendSegment::empty();
    s.selector = 0x1_0008;
    s.type_ = 11;
    s.present = 1;
    let c = convert_segment(s);
    assert_eq!(c.selector, 8);
    assert_eq!(c.type_, 11);
    assert!(c.present && !c.l);
    let mut d = BackendDtable::empty();
    d.limit = 0x1_0fff;
    assert_eq!(convert_dtable(d).limit, 0xfff);
}

#[test]
fn slot_reset_clears_pending_reads() {
    let mut bridge = Bridge::new();
    let h = vm(&mut bridge);
    let _v = vcpu(&mut bridge, h, 3);
    bridge.vcpus[0].pending_io_read.active = true;
    clear_vcpu_pending_reads(&mut bridge, 0);
    assert!(!bridge.vcpus[0].pending_io_read.active);
    reset_vcpu_slot_in_place(&mut bridge, 0);
    assert!(!bridge.vcpus[0].in_use);
}

#[test]
fn next_timer_is_the_earliest() {
    let mut timers: TimerTables<&str> = TimerTables::new();
    assert_eq!(timers.reprogram_next_kvm_timer(), TimerProgram::Cancel);
    let (a, p) = timers.register_kvm_timer_on_table(1, 0, 500, "a");
    assert_eq!(p, Some(TimerProgram::Reprogram(500)));
    let (b, p) = timers.register_kvm_timer_on_table(1, 1, 300, "b");
    assert_eq!(p, Some(TimerProgram::Reprogram(300)));
    assert_ne!(a, b);
    assert_eq!(timers.cancel_timer(1, b), Some(TimerProgram::Reprogram(500)));
    assert_eq!(timers.reprogram_next_kvm_timer(), TimerProgram::Reprogram(500));
}

#[test]
fn drain_runs_due_timers_and_leaves_future_ones() {
    let mut timers: TimerTables<&str> = TimerTables::new();
    let _ = timers.register_kvm_timer_on_table(1, 0, 100, "due");
    let _ = timers.register_kvm_timer_on_table(1, 5, 900, "later");
    let _ = timers.register_kvm_timer_on_table(2, 5, 150, "also due");
    let mut pass = axvisor_kvm_x86_bridge_expire_all_due_timers(200);
    let mut ran = vec![];
    loop {
        match pass.advance(&mut timers) {
            ExpireStep::RunCallback { callback, now } => ran.push((callback, now)),
            ExpireStep::Program(p) => {
                assert_eq!(p, TimerProgram::Reprogram(900));
                break;
            }
        }
    }
    assert_eq!(ran, vec![("due", 200), ("also due", 200)]);
    assert!(timers.take_due_timer(5, 200).is_none());
    assert_eq!(timers.take_due_timer(5, 900), Some("later"));
}

#[test]
fn drain_calls_every_due_timer_once() {
    let mut timers: TimerTables<u32> = TimerTables::new();
    for v in 0..MAX_VCPUS {
        for k in 0..3 {
            let _ = timers.register_kvm_timer_on_table(1, v, 50 * (k as u128 + 1), v as u32);
        }
    }
    let mut pass = axvisor_kvm_x86_bridge_expire_all_due_timers(100);
    let mut called = vec![0; MAX_VCPUS];
    while let ExpireStep::RunCallback { callback, now } = pass.advance(&mut timers) {
        called[callback as usize] += 1;
        let _ = timers.register_kvm_timer_on_table(1, callback as usize, now + 1, callback);
    }
    assert_eq!(called, vec![2; MAX_VCPUS]);
    for v in 0..MAX_VCPUS {
        assert!(timers.take_due_timer(v, 100).is_none());
        assert_eq!(timers.take_due_timer(v, 101), Some(v as u32));
        assert_eq!(timers.take_due_timer(v, 101), Some(v as u32));
        assert!(timers.take_due_timer(v, 101).is_none());
    }
}

#[test]
fn drain_is_bounded() {
    let mut timers: TimerTables<u8> = TimerTables::new();
    let _ = timers.register_kvm_timer_on_table(1, 7, 100, 1);
    let mut pass = expire_due_kvm_timers(7, 100).unwrap();
    let mut calls = 0;
    while let ExpireStep::RunCallback { callback, now } = pass.advance(&mut timers) {
        calls += 1;
        let _ = timers.register_kvm_timer_on_table(1, 7, now + 1, callback);
        assert!(calls < 10);
    }
    assert_eq!(calls, 1);
}

#[test]
fn drain_of_one_vcpu_leaves_other_tables() {
    let mut timers: TimerTables<u8> = TimerTables::new();
    let _ = timers.register_kvm_timer_on_table(1, 0, 100, 1);
    let _ = timers.register_kvm_timer_on_table(1, 1, 100, 2);
    let mut pass = expire_due_kvm_timers(1, 100).unwrap();
    match pass.advance(&mut timers) {
        ExpireStep::RunCallback { callback, now } => assert_eq!((callback, now), (2, 100)),
        ExpireStep::Program(_) => panic!(),
    }
    assert!(expire_due_kvm_timers(MAX_VCPUS, 100).is_none());
}

#[test]
fn timers_of_a_destroyed_vm_are_gone() {
    let mut bridge = Bridge::new();
    let h = vm(&mut bridge);
    let mut timers: TimerTables<u8> = TimerTables::new();
    let _ = timers.register_kvm_timer_on_table(h, 0, 100, 1);
    let _ = timers.register_kvm_timer_on_table(9, 0, 700, 2);
    assert_eq!(axvisor_kvm_rs_destroy_vm(&mut bridge, &mut timers, h), Some(TimerProgram::Reprogram(700)));
    assert_eq!(timers.take_due_timer(0, u128::MAX), Some(2));
    assert_eq!(timers.take_due_timer(0, u128::MAX), None);
}

#[test]
fn host_timer_values() {
    assert_eq!(oneshot_program(5), Some(5));
    assert_eq!(arm_x86_idle_wakeup_timer(None), None);
    assert_eq!(arm_x86_idle_wakeup_timer(Some(77)), Some(77));
}

#[test]
fn run_contexts_belong_to_their_task() {
    let mut contexts = RunContexts::new();
    contexts.set_current_vcpu_context(10, 1, 2);
    contexts.set_current_vcpu_context(11, 3, 4);
    assert_eq!(contexts.current_run_context(10), Some((1, 2)));
    assert_eq!(contexts.current_run_context(11), Some((3, 4)));
    contexts.set_current_vcpu_context(10, 5, 6);
    assert_eq!(contexts.current_vm_id(10), 5);
    assert_eq!(contexts.current_vcpu_id(10), 6);
    assert_eq!(contexts.current_run_context(11), Some((3, 4)));
    let mut timers: TimerTables<u8> = TimerTables::new();
    let (_, program) = contexts.register_timer(&mut timers, 11, 40, 9);
    assert_eq!(program, Some(TimerProgram::Reprogram(40)));
    assert_eq!(timers.take_due_timer(4, 40), Some(9));
}

fn crowded() -> Bridge {
    let mut bridge = Bridge::new();
    let h = vm(&mut bridge);
    for id in 0..4 {
        let v = vcpu(&mut bridge, h, id);
        bridge.vcpus[v as usize - 1].sipi_started = true;
    }
    bridge
}

#[test]
fn spinning_vcpu_is_handed_off_under_scarcity() {
    let bridge = crowded();
    let mut ple = SoftPle::new();
    assert!(is_oversubscribed(&bridge, 1, 2));
    assert!(!is_oversubscribed(&bridge, 1, 4));
    let mut actions = vec![];
    for _ in 0..7 {
        actions.push(ple.soft_ple_maybe_park(&bridge, 1, 2, Some(0x4000)));
    }
    let (nothing, hand_off) = (SpinAction::Nothing, SpinAction::HandOff);
    assert_eq!(actions, vec![nothing, nothing, hand_off, nothing, hand_off, nothing, hand_off]);
    ple.soft_ple_reset(1);
    assert_eq!(ple.soft_ple_maybe_park(&bridge, 1, 2, Some(0x4000)), SpinAction::Nothing);
}

#[test]
fn boot_controller_is_never_handed_off() {
    let bridge = crowded();
    assert_eq!(bridge.vcpus[0].id, 0);
    let mut ple = SoftPle::new();
    for _ in 0..20 {
        assert_eq!(ple.soft_ple_maybe_park(&bridge, 0, 2, Some(0x4000)), SpinAction::Nothing);
        let _ = ple.soft_ple_maybe_park(&bridge, 1, 2, Some(0x4000));
        assert_eq!(ple.tracks[0], ple.tracks[1]);
    }
    let _ = ple.soft_ple_maybe_park(&bridge, 0, 2, Some(0x5000));
    assert_eq!(ple.soft_ple_maybe_park(&bridge, 0, 2, Some(0x6000)), SpinAction::Restore);
}

#[test]
fn progressing_vcpu_is_restored() {
    let bridge = crowded();
    let mut ple = SoftPle::new();
    for _ in 0..3 {
        let _ = ple.soft_ple_maybe_park(&bridge, 1, 2, Some(0x4000));
    }
    assert_eq!(ple.soft_ple_maybe_park(&bridge, 1, 2, Some(0x5000)), SpinAction::Nothing);
    assert_eq!(ple.soft_ple_maybe_park(&bridge, 1, 2, Some(0x6000)), SpinAction::Restore);
    assert_eq!(ple.tracks[1].streak, 1);
}

#[test]
fn no_hand_off_without_scarcity_or_with_progress() {
    let bridge = crowded();
    let mut ple = SoftPle::new();
    for i in 0..50u64 {
        assert_ne!(ple.soft_ple_maybe_park(&bridge, 0, 8, Some(0x4000)), SpinAction::HandOff);
        assert_ne!(ple.soft_ple_maybe_park(&bridge, 1, 2, Some(0x4000 + (i << 12))), SpinAction::HandOff);
    }
}
