use axvisor_kvm::access::{AccessWidth, GuestPhysAddr, MappingFlags, Port};
use axvisor_kvm::boot::{axvisor_kvm_rs_boot_vm, BootStep};
use axvisor_kvm::env::{axvisor_kvm_rs_backend_init, Backend};
use axvisor_kvm::errno::EINVAL;
use axvisor_kvm::host::{note_internal_run_progress, should_log_raw_exit, HostReply, InterruptTriggerMode, IoapicIrq, VcpuExit};
use axvisor_kvm::inkernel::{
    axvisor_kvm_rs_complete_io_read, axvisor_kvm_rs_complete_mmio_read, complete_resume, handle_x86_inkernel_io_read,
    inkernel_resume, CompleteStep, InKernelStep,
};
use axvisor_kvm::irq::{
    axvisor_kvm_rs_inject_irq, complete_x86_external_eoi, deliver_resume, eoi_resume, inject_due_x86_pit_irq0,
    inject_interrupt, inject_interrupt_resume, inject_interrupt_to_cpus, inject_irq_resume, inject_x86_ioapic_irq,
    ipi_resume, line_resume, DeliverStep, EoiStep, InjectIrqStep, InjectStep, IpiStep, LineStep,
};
use axvisor_kvm::percpu::{enter_percpu, enter_percpu_resume, leave_percpu, EnterStep, PercpuTable};
use axvisor_kvm::progress::{make_internal_run_progress, progress_resume, ProgressStep};
use axvisor_kvm::run::{
    axvisor_kvm_rs_run_vcpu, RunStep, RunVcpu, AXKVM_BACKEND_EXIT_FAIL_ENTRY, AXKVM_BACKEND_EXIT_HLT,
    AXKVM_BACKEND_EXIT_INTERNAL_ERROR, AXKVM_BACKEND_EXIT_IO_READ, AXKVM_BACKEND_EXIT_MMIO_READ,
    AXKVM_BACKEND_EXIT_MMIO_WRITE, AXKVM_BACKEND_EXIT_SHUTDOWN,
};
use axvisor_kvm::vcpu::axvisor_kvm_rs_create_vcpu;
use axvisor_kvm::vm::{axvisor_kvm_rs_create_vm, axvisor_kvm_rs_map_page, axvisor_kvm_rs_set_vm_state};

fn machine() -> Backend {
    let mut env = Backend::new();
    let mut h = Some(0);
    assert_eq!(axvisor_kvm_rs_create_vm(&mut env.bridge, &mut h), 0);
    let mut v = Some(0);
    assert_eq!(axvisor_kvm_rs_create_vcpu(&mut env.bridge, 1, 0, &mut v), 0);
    env
}

fn enter_reply(step: EnterStep) -> HostReply {
    match step {
        EnterStep::MigrateDisable => HostReply::Done,
        EnterStep::CurrentCpuId => HostReply::CpuId(3),
        EnterStep::Init { .. } => HostReply::Outcome(Ok(())),
        EnterStep::IsEnabled { .. } => HostReply::Flag(false),
        EnterStep::HardwareEnable { .. } => HostReply::Outcome(Ok(())),
        EnterStep::MigrateEnable { .. } => HostReply::Done,
        EnterStep::Done(_) => HostReply::Done,
    }
}

fn boot(env: &mut Backend) -> Vec<BootStep> {
    let mut boot = axvisor_kvm_rs_boot_vm(&env.bridge, 1);
    let mut seen = vec![boot.step];
    loop {
        let reply = match boot.step {
            BootStep::Create | BootStep::MapPage { .. } | BootStep::InitMachine | BootStep::BootMachine => {
                HostReply::Outcome(Ok(()))
            }
            BootStep::ApplyState { .. } => HostReply::Outcome(Ok(())),
            BootStep::CurrentTask => HostReply::TaskId(42),
            BootStep::Enter(enter) => enter_reply(enter),
            BootStep::SetRedirection { .. } => HostReply::Flag(true),
            BootStep::LeaveBooted | BootStep::Leave { .. } => HostReply::Done,
            BootStep::Done(_) => break,
        };
        boot.resume(env, reply);
        seen.push(boot.step);
    }
    seen
}

fn run_to_raw(env: &mut Backend) -> RunVcpu {
    let mut run = axvisor_kvm_rs_run_vcpu(&env.bridge, 1, true);
    loop {
        let reply = match run.step {
            RunStep::CurrentTask => HostReply::TaskId(42),
            RunStep::Enter(enter) => enter_reply(enter),
            RunStep::ApplyState { .. } => HostReply::Outcome(Ok(())),
            RunStep::StartRestore { .. } => HostReply::Done,
            RunStep::FpuBegin => HostReply::Code(0),
            RunStep::RunRaw { .. } => return run,
            _ => panic!("unexpected step"),
        };
        run.resume(env, reply);
    }
}

fn exit_with(env: &mut Backend, exit: VcpuExit) -> RunVcpu {
    let mut run = run_to_raw(env);
    run.resume(env, HostReply::Exit(Ok(exit)));
    assert!(matches!(run.step, RunStep::FpuEnd { .. }));
    run.resume(env, HostReply::Done);
    if should_log_raw_exit(&Ok(exit), 0) {
        assert_eq!(run.step, RunStep::LogExit { result: Ok(exit) });
        run.resume(env, HostReply::Done);
    }
    run
}

#[test]
fn vm_is_booted_last() {
    let mut env = machine();
    assert_eq!(axvisor_kvm_rs_backend_init(), 0);
    let _ = axvisor_kvm_rs_map_page(&mut env.bridge, 1, 0x1000, 0x9000, 0);
    assert_eq!(axvisor_kvm_rs_set_vm_state(&mut env.bridge, 1, 1, 1, 1, 1, 0, 0, 0, 3, Some(&[5, 6]), 2), 0);
    env.bridge.vcpus[0].state_dirty = true;
    let seen = boot(&mut env);
    assert_eq!(seen[0], BootStep::Create);
    assert!(matches!(seen[1], BootStep::MapPage { index: 0, .. }));
    assert!(seen.contains(&BootStep::SetRedirection { pin: 1, entry: 6 }));
    assert!(seen.iter().any(|s| matches!(s, BootStep::ApplyState { slot: 0, vcpu_id: 0 })));
    assert_eq!(seen[seen.len() - 2], BootStep::LeaveBooted);
    assert_eq!(seen[seen.len() - 1], BootStep::Done(0));
    assert!(env.bridge.vms[0].booted && env.bridge.vms[0].machine);
    assert!(!env.bridge.vcpus[0].state_dirty);
    assert_eq!(axvisor_kvm_rs_boot_vm(&env.bridge, 1).step, BootStep::Done(0));
    assert_eq!(axvisor_kvm_rs_boot_vm(&env.bridge, 2).step, BootStep::Done(-EINVAL));
}

#[test]
fn failed_boot_leaves_the_vm_down_and_unpinned() {
    let mut env = machine();
    let mut b = axvisor_kvm_rs_boot_vm(&env.bridge, 1);
    b.resume(&mut env, HostReply::Outcome(Ok(())));
    b.resume(&mut env, HostReply::TaskId(1));
    while let BootStep::Enter(enter) = b.step {
        b.resume(&mut env, enter_reply(enter));
    }
    assert_eq!(b.step, BootStep::InitMachine);
    b.resume(&mut env, HostReply::Outcome(Err(-5)));
    assert_eq!(b.step, BootStep::Leave { ret: -5 });
    b.resume(&mut env, HostReply::Done);
    assert_eq!(b.step, BootStep::Done(-5));
    assert!(!env.bridge.vms[0].booted);
}

#[test]
fn entering_pins_exactly_on_success() {
    let mut table = PercpuTable::new();
    let mut step = enter_percpu();
    let mut pinned = 0;
    while !matches!(step, EnterStep::Done(_)) {
        if matches!(step, EnterStep::MigrateDisable) {
            pinned += 1;
        }
        if matches!(step, EnterStep::MigrateEnable { .. }) {
            pinned -= 1;
        }
        step = enter_percpu_resume(step, &mut table, enter_reply(step));
    }
    assert_eq!(step, EnterStep::Done(0));
    assert_eq!(pinned, 1);
    assert!(table.initialized[3]);
    let mut again = enter_percpu();
    let mut inits = 0;
    while !matches!(again, EnterStep::Done(_)) {
        if matches!(again, EnterStep::Init { .. }) {
            inits += 1;
        }
        again = enter_percpu_resume(again, &mut table, enter_reply(again));
    }
    assert_eq!(inits, 0);
    assert_eq!(leave_percpu(), 0);
}

#[test]
fn entering_on_an_unknown_cpu_fails_unpinned() {
    let mut table = PercpuTable::new();
    let mut step = enter_percpu();
    step = enter_percpu_resume(step, &mut table, HostReply::Done);
    step = enter_percpu_resume(step, &mut table, HostReply::CpuId(256));
    assert!(matches!(step, EnterStep::MigrateEnable { .. }));
    step = enter_percpu_resume(step, &mut table, HostReply::Done);
    assert_eq!(step, EnterStep::Done(-EINVAL));
}

#[test]
fn run_is_refused_without_outputs_or_boot() {
    let mut env = machine();
    assert_eq!(axvisor_kvm_rs_run_vcpu(&env.bridge, 1, true).step, RunStep::Done(-EINVAL));
    let _ = boot(&mut env);
    assert_eq!(axvisor_kvm_rs_run_vcpu(&env.bridge, 1, false).step, RunStep::Done(-EINVAL));
    assert_eq!(axvisor_kvm_rs_run_vcpu(&env.bridge, 99, true).step, RunStep::Done(-EINVAL));
    assert_eq!(axvisor_kvm_rs_run_vcpu(&env.bridge, 1, true).step, RunStep::CurrentTask);
}

#[test]
fn mmio_read_is_reported_and_completed() {
    let mut env = machine();
    let _ = boot(&mut env);
    let exit = VcpuExit::MmioRead {
        addr: GuestPhysAddr(0xd000_0000),
        width: AccessWidth::Dword,
        reg: 3,
        reg_width: AccessWidth::Qword,
        signed_ext: false,
    };
    let mut run = exit_with(&mut env, exit);
    assert!(matches!(run.step, RunStep::InKernel { .. }));
    run.resume(&mut env, HostReply::Flag(false));
    assert_eq!(run.step, RunStep::Leave { ret: 0 });
    let out = run.exit.unwrap();
    assert_eq!((out.reason, out.width, out.addr), (AXKVM_BACKEND_EXIT_MMIO_READ, 4, 0xd000_0000));
    run.resume(&mut env, HostReply::Done);
    assert_eq!(run.step, RunStep::Done(0));
    assert!(env.bridge.vcpus[0].pending_mmio_read.active);

    let data = [0x78u8, 0x56, 0x34, 0x12];
    assert_eq!(axvisor_kvm_rs_complete_mmio_read(&env.bridge, 1, None, 4), CompleteStep::Done(-EINVAL));
    let mut done = axvisor_kvm_rs_complete_mmio_read(&env.bridge, 1, Some(&data), 4);
    assert_eq!(done, CompleteStep::FindVcpu { slot: 0, vcpu_id: 0, reg: 3, value: 0x1234_5678 });
    done = complete_resume(done, &mut env.bridge, HostReply::Flag(true));
    assert_eq!(done, CompleteStep::SetGpr { slot: 0, vcpu_id: 0, reg: 3, value: 0x1234_5678 });
    done = complete_resume(done, &mut env.bridge, HostReply::Done);
    assert_eq!(done, CompleteStep::Done(0));
    assert!(!env.bridge.vcpus[0].pending_mmio_read.active);
    assert_eq!(axvisor_kvm_rs_complete_mmio_read(&env.bridge, 1, Some(&data), 4), CompleteStep::Done(-EINVAL));
}

#[test]
fn port_read_outside_the_kernel_is_reported() {
    let mut env = machine();
    let _ = boot(&mut env);
    let run = exit_with(&mut env, VcpuExit::IoRead { port: Port(0xcf8), width: AccessWidth::Word });
    assert_eq!(run.step, RunStep::Leave { ret: 0 });
    assert_eq!(run.exit.unwrap().reason, AXKVM_BACKEND_EXIT_IO_READ);
    assert!(env.bridge.vcpus[0].pending_io_read.active);
    let mut done = axvisor_kvm_rs_complete_io_read(&env.bridge, 1, Some(&[0x34, 0x12]), 2);
    assert_eq!(done, CompleteStep::CompleteIoRead { slot: 0, vcpu_id: 0, value: 0x1234, len: 2 });
    done = complete_resume(done, &mut env.bridge, HostReply::Outcome(Ok(())));
    assert_eq!(done, CompleteStep::Done(0));
}

#[test]
fn port_read_in_the_kernel_is_served() {
    let mut step = handle_x86_inkernel_io_read(0, Port(0x20), AccessWidth::Byte);
    assert!(matches!(step, InKernelStep::ReadPort { .. }));
    step = inkernel_resume(step, HostReply::Value(Ok(0x7)));
    assert_eq!(step, InKernelStep::CompleteIoRead { vcpu_id: 0, value: 0x7, size: 1 });
    step = inkernel_resume(step, HostReply::Outcome(Ok(())));
    assert_eq!(step, InKernelStep::Done(0));
}

#[test]
fn exits_have_their_reasons() {
    let mut env = machine();
    let _ = boot(&mut env);
    let down = exit_with(&mut env, VcpuExit::SystemDown);
    assert_eq!(down.exit.unwrap().reason, AXKVM_BACKEND_EXIT_SHUTDOWN);
    let fail = exit_with(&mut env, VcpuExit::FailEntry { hardware_entry_failure_reason: 0x21 });
    let out = fail.exit.unwrap();
    assert_eq!((out.reason, out.hardware_entry_failure_reason), (AXKVM_BACKEND_EXIT_FAIL_ENTRY, 0x21));
    let other = exit_with(&mut env, VcpuExit::Other);
    assert_eq!(other.exit.unwrap().reason, AXKVM_BACKEND_EXIT_INTERNAL_ERROR);
    let write = VcpuExit::MmioWrite { addr: GuestPhysAddr(0x10), width: AccessWidth::Byte, data: 0x99 };
    let mut run = exit_with(&mut env, write);
    run.resume(&mut env, HostReply::Flag(false));
    let out = run.exit.unwrap();
    assert_eq!((out.reason, out.data), (AXKVM_BACKEND_EXIT_MMIO_WRITE, 0x99));
}

#[test]
fn halt_sets_the_timer_and_ends_the_run() {
    let mut env = machine();
    let _ = boot(&mut env);
    let mut run = exit_with(&mut env, VcpuExit::Halt);
    assert_eq!(run.step, RunStep::HaltExpire);
    run.resume(&mut env, HostReply::Done);
    let mut guard = 0;
    while matches!(run.step, RunStep::HaltIrqs(_)) {
        let before = run.step;
        run.resume(&mut env, HostReply::Nanos(1));
        if run.step == before {
            run.resume(&mut env, HostReply::Flag(false));
        }
        guard += 1;
        assert!(guard < 20);
    }
    assert_eq!(run.step, RunStep::HaltDeadline);
    run.resume(&mut env, HostReply::Maybe(Some(1000)));
    assert_eq!(run.step, RunStep::HaltProgram { deadline_ns: 1000 });
    run.resume(&mut env, HostReply::Done);
    assert_eq!(run.step, RunStep::Leave { ret: 0 });
    assert_eq!(run.exit.unwrap().reason, AXKVM_BACKEND_EXIT_HLT);
}

#[test]
fn page_fault_is_brought_in_and_the_run_goes_on() {
    let mut env = machine();
    let _ = boot(&mut env);
    let flags = MappingFlags { read: true, write: true, execute: false, user: false, device: false, uncached: false };
    let fault = VcpuExit::NestedPageFault { addr: GuestPhysAddr(0x5000), access_flags: flags };
    let mut run = exit_with(&mut env, fault);
    assert_eq!(run.step, RunStep::FaultIn { vm_handle: 1, gpa: 0x5000, write: true });
    run.resume(&mut env, HostReply::Code(0));
    assert_eq!(run.step, RunStep::FpuBegin);
    let mut bad = exit_with(&mut env, fault);
    bad.resume(&mut env, HostReply::Code(-14));
    assert_eq!(bad.exit.unwrap().reason, AXKVM_BACKEND_EXIT_INTERNAL_ERROR);
}

#[test]
fn failed_guest_mode_leaves_unpinned() {
    let mut env = machine();
    let _ = boot(&mut env);
    let mut run = run_to_raw(&mut env);
    run.resume(&mut env, HostReply::Exit(Err(-5)));
    run.resume(&mut env, HostReply::Done);
    assert_eq!(run.step, RunStep::LogExit { result: Err(-5) });
    run.resume(&mut env, HostReply::Done);
    assert_eq!(run.step, RunStep::Leave { ret: -5 });
    run.resume(&mut env, HostReply::Done);
    assert_eq!(run.step, RunStep::Done(-5));
}

#[test]
fn wrong_replies_leave_a_run_where_it_is() {
    let mut env = machine();
    let _ = boot(&mut env);
    let mut run = axvisor_kvm_rs_run_vcpu(&env.bridge, 1, true);
    run.resume(&mut env, HostReply::Done);
    assert_eq!(run.step, RunStep::CurrentTask);
}

fn housekeeping(retry: &mut usize) -> Vec<usize> {
    let mut env = machine();
    let _ = boot(&mut env);
    let mut logged = vec![];
    let mut step = make_internal_run_progress(&mut env, 0, false);
    let mut guard = 0;
    while !matches!(step, ProgressStep::Done(_)) {
        assert!(!matches!(step, ProgressStep::Unpin { .. } | ProgressStep::ScheduleNow));
        let reply = match step {
            ProgressStep::OnlineCpus { .. } => HostReply::Online(8),
            ProgressStep::ExpireTimers { all, .. } => {
                assert!(!all);
                HostReply::Done
            }
            ProgressStep::VirtualIrqs { .. } => {
                if guard % 2 == 0 {
                    HostReply::Nanos(1)
                } else {
                    HostReply::Flag(false)
                }
            }
            ProgressStep::Log { count, .. } => {
                logged.push(count);
                HostReply::Done
            }
            ProgressStep::CondResched => HostReply::Code(0),
            _ => HostReply::Done,
        };
        step = progress_resume(step, &mut env, retry, reply);
        guard += 1;
        assert!(guard < 40);
    }
    assert_eq!(step, ProgressStep::Done(0));
    logged
}

#[test]
fn housekeeping_without_scarcity_keeps_its_cpu() {
    let mut retry = 0;
    assert!(housekeeping(&mut retry).is_empty());
    assert_eq!(retry, 1);
}

#[test]
fn internal_exits_are_logged_at_checkpoints() {
    for (before, logged) in [(4094, vec![]), (4095, vec![4096]), (4096, vec![]), (8191, vec![8192])] {
        let mut retry = before;
        assert_eq!(housekeeping(&mut retry), logged);
        assert_eq!(retry, before + 1);
    }
}

#[test]
fn benign_exit_is_not_logged_at_first() {
    let mut env = machine();
    let _ = boot(&mut env);
    let mut run = run_to_raw(&mut env);
    run.resume(&mut env, HostReply::Exit(Ok(VcpuExit::Nothing)));
    run.resume(&mut env, HostReply::Done);
    assert_eq!(run.step, RunStep::SpinOnline);
    let mut later = run_to_raw(&mut env);
    later.retry = 4096;
    later.resume(&mut env, HostReply::Exit(Ok(VcpuExit::Nothing)));
    later.resume(&mut env, HostReply::Done);
    assert_eq!(later.step, RunStep::LogExit { result: Ok(VcpuExit::Nothing) });
    later.resume(&mut env, HostReply::Done);
    assert_eq!(later.step, RunStep::SpinOnline);
}

#[test]
fn boot_controller_run_is_never_handed_off() {
    for target in [0, 1] {
        let mut env = machine();
        for id in 1..4 {
            let mut v = Some(0);
            assert_eq!(axvisor_kvm_rs_create_vcpu(&mut env.bridge, 1, id, &mut v), 0);
            env.bridge.vcpus[id as usize].sipi_started = true;
        }
        let _ = boot(&mut env);
        let mut run = run_to_raw(&mut env);
        run.slot = target;
        let mut hand_offs = 0;
        for _ in 0..6 {
            run.step = RunStep::SpinOnline;
            run.resume(&mut env, HostReply::Online(2));
            assert_eq!(run.step, RunStep::SpinRip { online: 2 });
            run.resume(&mut env, HostReply::Maybe(Some(0x4000)));
            if matches!(run.step, RunStep::SpinYield { .. }) {
                hand_offs += 1;
                run.resume(&mut env, HostReply::Flag(false));
                assert!(matches!(run.step, RunStep::SpinDemote { .. }));
                run.resume(&mut env, HostReply::Done);
            }
            assert!(matches!(run.step, RunStep::Progress { .. }));
        }
        assert_eq!(hand_offs, if target == 0 { 0 } else { 2 });
    }
}

#[test]
fn exits_are_logged_at_checkpoints() {
    assert!(!should_log_raw_exit(&Ok(VcpuExit::Nothing), 0));
    assert!(should_log_raw_exit(&Ok(VcpuExit::Nothing), 4096));
    assert!(should_log_raw_exit(&Ok(VcpuExit::SystemDown), 0));
    assert!(!should_log_raw_exit(&Err(-5), 1));
    let mut n = 4095;
    assert!(note_internal_run_progress(&mut n));
    assert_eq!(n, 4096);
    assert!(!note_internal_run_progress(&mut n));
    assert_eq!(n, 4097);
}

#[test]
fn delivered_interrupt_wakes_its_target() {
    let mut env = machine();
    env.contexts.set_current_vcpu_context(7, 1, 0);
    let mut step = inject_x86_ioapic_irq(2, 0x31, true);
    assert_eq!(step, DeliverStep::FindVcpu { vcpu_id: 2, vector: 0x31, trigger: InterruptTriggerMode::LevelTriggered });
    step = deliver_resume(step, &env.contexts, HostReply::Flag(true));
    assert!(matches!(step, DeliverStep::Inject { .. }));
    step = deliver_resume(step, &env.contexts, HostReply::Outcome(Ok(())));
    assert_eq!(step, DeliverStep::CurrentTask { vcpu_id: 2 });
    step = deliver_resume(step, &env.contexts, HostReply::TaskId(7));
    assert_eq!(step, DeliverStep::Wake { vm_id: 1, vcpu_id: 2 });
    step = deliver_resume(step, &env.contexts, HostReply::Done);
    assert!(matches!(step, DeliverStep::Done(_)));
}

#[test]
fn missing_target_gets_no_interrupt() {
    let env = machine();
    let step = inject_x86_ioapic_irq(2, 0x31, false);
    let step = deliver_resume(step, &env.contexts, HostReply::Flag(false));
    assert!(matches!(step, DeliverStep::Done(_)));
}

#[test]
fn interval_timer_line_is_polled() {
    let env = machine();
    let mut step = inject_due_x86_pit_irq0(0);
    assert!(matches!(step, LineStep::CurrentTime { .. }));
    step = line_resume(step, &env.contexts, HostReply::Nanos(50));
    assert_eq!(step, LineStep::ConsumePitIrq { vcpu_id: 0, now_ns: 50 });
    step = line_resume(step, &env.contexts, HostReply::Flag(false));
    assert_eq!(step, LineStep::Done);
}

#[test]
fn end_of_interrupt_without_a_vector_is_nothing() {
    assert_eq!(complete_x86_external_eoi(0, None), EoiStep::Done);
    let env = machine();
    let step = complete_x86_external_eoi(0, Some(0x30));
    assert_eq!(step, EoiStep::EndPic { vcpu_id: 0, vector: 0x30 });
    let step = eoi_resume(step, &env.contexts, HostReply::Done);
    let step = eoi_resume(step, &env.contexts, HostReply::Irq(None));
    assert_eq!(step, EoiStep::Done);
}

#[test]
fn injection_targets_each_vcpu_once() {
    let mut env = machine();
    let mut v = Some(0);
    assert_eq!(axvisor_kvm_rs_create_vcpu(&mut env.bridge, 1, 1, &mut v), 0);
    let _ = boot(&mut env);
    env.contexts.set_current_vcpu_context(7, 1, 0);
    let mut step = inject_interrupt_to_cpus(&env.bridge, 1, 0b11, 0x40);
    let mut targets = vec![];
    let mut guard = 0;
    while !matches!(step, IpiStep::Done) {
        let reply = match step {
            IpiStep::SenderTask { .. } => HostReply::TaskId(7),
            IpiStep::FindVcpu { ipi } => {
                targets.push(ipi.target);
                HostReply::Flag(true)
            }
            IpiStep::Inject { .. } => HostReply::Outcome(Ok(())),
            _ => HostReply::Done,
        };
        step = ipi_resume(step, &env.contexts, reply);
        guard += 1;
        assert!(guard < 40);
    }
    assert_eq!(targets, vec![0, 1]);
}

#[test]
fn single_injection_finds_its_vcpu() {
    let mut env = machine();
    let _ = boot(&mut env);
    let step = inject_interrupt(&env.bridge, 1, 0, 0x40);
    assert_eq!(step, InjectStep::FindVcpu { vm_id: 1, vcpu_id: 0, vector: 0x40 });
    let step = inject_interrupt_resume(step, &env.contexts, HostReply::Flag(true));
    assert_eq!(step, InjectStep::Inject { vm_id: 1, vcpu_id: 0, vector: 0x40 });
    assert_eq!(inject_interrupt(&env.bridge, 9, 0, 0x40), InjectStep::Done);
}

#[test]
fn irq_injection_by_line() {
    let mut env = machine();
    assert_eq!(axvisor_kvm_rs_inject_irq(&env.bridge, 1, 4), InjectIrqStep::Done(-EINVAL));
    let _ = boot(&mut env);
    let step = axvisor_kvm_rs_inject_irq(&env.bridge, 1, 4);
    assert_eq!(step, InjectIrqStep::AssertGsi { gsi: 4 });
    let irq = IoapicIrq { target_vcpu_id: Some(0), vector: 0x34, level_triggered: false };
    let step = inject_irq_resume(step, &env.contexts, HostReply::Irq(Some(irq)));
    assert!(matches!(step, InjectIrqStep::Deliver(_)));
}
