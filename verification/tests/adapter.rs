use axvisor_kvm::arch::riscv64::RiscvArch;
use axvisor_kvm::arch::timer_base::{relative_nanos, BridgeCall, OneshotAction, NO_DEADLINE_NANOS};
use axvisor_kvm::arch::x86_64::X86Arch;
use axvisor_kvm::arch::{
    dispatch_external_irq, host_fdt_size, host_fdt_vaddr, host_tsc_frequency_mhz, init_backend, init_percpu,
    is_supervisor_external_vector, last_percpu_cpu_id, percpu_ready, register_irq_vector, register_timer_bridge,
    riscv_supervisor_external_vector, set_oneshot_timer, timer_expired, timer_fire_count, Arch,
};
use axvisor_kvm::console::{
    axvisor_linux_console_enqueue_bytes, axvisor_linux_console_read_bytes, axvisor_linux_console_shell_ready,
    axvisor_linux_guest_console_drain_bytes, axvisor_linux_guest_console_enqueue_bytes, LinuxConsoleAdapter,
    LinuxGuestConsoleAdapter, ReadStep, GUEST_CONSOLE_INPUT_BUFFER_CAPACITY, GUEST_CONSOLE_OUTPUT_BUFFER_CAPACITY,
};
use axvisor_kvm::core_link::{
    axvisor_core_boot_entry, inject_external_interrupt, CoreEntry, ExternalIrqEvent,
};
use axvisor_kvm::emerg::{axvisor_linux_host_emerg_write_bytes, host_emerg_flush_line_bytes, EmergBuffer, EmergLine};
use axvisor_kvm::errno::{EEXIST, EINVAL, ENOMEM};
use axvisor_kvm::host::HostReply;
use axvisor_kvm::host_irq::{axvisor_linux_irq_handle, axvisor_linux_irq_register, IrqStep, LinuxIrqAdapter, BRIDGE_HANDLER};
use axvisor_kvm::module::{module_drop, module_init, AdapterParts, DropStep, InitStep};
use axvisor_kvm::passthrough::{
    axvisor_linux_host_register_passthrough_device, axvisor_linux_passthrough_device_base_hpa,
    axvisor_linux_passthrough_device_count, axvisor_linux_passthrough_device_irq_id,
    axvisor_linux_passthrough_device_length, axvisor_linux_passthrough_device_vm_id,
    axvisor_linux_passthrough_irq_inject, axvisor_linux_passthrough_irq_mark_pending,
    axvisor_linux_passthrough_irq_registered, axvisor_linux_passthrough_irq_vm_id, HostKind, LinuxPassthroughRegistry,
    PassthroughAction,
};
use axvisor_kvm::percpu_area::{align_up, percpu_backing, PercpuArea};
use axvisor_kvm::runtime::{AxvisorRuntimeHooks, LinuxRuntimeAdapter, RunRuntimeStep, TimerBridgeStep};
use axvisor_kvm::tasks::{
    axvisor_kthread_main, axvisor_linux_task_current, axvisor_linux_task_join, axvisor_linux_task_spawn_raw,
    cpuset_to_cpumask, current_task, full_cpu_mask, lookup_task_record_by_raw, single_cpu_from_cpuset, spawn_task,
    spawned_raw, CurrentTask, SpawnStep, TaskRegistry, TaskRegistryEntry, TaskState, ThreadStep, ECANCELED,
};
use axvisor_kvm::wait_queue::{
    axvisor_linux_sync_create_wait_queue, axvisor_linux_sync_destroy_wait_queue, axvisor_linux_sync_wait_queue_wait,
    axvisor_linux_sync_wait_queue_wait_until, axvisor_linux_sync_wait_queue_wake_all,
    axvisor_linux_sync_wait_queue_wake_one, LinuxSyncAdapter, UntilStep, WaitStep,
};

#[test]
fn console_input_is_read_in_order() {
    let mut c = LinuxConsoleAdapter::new();
    let mut buf = [0u8; 4];
    assert_eq!(axvisor_linux_console_read_bytes(&mut c, true, &mut buf), ReadStep::Read(0));
    assert!(axvisor_linux_console_shell_ready(&c));
    c.install_input_state();
    assert_eq!(axvisor_linux_console_read_bytes(&mut c, true, &mut buf), ReadStep::WaitPending);
    assert_eq!(axvisor_linux_console_enqueue_bytes(&mut c, Some(b"hello!"), Some(100)), (6, true));
    assert!(c.input_pending());
    assert_eq!(axvisor_linux_console_read_bytes(&mut c, true, &mut buf), ReadStep::Read(4));
    assert_eq!(&buf, b"hell");
    assert!(c.input_pending());
    assert_eq!(axvisor_linux_console_read_bytes(&mut c, true, &mut buf), ReadStep::Read(2));
    assert_eq!(&buf[..2], b"o!");
    assert!(!c.input_pending());
}

#[test]
fn console_input_stops_where_memory_does() {
    let mut c = LinuxConsoleAdapter::new();
    assert_eq!(axvisor_linux_console_enqueue_bytes(&mut c, Some(b"abc"), Some(2)), (2, false));
    assert_eq!(axvisor_linux_console_enqueue_bytes(&mut c, Some(b"abc"), None), (0, false));
    assert_eq!(axvisor_linux_console_enqueue_bytes(&mut c, None, Some(9)), (0, false));
    assert!(!axvisor_linux_console_shell_ready(&c));
    let mut buf = [0u8; 4];
    assert_eq!(axvisor_linux_console_read_bytes(&mut c, false, &mut buf), ReadStep::Read(0));
    assert!(!axvisor_linux_console_shell_ready(&c));
}

#[test]
fn guest_input_is_bounded() {
    let mut g = LinuxGuestConsoleAdapter::new();
    let many = vec![7u8; GUEST_CONSOLE_INPUT_BUFFER_CAPACITY + 10];
    assert_eq!(
        axvisor_linux_guest_console_enqueue_bytes(&mut g, Some(&many), Some(usize::MAX)),
        GUEST_CONSOLE_INPUT_BUFFER_CAPACITY
    );
    let mut buf = [0u8; 3];
    assert_eq!(g.read_input_bytes_from_rust_buffer(&mut buf), 3);
    assert_eq!(buf, [7, 7, 7]);
    assert_eq!(axvisor_linux_guest_console_enqueue_bytes(&mut g, None, Some(1)), 0);
}

#[test]
fn guest_output_keeps_the_newest_bytes() {
    let mut g = LinuxGuestConsoleAdapter::new();
    g.write_bytes_to_rust_buffer(&vec![1u8; GUEST_CONSOLE_OUTPUT_BUFFER_CAPACITY - 1], true, usize::MAX);
    g.write_bytes_to_rust_buffer(&[2, 3, 4], true, usize::MAX);
    let mut buf = vec![0u8; GUEST_CONSOLE_OUTPUT_BUFFER_CAPACITY];
    assert_eq!(axvisor_linux_guest_console_drain_bytes(&mut g, false, &mut buf), 0);
    assert_eq!(axvisor_linux_guest_console_drain_bytes(&mut g, true, &mut buf), GUEST_CONSOLE_OUTPUT_BUFFER_CAPACITY);
    assert_eq!(buf[buf.len() - 3..], [2, 3, 4]);
    assert_eq!(buf[0], 1);
    g.write_bytes_to_rust_buffer(&[1, 2], true, usize::MAX);
    g.write_bytes_to_rust_buffer(&[9], false, usize::MAX);
    assert_eq!(g.drain_output_bytes(&mut buf), 1);
    assert_eq!(buf[0], 9);
}

#[test]
fn emergency_lines_are_cut() {
    let mut b = EmergBuffer::new();
    let lines = axvisor_linux_host_emerg_write_bytes(&mut b, Some(b"one\ntwo"), 100);
    assert_eq!(lines, vec![b"one".to_vec(), b"two".to_vec()]);
    let long = vec![b'x'; 1000];
    let lines = b.host_emerg_write_buffered(&long, 5000);
    assert_eq!((lines[0].len(), lines[1].len()), (512, 488));
    assert_eq!(b.adapter_emerg("hi", 10), vec![b"hi".to_vec(), vec![]]);
    assert!(axvisor_linux_host_emerg_write_bytes(&mut b, None, 100).is_empty());
    assert_eq!(b.host_emerg_write_buffered(b"abcd", 2), vec![b"ab".to_vec()]);
}

#[test]
fn noisy_emergency_lines_are_dropped() {
    assert_eq!(host_emerg_flush_line_bytes(b"boot ok"), EmergLine::Show);
    assert_eq!(host_emerg_flush_line_bytes(b"shell::read byte 13"), EmergLine::Drop);
    assert_eq!(host_emerg_flush_line_bytes(b"vcpus::exit_reason nothing count=4"), EmergLine::Drop);
    assert_eq!(host_emerg_flush_line_bytes(b"riscv_vcpu::nothing count=4"), EmergLine::Drop);
    assert_eq!(host_emerg_flush_line_bytes(b"dbcn_write[3]: zzz"), EmergLine::Drop);
    assert_eq!(host_emerg_flush_line_bytes(b"dbcn_write_raw[3]: zzz"), EmergLine::Show);
    assert_eq!(host_emerg_flush_line_bytes(b"dbcn_write[3]: Hello, world!"), EmergLine::Show);
    assert_eq!(host_emerg_flush_line_bytes(b"dbcn_write[3] preview=\"arch = riscv\""), EmergLine::Show);
    assert_eq!(host_emerg_flush_line_bytes(b"dbcn_write[3] preview=\"\\n       d8888"), EmergLine::Show);
    assert_eq!(host_emerg_flush_line_bytes(b"dbcn_write[3] preview=\"8P\\\"   d88P\\\""), EmergLine::Show);
    assert_eq!(host_emerg_flush_line_bytes(&[0xff, 0xfe]), EmergLine::NotText);
}

#[test]
fn one_wake_releases_the_longest_waiter() {
    let mut s = LinuxSyncAdapter::new();
    let q = axvisor_linux_sync_create_wait_queue(&mut s, true);
    assert_eq!(q, 1);
    assert_eq!(axvisor_linux_sync_create_wait_queue(&mut s, false), 0);
    assert_eq!(axvisor_linux_sync_create_wait_queue(&mut s, true), 3);
    assert_eq!(axvisor_linux_sync_wait_queue_wait(&mut s, q), WaitStep::Sleep { ticket: 0 });
    assert_eq!(axvisor_linux_sync_wait_queue_wait(&mut s, q), WaitStep::Sleep { ticket: 1 });
    assert!(axvisor_linux_sync_wait_queue_wake_one(&mut s, q));
    assert!(s.wait_over(q, 0) && !s.wait_over(q, 1));
    assert!(axvisor_linux_sync_wait_queue_wake_all(&mut s, q));
    assert!(s.wait_over(q, 1));
    assert!(!axvisor_linux_sync_wait_queue_wake_one(&mut s, q));
    assert_eq!(s.lookup_wait_queue(q).unwrap().next_ticket, 2);
}

#[test]
fn destroyed_queue_releases_its_waiters() {
    let mut s = LinuxSyncAdapter::new();
    let q = s.create_wait_queue(true).unwrap();
    assert_eq!(s.create_wait_queue(false), Err(-ENOMEM));
    assert_eq!(s.wait_queue_wait(q), WaitStep::Sleep { ticket: 0 });
    assert!(axvisor_linux_sync_destroy_wait_queue(&mut s, q));
    assert!(s.wait_over(q, 0));
    assert!(!axvisor_linux_sync_destroy_wait_queue(&mut s, q));
    assert_eq!(s.wait_queue_wait(q), WaitStep::Return);
    assert!(!s.wait_queue_wake_all(q));
}

#[test]
fn conditional_wait_ends_on_its_condition() {
    let mut s = LinuxSyncAdapter::new();
    let q = s.create_wait_queue(true).unwrap();
    let mut step = axvisor_linux_sync_wait_queue_wait_until(&s, q);
    assert_eq!(step, UntilStep::CheckOuter);
    step = s.wait_until_resume(q, step, false);
    assert_eq!(step, UntilStep::CheckLocked);
    step = s.wait_until_resume(q, step, false);
    assert_eq!(step, UntilStep::CheckAsleep { ticket: 0 });
    step = s.wait_until_resume(q, step, false);
    assert_eq!(step, UntilStep::Sleep { ticket: 0 });
    assert!(s.wait_queue_wake_one(q));
    step = s.wait_until_resume(q, step, false);
    step = s.wait_until_resume(q, step, false);
    assert_eq!(step, UntilStep::CheckAfter);
    step = s.wait_until_resume(q, step, true);
    assert_eq!(step, UntilStep::CheckOuter);
    assert_eq!(s.wait_until_resume(q, step, true), UntilStep::Done);
    assert_eq!(axvisor_linux_sync_wait_queue_wait_until(&s, 99), UntilStep::Done);
}

#[test]
fn cpu_masks() {
    assert_eq!(full_cpu_mask(0), 0);
    assert_eq!(full_cpu_mask(4), 0xf);
    assert_eq!(full_cpu_mask(64), u64::MAX);
    assert_eq!(cpuset_to_cpumask(0b1010, 4), Ok(vec![1, 3]));
    assert_eq!(cpuset_to_cpumask(0, 4), Err(-EINVAL));
    assert_eq!(cpuset_to_cpumask(0b1_0000, 4), Err(-EINVAL));
    assert_eq!(cpuset_to_cpumask(full_cpu_mask(3), 3), Ok(vec![0, 1, 2]));
    assert_eq!(single_cpu_from_cpuset(0b100), Some(2));
    assert_eq!(single_cpu_from_cpuset(0b110), None);
    assert_eq!(single_cpu_from_cpuset(0), None);
}

#[test]
fn spawned_task_is_registered_and_joined() {
    let mut registry = TaskRegistry::new();
    let (task, mut step) = axvisor_linux_task_spawn_raw(true, 0b10, 4, 77);
    let mut bound = None;
    loop {
        let reply = match step {
            SpawnStep::Allocate | SpawnStep::AllocateMask => HostReply::Flag(true),
            SpawnStep::AllocateHandle { .. } | SpawnStep::AllocateEntry { .. } => HostReply::Flag(true),
            SpawnStep::CreateThread => HostReply::Outcome(Ok(())),
            SpawnStep::BindCpu { cpu } => {
                bound = Some(cpu);
                HostReply::Done
            }
            SpawnStep::ReadPid => HostReply::Code(123),
            SpawnStep::Done(_) => break,
            _ => HostReply::Done,
        };
        step = task.resume(&mut registry, step, reply);
    }
    assert_eq!(step, SpawnStep::Done(Ok(123)));
    assert_eq!(bound, Some(1));
    assert_eq!(spawned_raw(&Ok(123)), 123);
    assert_eq!(spawned_raw(&Err(-5)), 0);
    assert_eq!(lookup_task_record_by_raw(&registry, 123), Some(TaskRegistryEntry { pid: 123, task: 77 }));
    assert_eq!(axvisor_linux_task_current(&registry, 123, false), 123);
    assert_eq!(axvisor_linux_task_join(&mut registry, 123), Some(77));
    assert_eq!(axvisor_linux_task_join(&mut registry, 123), None);
    assert_eq!(axvisor_linux_task_current(&registry, 123, false), 0);
    assert_eq!(current_task(&registry, 5, true), Ok(CurrentTask::Foreign { pid: 5 }));
    assert_eq!(current_task(&registry, 5, false), Err(-ENOMEM));
}

#[test]
fn failed_spawn_stops_its_thread() {
    let mut registry = TaskRegistry::new();
    let (task, step) = spawn_task(0, 4, 1);
    assert_eq!(step, SpawnStep::Allocate);
    assert_eq!(task.resume(&mut registry, step, HostReply::Flag(false)), SpawnStep::Done(Err(-ENOMEM)));
    let stop = task.resume(&mut registry, SpawnStep::AllocateMask, HostReply::Flag(true));
    assert_eq!(stop, SpawnStep::StopThread { error: -EINVAL });
    assert_eq!(task.resume(&mut registry, stop, HostReply::Done), SpawnStep::Done(Err(-EINVAL)));
    let (wide, _) = spawn_task(0b11, 4, 1);
    let set = wide.resume(&mut registry, SpawnStep::AllocateMask, HostReply::Flag(true));
    assert_eq!(set, SpawnStep::SetCpusAllowed { mask: 0b11 });
    assert_eq!(wide.resume(&mut registry, set, HostReply::Code(-13)), SpawnStep::StopThread { error: -13 });
    assert_eq!(wide.resume(&mut registry, set, HostReply::Code(-9999)), SpawnStep::StopThread { error: -EINVAL });
    assert_eq!(
        wide.resume(&mut registry, SpawnStep::CreateThread, HostReply::Outcome(Err(-11))),
        SpawnStep::Done(Err(-11))
    );
}

#[test]
fn duplicate_pid_cancels_the_thread() {
    let mut registry = TaskRegistry::new();
    assert_eq!(registry.register_task_handle(TaskRegistryEntry { pid: 9, task: 1 }, true), Ok(()));
    assert_eq!(registry.register_task_handle(TaskRegistryEntry { pid: 9, task: 2 }, true), Err(-EEXIST));
    assert_eq!(registry.register_task_handle(TaskRegistryEntry { pid: 8, task: 2 }, false), Err(-ENOMEM));
    let (task, _) = spawn_task(1, 4, 3);
    let step = task.resume(&mut registry, SpawnStep::AllocateHandle { pid: 9 }, HostReply::Flag(true));
    assert_eq!(step, SpawnStep::Cancel { error: -EEXIST });
    assert_eq!(task.resume(&mut registry, step, HostReply::Done), SpawnStep::Done(Err(-EEXIST)));
    registry.unregister_task_handle(9);
    assert_eq!(registry.lookup(9), None);
}

#[test]
fn thread_runs_its_entry_once_registered() {
    let mut step = axvisor_kthread_main(ThreadStep::Poll, false, false);
    assert_eq!(step, ThreadStep::Yield);
    step = axvisor_kthread_main(step, true, false);
    step = axvisor_kthread_main(step, true, false);
    assert_eq!(step, ThreadStep::RunEntry);
    step = axvisor_kthread_main(step, true, false);
    assert_eq!(step, ThreadStep::Finish { exit_code: 0 });
    assert_eq!(axvisor_kthread_main(step, true, false), ThreadStep::Exit);
    assert_eq!(axvisor_kthread_main(ThreadStep::Poll, true, true), ThreadStep::Finish { exit_code: -ECANCELED });
    let mut state = TaskState::new();
    assert_eq!(state.wait(), None);
    state.finish(3);
    assert_eq!(state.wait(), Some(3));
    assert_eq!(TaskState::new_finished(0).wait(), Some(0));
}

fn event(vector: usize, irq_id: usize, vm_id: usize) -> ExternalIrqEvent {
    ExternalIrqEvent { vector, irq_id, vm_id, cpu_id: 2, call_index: 5 }
}

#[test]
fn events_without_target_are_not_injected() {
    assert_eq!(axvisor_core_boot_entry(), CoreEntry::BootRun);
    assert_eq!(inject_external_interrupt(event(1, 0, 1)), None);
    assert_eq!(inject_external_interrupt(event(1, 4, usize::MAX)), None);
    assert_eq!(
        inject_external_interrupt(event(1, 4, 2)),
        Some(CoreEntry::InjectInterrupt { vm_id: 2, irq_id: 4 })
    );
}

#[test]
fn pending_events_are_injected_in_order() {
    let mut irqs = LinuxIrqAdapter::new();
    let arch = Arch::X86_64(X86Arch::new());
    for e in [event(7, 0, 1), event(7, 4, 2), event(7, 5, 3)] {
        assert_eq!(irqs.push_external_pending(e, true), Ok(()));
    }
    assert_eq!(irqs.push_external_pending(event(7, 6, 1), false), Err(-ENOMEM));
    let mut h = axvisor_linux_irq_handle(&mut irqs, &arch, 7, true, 100);
    assert!(irqs.pending.is_empty());
    assert_eq!(h.step, IrqStep::Inject { vm_id: 2, irq_id: 4 });
    irqs.handle_irq_resume(&mut h, HostReply::Flag(false));
    assert_eq!(h.step, IrqStep::Inject { vm_id: 3, irq_id: 5 });
    irqs.handle_irq_resume(&mut h, HostReply::Flag(true));
    assert_eq!(h.step, IrqStep::Done(true));
    assert!(irqs.stats.last_final_result && irqs.stats.glue_consumed);
    let drained = irqs.drain_external_pending(9);
    assert!(drained.is_empty());
}

#[test]
fn registered_handler_is_called_and_kept() {
    let mut irqs = LinuxIrqAdapter::new();
    let mut arch = Arch::X86_64(X86Arch::new());
    assert!(!axvisor_linux_irq_register(&mut irqs, &mut arch, 300, 1, 2));
    assert!(axvisor_linux_irq_register(&mut irqs, &mut arch, 20, 11, 22));
    assert!(!axvisor_linux_irq_register(&mut irqs, &mut arch, 20, 33, 44));
    assert_eq!(irqs.bridge_handler_dispatch(&arch, 20), Some((44, 33)));
    assert_eq!(irqs.bridge_handler_dispatch(&arch, 21), None);
    let mut h = axvisor_linux_irq_handle(&mut irqs, &arch, 20, true, 0);
    assert_eq!(h.step, IrqStep::CallLocal { handler: BRIDGE_HANDLER });
    irqs.handle_irq_resume(&mut h, HostReply::Done);
    assert_eq!(h.step, IrqStep::Done(true));
    let unhandled = axvisor_linux_irq_handle(&mut irqs, &arch, 21, false, 0);
    assert_eq!(unhandled.step, IrqStep::Done(false));
    assert_eq!(axvisor_linux_irq_handle(&mut irqs, &arch, 9999, false, 0).step, IrqStep::Done(false));
}

#[test]
fn supervisor_external_vectors_are_latched() {
    let mut irqs = LinuxIrqAdapter::new();
    let mut arch = Arch::Riscv64(RiscvArch::new());
    let vector = riscv_supervisor_external_vector(&arch);
    assert_eq!(vector, (1usize << (usize::BITS - 1)) + 9);
    assert!(is_supervisor_external_vector(&arch, 9));
    assert!(axvisor_linux_irq_register(&mut irqs, &mut arch, vector, 1, 2));
    assert!(!axvisor_linux_irq_register(&mut irqs, &mut arch, 9, 1, 2));
    assert!(irqs.stats.external_slot_claimed);
    assert_eq!(irqs.push_external_pending(event(vector, 4, 1), true), Ok(()));
    assert_eq!(irqs.registration.unwrap().pending_pushes, 1);
    let h = axvisor_linux_irq_handle(&mut irqs, &arch, vector, true, 10);
    assert_eq!(h.step, IrqStep::Done(true));
    assert_eq!(irqs.pending.len(), 1);
}

#[test]
fn riscv_vectors_are_registered_once() {
    let mut arch = Arch::Riscv64(RiscvArch::new());
    assert!(!dispatch_external_irq(&arch, 30));
    assert!(register_irq_vector(&mut arch, 30));
    assert!(!register_irq_vector(&mut arch, 30));
    assert!(dispatch_external_irq(&arch, 30));
    assert!(!register_irq_vector(&mut arch, 256));
    let mut other = Arch::Other;
    assert!(register_irq_vector(&mut other, 9999));
    assert!(!dispatch_external_irq(&other, 9));
}

#[test]
fn x86_timers_belong_to_their_cpu() {
    let mut arch = Arch::X86_64(X86Arch::new());
    register_timer_bridge(&mut arch, 55);
    assert!(init_percpu(&mut arch, 3));
    assert!(percpu_ready(&arch));
    assert_eq!(last_percpu_cpu_id(&arch), 3);
    let a = set_oneshot_timer(&mut arch, 0, 1000, 400, true, true);
    assert_eq!(a, OneshotAction { cancel: false, start: Some(600) });
    let b = set_oneshot_timer(&mut arch, 1, 100, 400, true, true);
    assert_eq!(b, OneshotAction { cancel: false, start: Some(0) });
    let c = set_oneshot_timer(&mut arch, 0, NO_DEADLINE_NANOS, 500, true, true);
    assert_eq!(c, OneshotAction { cancel: true, start: None });
    assert_eq!(timer_expired(&mut arch, 1), Some(BridgeCall { handler: 55, cpu_id: 1, deadline_nanos: 100 }));
    assert_eq!(timer_fire_count(&arch), 1);
    match &arch {
        Arch::X86_64(x) => {
            assert!(x.base.events.is_empty());
            assert_eq!(x.slots.len(), 2);
            assert_eq!(x.base.cancel_count, 1);
        }
        _ => panic!(),
    }
    let none = set_oneshot_timer(&mut arch, 9, 100, 0, false, false);
    assert_eq!(none, OneshotAction { cancel: false, start: None });
}

#[test]
fn riscv_timer_is_shared() {
    let mut arch = Arch::Riscv64(RiscvArch::new());
    assert_eq!(set_oneshot_timer(&mut arch, 0, 100, 0, true, true), OneshotAction { cancel: false, start: None });
    init_backend(&mut arch, 0, true);
    assert_eq!(set_oneshot_timer(&mut arch, 0, 100, 0, true, true), OneshotAction { cancel: false, start: Some(100) });
    assert_eq!(set_oneshot_timer(&mut arch, 1, 150, 0, true, true), OneshotAction { cancel: true, start: Some(150) });
    assert_eq!(timer_expired(&mut arch, 1), None);
    match &arch {
        Arch::Riscv64(r) => {
            assert_eq!(r.timer_program_count(), 3);
            assert_eq!(r.timer_cancel_count(), 1);
            assert!(!r.timer_is_armed());
            assert_eq!(r.timer_deadline_nanos(), NO_DEADLINE_NANOS);
            assert_eq!(r.last_timer_callback_cpu_id(), 1);
            assert_eq!(r.last_timer_program_cpu_id(), 1);
            assert_eq!(r.last_timer_cancel_cpu_id(), 1);
            assert!(!r.external_irq_registered());
            assert_eq!(r.base.events.len(), 1);
        }
        _ => panic!(),
    }
}

#[test]
fn host_values_by_architecture() {
    let riscv = Arch::Riscv64(RiscvArch::new());
    let x86 = Arch::X86_64(X86Arch::new());
    assert_eq!((host_fdt_vaddr(&riscv, 8), host_fdt_size(&riscv, 9)), (8, 9));
    assert_eq!((host_fdt_vaddr(&x86, 8), host_fdt_size(&x86, 9)), (0, 0));
    assert_eq!(host_tsc_frequency_mhz(&x86, 2400), 2400);
    assert_eq!(host_tsc_frequency_mhz(&Arch::Other, 2400), 0);
    assert_eq!(relative_nanos(u64::MAX, 7), i64::MAX - 7);
    assert_eq!(relative_nanos(5, 7), 0);
    assert_eq!(riscv_supervisor_external_vector(&x86), usize::MAX);
}

#[test]
fn passthrough_devices_are_updated_in_place() {
    let mut r = LinuxPassthroughRegistry::new();
    assert!(!axvisor_linux_host_register_passthrough_device(&mut r, 1, 0, 8, 4));
    assert!(!axvisor_linux_host_register_passthrough_device(&mut r, 1, 0x1000, 0, 4));
    assert!(axvisor_linux_host_register_passthrough_device(&mut r, 1, 0x1000, 8, 4));
    assert!(axvisor_linux_host_register_passthrough_device(&mut r, 2, 0x1000, 16, 5));
    assert_eq!(axvisor_linux_passthrough_device_count(&r), 1);
    assert_eq!(axvisor_linux_passthrough_device_base_hpa(&r, 0), 0x1000);
    assert_eq!(axvisor_linux_passthrough_device_length(&r, 0), 16);
    assert_eq!(axvisor_linux_passthrough_device_irq_id(&r, 0), 5);
    assert_eq!(axvisor_linux_passthrough_device_vm_id(&r, 0), 2);
    assert_eq!(axvisor_linux_passthrough_device_vm_id(&r, 1), usize::MAX);
    assert_eq!(axvisor_linux_passthrough_irq_vm_id(&r, 5), 2);
    assert_eq!(axvisor_linux_passthrough_irq_vm_id(&r, 4), usize::MAX);
    assert!(axvisor_linux_passthrough_irq_registered(&r, 5));
    assert!(!axvisor_linux_passthrough_irq_registered(&r, 0));
    for i in 2..17u64 {
        assert!(axvisor_linux_host_register_passthrough_device(&mut r, 1, i << 12, 8, 40));
    }
    assert!(!axvisor_linux_host_register_passthrough_device(&mut r, 1, 99 << 12, 8, 4));
    assert!(axvisor_linux_host_register_passthrough_device(&mut r, 1, 3 << 12, 9, 4));
}

#[test]
fn passthrough_interrupts_go_to_their_vm() {
    let mut r = LinuxPassthroughRegistry::new();
    assert!(r.register_device(3, 0x1000, 8, 19));
    assert_eq!(
        axvisor_linux_passthrough_irq_mark_pending(&r, HostKind::X86_64, 19),
        PassthroughAction::MarkGsiPending { vm_id: 3, irq_id: 19 }
    );
    assert_eq!(axvisor_linux_passthrough_irq_mark_pending(&r, HostKind::Riscv64, 19), PassthroughAction::Skip);
    assert_eq!(
        axvisor_linux_passthrough_irq_inject(&r, HostKind::X86_64, 19),
        PassthroughAction::InjectGsi { vm_id: 3, irq_id: 19 }
    );
    assert_eq!(
        axvisor_linux_passthrough_irq_inject(&r, HostKind::Riscv64, 19),
        PassthroughAction::InjectInterrupt { vm_id: 3, irq_id: 19 }
    );
    assert_eq!(axvisor_linux_passthrough_irq_inject(&r, HostKind::Other, 19), PassthroughAction::Skip);
    assert_eq!(axvisor_linux_passthrough_irq_inject(&r, HostKind::X86_64, 20), PassthroughAction::Skip);
}

#[test]
fn percpu_slots_hold_the_template() {
    assert_eq!(align_up(65, 64), 128);
    assert_eq!(align_up(64, 64), 64);
    let mut area = PercpuArea::new();
    assert_eq!(area.init_axvisor_percpu_backing(10, 5, 2), Err(-EINVAL));
    assert_eq!(area.init_axvisor_percpu_backing(0, 64, usize::MAX), Err(-ENOMEM));
    let plan = area.init_axvisor_percpu_backing(100, 103, 2).unwrap().unwrap();
    assert_eq!((plan.slot_size, plan.total_size), (64, 128));
    let bytes = percpu_backing(&[1, 2, 3], plan);
    assert_eq!(bytes.len(), 128);
    assert_eq!(bytes[64..68], [1, 2, 3, 0]);
    assert_eq!(area._percpu_base_ptr(0), 0);
    assert_eq!(area.install(plan, None), Err(-ENOMEM));
    assert_eq!(area.install(plan, Some(0x1000)), Ok(()));
    assert_eq!(area._percpu_base_ptr(1), 0x1040);
    assert_eq!(area._percpu_base_ptr(2), 0);
    assert_eq!(area.init_axvisor_percpu_backing(100, 103, 2), Ok(None));
    let empty = PercpuArea::new().init_axvisor_percpu_backing(7, 7, 0).unwrap().unwrap();
    assert_eq!((empty.slot_size, empty.cpu_count), (64, 1));
}

#[test]
fn hooks_are_installed_once() {
    let mut r = LinuxRuntimeAdapter::new();
    assert_eq!(r.run(4, 1), RunRuntimeStep::Done);
    assert!(r.start.fallback_used && r.start.returned);
    assert!(r.install());
    assert!(!r.install());
    let hooks = AxvisorRuntimeHooks { timer_event_processor: 9, irq_event_processor: 9, runtime_start_processor: 9 };
    assert!(!r.install_axvisor_runtime_hooks(hooks));
    assert_eq!(r.timer_processor, Some(1));
    assert!(r.install_kernel_task_runtime());
    assert!(!r.install_kernel_task_runtime());
    let step = r.run(4, 1);
    assert_eq!(step, RunRuntimeStep::Invoke(CoreEntry::BootRun));
    assert!(r.start.processor_invoked && !r.start.returned && r.start.runtime_installed);
    assert_eq!(r.start.run_call_index, 2);
    assert_eq!(r.run_resume(step, HostReply::Done), RunRuntimeStep::Done);
    assert!(r.start.returned);
}

#[test]
fn half_installed_hooks_stop_at_the_first_refusal() {
    let mut r = LinuxRuntimeAdapter::new();
    assert!(r.install_timer_event_processor(7));
    assert!(!r.install());
    assert_eq!(r.timer_processor, Some(7));
    assert_eq!(r.irq_processor, None);
    assert!(r.install_irq_event_processor(8));
    assert!(r.install_runtime_start_processor(9));
    assert!(!r.install_runtime_start_processor(10));
}

#[test]
fn expired_timers_reach_the_monitor() {
    let mut r = LinuxRuntimeAdapter::new();
    assert_eq!(r.linux_timer_bridge(2, 500, 1), TimerBridgeStep::Done);
    assert_eq!((r.timer.bridge_last_cpu, r.timer.hook_calls), (2, 1));
    assert!(r.install());
    let step = r.linux_timer_bridge(3, 600, 2);
    assert_eq!(step, TimerBridgeStep::Invoke(CoreEntry::TimerCheckEvents));
    assert_eq!(r.timer_bridge_resume(step, HostReply::Flag(true)), TimerBridgeStep::Done);
    assert!(r.timer.glue_consumed);
    assert_eq!(r.timer.glue_deadline, 600);
    assert_eq!(r.release_host_filesystems(), 1);
    r.exit(-3);
    assert!(r.exit_requested);
    assert_eq!(r.exit_code, -3);
}

#[test]
fn module_loads_on_x86() {
    let mut parts = AdapterParts::new(Arch::X86_64(X86Arch::new()));
    let mut step = module_init();
    let mut seen = vec![];
    loop {
        seen.push(step);
        let reply = match step {
            InitStep::PrepareFdt | InitStep::RequestIntx => HostReply::Code(0),
            InitStep::TimerCpu | InitStep::CurrentCpu => HostReply::CpuId(2),
            InitStep::InitPercpuBacking | InitStep::SpawnHostTask { .. } => HostReply::Outcome(Ok(())),
            InitStep::Done(_) => break,
            _ => HostReply::Flag(true),
        };
        step = parts.init_resume(step, reply);
    }
    assert_eq!(step, InitStep::Done(Ok(())));
    assert!(seen.contains(&InitStep::SpawnHostTask { mask: 1 }));
    assert!(!seen.contains(&InitStep::TimerCpu));
    assert!(parts.console.waitable);
    assert!(parts.runtime.task_runtime_installed && parts.runtime.hooks_installed);
    assert_eq!(parts.passthrough.vm_id_for_irq(19), Some(1));
    assert_eq!(last_percpu_cpu_id(&parts.arch), 2);
}

#[test]
fn refused_interrupt_undoes_the_set_up() {
    let mut parts = AdapterParts::new(Arch::X86_64(X86Arch::new()));
    let mut step = parts.init_resume(InitStep::RequestIntx, HostReply::Code(-16));
    assert_eq!(step, InitStep::ReleaseFdt { error: -16 });
    step = parts.init_resume(step, HostReply::Done);
    assert_eq!(step, InitStep::ReleaseIrqs { error: -16 });
    step = parts.init_resume(step, HostReply::Done);
    assert_eq!(step, InitStep::RemoveConsoleInput { error: -16 });
    assert_eq!(parts.init_resume(step, HostReply::Done), InitStep::Done(Err(-16)));
}

#[test]
fn loading_fails_without_memory_or_device_tree() {
    let mut parts = AdapterParts::new(Arch::Riscv64(RiscvArch::new()));
    assert_eq!(parts.init_resume(module_init(), HostReply::Flag(false)), InitStep::Done(Err(-ENOMEM)));
    assert_eq!(
        parts.init_resume(InitStep::InstallConsoleInput, HostReply::Flag(false)),
        InitStep::Done(Err(-ENOMEM))
    );
    assert_eq!(
        parts.init_resume(InitStep::PrepareFdt, HostReply::Code(-2)),
        InitStep::RemoveConsoleInput { error: -2 }
    );
    assert_eq!(parts.init_resume(InitStep::PrepareFdt, HostReply::Code(0)), InitStep::TimerCpu);
    assert_eq!(
        parts.init_resume(InitStep::InitPercpuBacking, HostReply::Outcome(Err(-12))),
        InitStep::Done(Err(-12))
    );
}

#[test]
fn module_unloads_in_order() {
    let mut step = DropStep::RemoveConsoleInput;
    let mut seen = vec![];
    while step != DropStep::Done {
        seen.push(step);
        step = module_drop(step, true);
    }
    assert_eq!(
        seen,
        vec![
            DropStep::RemoveConsoleInput,
            DropStep::ReleaseFdt,
            DropStep::ReleaseIrqs,
            DropStep::ReleaseMappings,
            DropStep::JoinHostTask
        ]
    );
    assert_eq!(module_drop(DropStep::ReleaseMappings, false), DropStep::Done);
}
