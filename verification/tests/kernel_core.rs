use atos::exceptions::{
    exception_report,
    classify_sync, handle_exception_el1, handle_irq_exception, handle_sync_exception, svc_esr, was_from_user_el0,
    ExceptionContext, ExceptionOutcome, ExceptionSource, ExceptionType, IrqOutcome, SyncKind, SyncOutcome,
};
use atos::input::{getch, getline, getline_push};
use atos::interrupts::{InterruptRoute, InterruptSource, Interrupts, TimerInterruptSource};
use atos::mutex::Mutex;
use atos::peripherals::Uart;
use atos::processes::{load_process, mycpu, process_stack_top, Cpu, Process, ProcessContext, ProcessState, ProcessTable};
use atos::scheduler::Scheduler;
use atos::spinlock::Spinlock;
use atos::syscalls::{complete_read, exit_code, handle_syscall, sys_read, SyscallOutcome};
use atos::timer::{PhysicalTimer, TimerError, TimerIrqOutcome};
use atos::user::{self, Stdout, SvcCall};

fn ctx(etype: ExceptionType, esource: ExceptionSource, esr: u64) -> ExceptionContext {
    ExceptionContext { etype, esource, _padding: [0; 6], x: [0; 31], elr: 0, spsr: 0, esr, far: 0 }
}

fn two_process_scheduler() -> Scheduler {
    let mut sched = Scheduler::new();
    sched.ptable.add_process_to_ptable(Process::new(1, "a", 0, 0x1000, 0x2000)).unwrap();
    sched.ptable.add_process_to_ptable(Process::new(2, "b", 0, 0x3000, 0x4000)).unwrap();
    sched
}

#[test]
fn process_name_is_cut_and_padded() {
    let p = Process::new(7, "init", 3, 0x10, 0x20);
    assert_eq!(&p.name[..4], b"init");
    assert!(p.name[4..].iter().all(|b| *b == 0));
    assert_eq!(p.parent_pid, 3);
    assert_eq!(p.pctx.elr, 0x10);
    assert_eq!(p.pctx.sp, 0x20);
    assert_eq!(p.chan, 0);
    let long = Process::new(1, "abcdefghijklmnopqrstuvwxyz0123456789", 0, 0, 0);
    assert_eq!(&long.name[..], b"abcdefghijklmnopqrstuvwxyz012345");
}

#[test]
fn process_context_new_and_from_ectx() {
    let pc = ProcessContext::new(0x1234, 0x8000);
    assert_eq!(pc.elr, 0x1234);
    assert_eq!(pc.sp, 0x8000);
    assert_eq!(pc.spsr, 0);
    assert!(pc.x.iter().all(|v| *v == 0));

    let mut e = ctx(ExceptionType::_SYNC, ExceptionSource::_EL064, 0);
    e.x[3] = 33;
    e.elr = 0x4444;
    e.spsr = 0x3c5;
    let saved = ProcessContext::from_ectx(&e, 0x9000);
    assert_eq!(saved.x[3], 33);
    assert_eq!(saved.elr, 0x4444);
    assert_eq!(saved.spsr, 0x3c5);
    assert_eq!(saved.sp, 0x9000);
}

#[test]
fn context_switch_round_trip() {
    let mut pc = ProcessContext::new(0x1000, 0x2000);
    pc.x[0] = 5;
    pc.x[30] = 0xdead;
    pc.spsr = 7;
    let mut e = ctx(ExceptionType::_IRQ, ExceptionSource::_EL064, 0);
    e.x[0] = 99;
    e.esr = 0x55;
    e.update_from_pctx(&pc);
    assert_eq!(e.esr, 0x55);
    let back = ProcessContext::from_ectx(&e, pc.sp);
    assert_eq!(back.x, pc.x);
    assert_eq!(back.elr, pc.elr);
    assert_eq!(back.spsr, pc.spsr);
    assert_eq!(back.sp, pc.sp);
}

#[test]
fn cpu_current_process_bookkeeping() {
    let mut cpu = Cpu::new(0);
    assert_eq!(Cpu::current(), 0);
    assert_eq!(mycpu(), 0);
    cpu.set_current_process(4);
    assert_eq!(cpu.current_pid, Some(4));
    cpu.clear_current_process();
    assert_eq!(cpu.current_pid, None);
}

#[test]
fn table_find_and_get_current() {
    let mut t = ProcessTable::new();
    assert_eq!(t.next_pid(), 1);
    t.add_process_to_ptable(Process::new(5, "x", 0, 0, 0)).unwrap();
    t.add_process_to_ptable(Process::new(9, "y", 0, 0, 0)).unwrap();
    assert_eq!(Process::find_by_id(&t, 9), Some(1));
    assert_eq!(Process::find_by_id(&t, 10), None);
    let mut cpu = Cpu::new(0);
    assert_eq!(Process::get_current(&t, &cpu), None);
    cpu.set_current_process(5);
    assert_eq!(Process::get_current(&t, &cpu), Some(0));
    assert!(!t.is_full());
}

#[test]
fn load_process_assigns_pid_slot_and_stack() {
    let mut t = ProcessTable::new();
    let pid = load_process(&mut t, "init", 0, 0x2e0, 0x200000, 0x2002e0);
    assert_eq!(pid, 1);
    let pid_b = load_process(&mut t, "process b", 0, 0x500, 0x500000, 0x500500);
    assert_eq!(pid_b, 2);
    assert_eq!(t.next_pid(), 3);
    let p = t.get(0).unwrap();
    assert_eq!(p.pctx.sp, 0x2042e0);
    assert_eq!(p.pctx.elr, 0x2002e0);
    assert_eq!(p.state, ProcessState::Ready);
    assert_eq!(process_stack_top(0x500000, 0x501), 0x504500);
    assert_eq!(t.get(1).unwrap().pid, 2);
}

#[test]
fn allocate_pid_counts_up() {
    let mut t = ProcessTable::new();
    assert_eq!(t.allocate_pid(), 1);
    assert_eq!(t.allocate_pid(), 2);
    assert_eq!(t.next_pid(), 3);
}

#[test]
fn scheduler_skips_blocked_and_terminated() {
    let mut sched = Scheduler::new();
    for (i, st) in [ProcessState::Ready, ProcessState::Blocked, ProcessState::Terminated, ProcessState::Ready]
        .iter()
        .enumerate()
    {
        let mut p = Process::new(i as u64 + 1, "p", 0, 0, 0);
        p.set_state(*st);
        sched.ptable.add_process_to_ptable(p).unwrap();
    }
    assert_eq!(sched.choose_next_process(), Some(3));
    assert_eq!(sched.get_current_process_index(), 3);
}

#[test]
fn scheduler_start_index_one_runs_slot_zero_first() {
    let mut sched = Scheduler::with_current_index(1);
    sched.ptable.add_process_to_ptable(Process::new(1, "init", 0, 0x10, 0x20)).unwrap();
    sched.ptable.add_process_to_ptable(Process::new(2, "b", 0, 0x30, 0x40)).unwrap();
    let mut e = ctx(ExceptionType::_SYNC, ExceptionSource::_EL1h, svc_esr(0));
    assert_eq!(sched.schedule_next(&mut e), Some(0));
    assert_eq!(e.elr, 0x10);
}

#[test]
fn load_pctx_returns_stack_pointer() {
    let mut sched = two_process_scheduler();
    let mut e = ctx(ExceptionType::_SYNC, ExceptionSource::_EL1h, 0);
    assert_eq!(sched.load_pctx(1, &mut e), 0x4000);
    assert_eq!(e.elr, 0x3000);
    assert_eq!(sched.ptable.get(1).unwrap().state, ProcessState::Running);
}

#[test]
fn update_last_running_pctx_saves_registers() {
    let mut sched = two_process_scheduler();
    let mut e = ctx(ExceptionType::_SYNC, ExceptionSource::_EL1h, 0);
    sched.schedule_next(&mut e);
    let mut pc = ProcessContext::new(0x7777, 0x8888);
    pc.x[1] = 11;
    sched.update_last_running_pctx(&pc);
    let p = sched.ptable.get(1).unwrap();
    assert_eq!(p.pctx.elr, 0x7777);
    assert_eq!(p.pctx.x[1], 11);
}

#[test]
fn wakeup_readies_only_sleepers_on_channel() {
    let mut sched = Scheduler::new();
    for (pid, chan) in [(1u64, 5u64), (2, 6), (3, 5)] {
        let mut p = Process::new(pid, "s", 0, 0, 0);
        p.set_state(ProcessState::Blocked);
        p.chan = chan;
        sched.ptable.add_process_to_ptable(p).unwrap();
    }
    sched.wakeup(5);
    assert_eq!(sched.ptable.get(0).unwrap().state, ProcessState::Ready);
    assert_eq!(sched.ptable.get(0).unwrap().chan, 0);
    assert_eq!(sched.ptable.get(1).unwrap().state, ProcessState::Blocked);
    assert_eq!(sched.ptable.get(1).unwrap().chan, 6);
    assert_eq!(sched.ptable.get(2).unwrap().state, ProcessState::Ready);
}

#[test]
fn sleep_blocks_current_process() {
    let mut sched = two_process_scheduler();
    let mut cpu = Cpu::new(0);
    assert_eq!(sched.sleep(&cpu, 42), None);
    cpu.set_current_process(2);
    assert_eq!(sched.sleep(&cpu, 42), Some(1));
    let p = sched.ptable.get(1).unwrap();
    assert_eq!(p.state, ProcessState::Blocked);
    assert_eq!(p.chan, 42);
}

#[test]
fn nested_spinlocks_restore_interrupts() {
    let mut cpu = Cpu::new(0);
    let mut irq = Interrupts::new();
    let mut a = Spinlock::new("main_lock_a");
    let mut b = Spinlock::new("main_lock_b");
    irq.irq_enable();
    assert!(irq.irq_enabled());
    a.acquire(&mut cpu, &mut irq);
    assert!(!irq.irq_enabled());
    assert!(a.is_locked());
    b.acquire(&mut cpu, &mut irq);
    assert!(!irq.irq_enabled());
    assert_eq!(cpu.ncli, 2);
    b.release(&mut cpu, &mut irq);
    assert!(!irq.irq_enabled());
    a.release(&mut cpu, &mut irq);
    assert!(irq.irq_enabled());
    assert!(!a.is_locked());
    assert_eq!(cpu.ncli, 0);
    assert_eq!(a.name(), "main_lock_a");
}

#[test]
fn spinlock_keeps_interrupts_off_when_they_were_off() {
    let mut cpu = Cpu::new(0);
    let mut irq = Interrupts::new();
    let mut a = Spinlock::new("main_lock_a");
    irq.irq_disable();
    a.acquire(&mut cpu, &mut irq);
    a.release(&mut cpu, &mut irq);
    assert!(!irq.irq_enabled());
}

#[test]
fn push_off_pop_off_and_daif() {
    let mut cpu = Cpu::new(0);
    let mut irq = Interrupts::new();
    irq.daif_unmask_all();
    irq.push_off(&mut cpu);
    assert!(cpu.interrupts_enabled);
    assert!(!irq.irq_enabled);
    irq.pop_off(&mut cpu);
    assert!(irq.irq_enabled);
    irq.daif_mask_all();
    assert!(!irq.irq_enabled());
}

#[test]
fn mutex_lock_unlock_and_wakeup() {
    let mut cpu = Cpu::new(0);
    let mut irq = Interrupts::new();
    let mut sched = two_process_scheduler();
    let mut m = Mutex::new("main_test_mutex", 0xCAFEBABE);
    assert_eq!(m.name(), "main_test_mutex");
    assert!(!m.is_locked(&mut cpu, &mut irq));
    cpu.set_current_process(1);
    assert!(m.acquire(&mut cpu, &mut irq, &mut sched));
    assert!(m.is_locked(&mut cpu, &mut irq));

    // another process finds it held and sleeps on its channel
    cpu.set_current_process(2);
    assert!(!m.acquire(&mut cpu, &mut irq, &mut sched));
    assert_eq!(sched.ptable.get(1).unwrap().state, ProcessState::Blocked);
    assert_eq!(sched.ptable.get(1).unwrap().chan, 0xCAFEBABE);

    cpu.set_current_process(1);
    m.release(&mut cpu, &mut irq, &mut sched);
    assert!(!m.is_locked(&mut cpu, &mut irq));
    assert_eq!(sched.ptable.get(1).unwrap().state, ProcessState::Ready);
    assert_eq!(sched.ptable.get(1).unwrap().chan, 0);
    assert_eq!(cpu.ncli, 0);
}

#[test]
fn getch_converts_enter_and_skips_line_feed() {
    assert_eq!(getch(b'\r'), Some(b'\n'));
    assert_eq!(getch(b'\n'), None);
    assert_eq!(getch(b'a'), Some(b'a'));
}

#[test]
fn getline_stops_at_enter_or_full_buffer() {
    let mut buf = [0u8; 8];
    assert_eq!(getline(&mut buf, b"hi\n\rrest"), (3, 4));
    assert_eq!(&buf[..3], b"hi\n");
    assert_eq!(buf[3], 0);

    let mut small = [0u8; 2];
    assert_eq!(getline(&mut small, b"abc\r"), (2, 2));
    assert_eq!(&small, b"ab");

    let mut buf = [9u8; 4];
    assert_eq!(getline(&mut buf, b"x\n"), (1, 2));
    assert_eq!(buf, [b'x', 9, 9, 9]);

    let mut empty: [u8; 0] = [];
    assert_eq!(getline(&mut empty, b"abc"), (0, 0));
}

#[test]
fn getline_push_reports_completion() {
    let mut buf = [0u8; 3];
    assert!(!getline_push(&mut buf, 0, b'a'));
    assert!(getline_push(&mut buf, 1, b'\n'));
    assert!(getline_push(&mut buf, 2, b'z'));
    assert_eq!(&buf, b"a\nz");
}

#[test]
fn uart_sends_carriage_return_before_line_feed() {
    assert_eq!(Uart::write_str("a\nb"), b"a\r\nb".to_vec());
    assert_eq!(Uart::write_str(""), Vec::<u8>::new());
}

#[test]
fn route_timer_interrupt_bits() {
    assert_eq!(Interrupts::deroute_timer_interrupt(0xff, TimerInterruptSource::PhysicalNonSecure), 0xdd);
    assert_eq!(
        Interrupts::route_timer_interrupt(0x20, TimerInterruptSource::PhysicalNonSecure, InterruptRoute::IRQ),
        0x02
    );
    assert_eq!(
        Interrupts::route_timer_interrupt(0x02, TimerInterruptSource::Virtual, InterruptRoute::FIQ),
        0x82
    );
    assert_eq!(PhysicalTimer::init_irq(0x100), 0x102);
}

#[test]
fn pending_interrupt_sources() {
    assert!(Interrupts::is_irq_pending(0x2, InterruptSource::PhysicalNonSecureTimer));
    assert!(!Interrupts::is_irq_pending(0x2, InterruptSource::PhysicalSecureTimer));
    assert!(Interrupts::is_fiq_pending(0x4000, InterruptSource::PeripheralInterrupt));
    assert_eq!(InterruptSource::LocalTimer.mask(), 0x800);
}

#[test]
fn timer_control_bits() {
    assert_eq!(PhysicalTimer::enable(0b100), 0b101);
    assert_eq!(PhysicalTimer::disable(0b111), 0b110);
    assert_eq!(PhysicalTimer::mask_int(0b001), 0b011);
    assert_eq!(PhysicalTimer::unmask_int(0b111), 0b101);
    assert_eq!(PhysicalTimer::start(0b110), 0b101);
}

#[test]
fn timer_compare_values() {
    assert_eq!(PhysicalTimer::set_seconds(1000, 5, 2), Ok(2005));
    assert_eq!(PhysicalTimer::set_seconds(u64::MAX, 0, 2), Err(TimerError::SecondsOverflow));
    assert_eq!(PhysicalTimer::set_seconds(2, u64::MAX, 1), Err(TimerError::CvalOverflow));
    assert_eq!(PhysicalTimer::set_milliseconds(62_500_000, 100, 1), Ok(62_600));
    assert_eq!(PhysicalTimer::set_milliseconds(u64::MAX, 0, 3), Err(TimerError::MillisecondsOverflow));
    assert_eq!(TimerError::CvalOverflow.message(), "Physical Timer CVAL Overflow.");
    assert_eq!(Scheduler::reset_timer(62_500_000, 100, 0b10), Ok((62_600, 0b11)));
    assert_eq!(Scheduler::reset_timer(62_500_000, u64::MAX, 0), Err(TimerError::CvalOverflow));
}

#[test]
fn timer_irq_preempts_user_code_only() {
    let mut sched = two_process_scheduler();
    let mut e = ctx(ExceptionType::_SYNC, ExceptionSource::_EL1h, 0);
    sched.schedule_next(&mut e);
    let mut from_kernel = ctx(ExceptionType::_IRQ, ExceptionSource::_EL1h, 0);
    assert_eq!(PhysicalTimer::handle_irq(&mut sched, &mut from_kernel), TimerIrqOutcome::InKernel);
    assert_eq!(sched.get_current_process_index(), 1);
    let mut from_user = ctx(ExceptionType::_IRQ, ExceptionSource::_EL064, 0);
    assert_eq!(PhysicalTimer::handle_irq(&mut sched, &mut from_user), TimerIrqOutcome::Preempted(Some(0)));
    assert_eq!(sched.ptable.get(1).unwrap().state, ProcessState::Ready);
    assert_eq!(from_user.elr, 0x1000);
}

#[test]
fn classify_synchronous_exceptions() {
    assert_eq!(classify_sync(&ctx(ExceptionType::_SYNC, ExceptionSource::_EL1h, svc_esr(0))), SyncKind::StartScheduler);
    assert_eq!(classify_sync(&ctx(ExceptionType::_SYNC, ExceptionSource::_EL1h, svc_esr(1))), SyncKind::Unhandled);
    assert_eq!(classify_sync(&ctx(ExceptionType::_SYNC, ExceptionSource::_EL064, svc_esr(1))), SyncKind::Syscall);
    assert_eq!(classify_sync(&ctx(ExceptionType::_SYNC, ExceptionSource::_EL064, 0x07 << 26)), SyncKind::FpSimdDisabled);
    assert_eq!(classify_sync(&ctx(ExceptionType::_SYNC, ExceptionSource::_EL032, svc_esr(1))), SyncKind::Unhandled);
    assert!(was_from_user_el0(&ctx(ExceptionType::_SYNC, ExceptionSource::_EL032, 0)));
    assert!(!was_from_user_el0(&ctx(ExceptionType::_SYNC, ExceptionSource::_EL1t, 0)));
}

#[test]
fn kernel_svc0_starts_scheduling() {
    let mut sched = two_process_scheduler();
    let mut e = ctx(ExceptionType::_SYNC, ExceptionSource::_EL1h, svc_esr(0));
    assert_eq!(handle_sync_exception(&mut sched, &mut e), SyncOutcome::SchedulerStarted(Some(1)));
    assert_eq!(e.elr, 0x3000);
}

#[test]
fn irq_handler_reports_other_sources() {
    let mut sched = two_process_scheduler();
    let mut e = ctx(ExceptionType::_IRQ, ExceptionSource::_EL1h, 0);
    let out = handle_irq_exception(&mut sched, &mut e, 0x102);
    assert_eq!(out, IrqOutcome { timer: Some(TimerIrqOutcome::InKernel), unhandled_sources: 0x100 });
    let out = handle_irq_exception(&mut sched, &mut e, 0x8);
    assert_eq!(out, IrqOutcome { timer: None, unhandled_sources: 0x8 });
}

#[test]
fn exception_from_user_saves_process_first() {
    let mut sched = two_process_scheduler();
    let mut e = ctx(ExceptionType::_SYNC, ExceptionSource::_EL1h, svc_esr(0));
    handle_exception_el1(&mut sched, &mut e, 0, 0);
    // the process in slot 1 runs and is interrupted by the timer
    let mut irq = ctx(ExceptionType::_IRQ, ExceptionSource::_EL064, 0);
    irq.x[2] = 22;
    irq.elr = 0x3010;
    let out = handle_exception_el1(&mut sched, &mut irq, 0x3ff0, 0x2);
    assert_eq!(out, ExceptionOutcome::Irq(IrqOutcome { timer: Some(TimerIrqOutcome::Preempted(Some(0))), unhandled_sources: 0 }));
    let saved = sched.ptable.get(1).unwrap();
    assert_eq!(saved.pctx.x[2], 22);
    assert_eq!(saved.pctx.elr, 0x3010);
    assert_eq!(saved.pctx.sp, 0x3ff0);
    assert_eq!(saved.state, ProcessState::Ready);
    let mut fiq = ctx(ExceptionType::_FIQ, ExceptionSource::_EL1h, 0);
    assert_eq!(handle_exception_el1(&mut sched, &mut fiq, 0, 0), ExceptionOutcome::Unhandled);
}

#[test]
fn syscalls_print_and_read() {
    let mut sched = two_process_scheduler();
    let mut e = Stdout::write_str(0x5000, 12).exception_context();
    assert_eq!(handle_syscall(&mut sched, &mut e), SyscallOutcome::Print { ptr: 0x5000, len: 12 });

    let mut e = user::sys_readline(0x6000, 64).exception_context();
    assert_eq!(handle_syscall(&mut sched, &mut e), SyscallOutcome::Read { ptr: 0x6000, len: 64 });
    complete_read(&mut e, 5);
    assert_eq!(e.x[0], 5);

    let mut e = user::sys_readline(0, 64).exception_context();
    e.x[0] = 0;
    assert_eq!(handle_syscall(&mut sched, &mut e), SyscallOutcome::ReadRejected);
    assert_eq!(e.x[0], 0);

    let mut e = user::sys_readline(0x6000, 0).exception_context();
    assert!(!sys_read(&mut e));
    assert_eq!(e.x[0], 0);
    let mut e = user::sys_readline(0x6000, 3).exception_context();
    assert!(sys_read(&mut e));
    assert_eq!(e.x[0], 0x6000);

    let mut e = user::trap().exception_context();
    assert_eq!(handle_syscall(&mut sched, &mut e), SyscallOutcome::Unknown(0));
}

#[test]
fn exit_code_is_sign_extended_and_read_back() {
    let e = user::exit(-1).exception_context();
    assert_eq!(e.x[0], u64::MAX);
    assert_eq!(exit_code(&e), -1);
    assert_eq!(user::exit(42), SvcCall { number: 3, x0: 42, x1: 0 });
}

#[test]
fn routing_again_replaces_route() {
    let first = Interrupts::route_timer_interrupt(0x0f0f, TimerInterruptSource::Hypervisor, InterruptRoute::IRQ);
    let again = Interrupts::route_timer_interrupt(first, TimerInterruptSource::Hypervisor, InterruptRoute::FIQ);
    let direct = Interrupts::route_timer_interrupt(0x0f0f, TimerInterruptSource::Hypervisor, InterruptRoute::FIQ);
    assert_eq!(again, direct);
    assert_eq!(direct, 0x0f4b);
}

#[test]
fn round_robin_reaches_every_ready_process() {
    let mut sched = Scheduler::new();
    for pid in 1..=3u64 {
        sched.ptable.add_process_to_ptable(Process::new(pid, "p", 0, 0, 0)).unwrap();
    }
    let mut e = ctx(ExceptionType::_SYNC, ExceptionSource::_EL1h, 0);
    let mut order = Vec::new();
    for _ in 0..6 {
        order.push(sched.schedule_next(&mut e).unwrap());
        sched.timeslice_up();
    }
    assert_eq!(order, vec![1, 2, 0, 1, 2, 0]);
}

#[test]
fn exception_report_lists_context() {
    let mut e = ctx(ExceptionType::_IRQ, ExceptionSource::_EL064, 0x5600_0003);
    e.elr = 0x1234;
    e.x[2] = 0xabcdef;
    let text = String::from_utf8(exception_report(&e)).unwrap();
    let lines: Vec<&str> = text.lines().collect();
    assert_eq!(lines[0], "=== Exception Context ===");
    assert_eq!(lines[1], "Type : IRQ (1)");
    assert_eq!(lines[2], "Source : EL064 (2)");
    assert_eq!(lines[3], "ELR  : 0x0000000000001234");
    assert_eq!(lines[5], "ESR  : 0x0000000056000003");
    assert_eq!(lines[7], "Registers:");
    assert_eq!(lines[10], "  x02 = 0x0000000000abcdef");
    assert_eq!(lines[38], "  x30 = 0x0000000000000000");
    assert_eq!(lines[39], "=========================");
    assert_eq!(lines.len(), 40);
    assert!(text.ends_with("=\n"));
}

#[test]
fn uart_setup_register_values() {
    assert_eq!(Uart::gpio_alt5_select(0xffff_ffff), 0xfffd_2fff);
    assert_eq!(Uart::gpio_alt5_select(0), 0x12000);
    assert_eq!(Uart::gpio_alt5_select(0x0003_f001), 0x0001_2001);
    assert_eq!(Uart::mini_uart_enabled(0b10), 0b11);
}

#[test]
fn mutex_taken_outside_any_process_has_no_owner() {
    let mut cpu = Cpu::new(0);
    let mut irq = Interrupts::new();
    let mut sched = Scheduler::new();
    let mut m = Mutex::new("m", 1);
    assert!(m.acquire(&mut cpu, &mut irq, &mut sched));
    assert!(m.is_locked(&mut cpu, &mut irq));
    m.release(&mut cpu, &mut irq, &mut sched);
    assert!(!m.is_locked(&mut cpu, &mut irq));
}

#[test]
fn user_call_context_has_zero_padding() {
    let e = Stdout::write_str(1, 2).exception_context();
    assert_eq!(e._padding, [0; 6]);
    assert_eq!(e.etype, ExceptionType::_SYNC);
}
