use atos::exceptions::{exception_class, svc_number, ExceptionContext, ExceptionSource, ExceptionType};
use atos::processes::{Process, ProcessState, MAX_PROCESSES};
use atos::scheduler::Scheduler;
use atos::syscalls::{handle_syscall, sys_exit, SyscallOutcome};
use atos::user;

/// What the kernel receives when user code calls `exit(exit_code)`.
fn user_exit(exit_code: i32) -> ExceptionContext {
    user::exit(exit_code).exception_context()
}

/// An exception context with all registers zero, as when the kernel
/// itself traps to start scheduling.
fn kernel_ctx() -> ExceptionContext {
    ExceptionContext {
        etype: ExceptionType::_SYNC,
        esource: ExceptionSource::_EL1h,
        _padding: [0; 6],
        x: [0; 31],
        elr: 0,
        spsr: 0,
        esr: 0,
        far: 0,
    }
}

fn schedule_next(sched: &mut Scheduler) -> Option<usize> {
    let mut ctx = kernel_ctx();
    sched.schedule_next(&mut ctx)
}

#[test]
fn test_get_current_process_index_initial() {
    let sched = Scheduler::new();
    assert_eq!(sched.get_current_process_index(), 0);
}

#[test]
fn test_scheduler_first_schedule_picks_index1_when_two_ready() {
    let mut sched = Scheduler::new();
    let p1 = Process::new(1, "proc_a", 0, 0x1000, 0x2000);
    let p2 = Process::new(2, "proc_b", 0, 0x3000, 0x4000);
    sched.ptable.add_process_to_ptable(p1).unwrap();
    sched.ptable.add_process_to_ptable(p2).unwrap();

    schedule_next(&mut sched);
    assert_eq!(sched.get_current_process_index(), 1);
    assert_eq!(sched.ptable.get(1).unwrap().state, ProcessState::Running);
    assert_eq!(sched.ptable.get(0).unwrap().state, ProcessState::Ready);
}

#[test]
fn test_scheduler_single_process_wraps_to_index0() {
    let mut sched = Scheduler::new();
    let p = Process::new(1, "solo", 0, 0x1000, 0x2000);
    sched.ptable.add_process_to_ptable(p).unwrap();

    schedule_next(&mut sched);
    assert_eq!(sched.get_current_process_index(), 0);
    assert_eq!(sched.ptable.get(0).unwrap().state, ProcessState::Running);
}

#[test]
fn test_scheduler_continues_running_process() {
    let mut sched = Scheduler::new();
    let p = Process::new(1, "solo", 0, 0x1000, 0x2000);
    sched.ptable.add_process_to_ptable(p).unwrap();

    schedule_next(&mut sched);
    assert_eq!(sched.get_current_process_index(), 0);

    schedule_next(&mut sched);
    assert_eq!(sched.get_current_process_index(), 0);
}

#[test]
fn test_timeslice_up_enables_round_robin() {
    let mut sched = Scheduler::new();
    let p1 = Process::new(1, "a", 0, 0x1000, 0x2000);
    let p2 = Process::new(2, "b", 0, 0x3000, 0x4000);
    sched.ptable.add_process_to_ptable(p1).unwrap();
    sched.ptable.add_process_to_ptable(p2).unwrap();

    schedule_next(&mut sched);
    assert_eq!(sched.get_current_process_index(), 1);

    sched.timeslice_up();
    schedule_next(&mut sched);
    assert_eq!(sched.get_current_process_index(), 0);
    assert_eq!(sched.ptable.get(0).unwrap().state, ProcessState::Running);
}

#[test]
fn test_sys_exit_sets_process_terminated() {
    let mut sched = Scheduler::new();
    let p = Process::new(1, "test_proc", 0, 0x1000, 0x2000);
    sched.ptable.add_process_to_ptable(p).unwrap();
    schedule_next(&mut sched);

    let mut ctx = user_exit(0);
    sys_exit(&mut sched, &mut ctx);

    assert_eq!(
        sched.ptable.get(0).unwrap().state,
        ProcessState::Terminated,
        "process should be Terminated after sys_exit"
    );
}

#[test]
fn test_sys_exit_with_nonzero_code() {
    let mut sched = Scheduler::new();
    let p = Process::new(1, "fail_proc", 0, 0x1000, 0x2000);
    sched.ptable.add_process_to_ptable(p).unwrap();
    schedule_next(&mut sched);

    let mut ctx = user_exit(42);
    sys_exit(&mut sched, &mut ctx);

    assert_eq!(sched.ptable.get(0).unwrap().state, ProcessState::Terminated);
}

#[test]
fn test_sys_exit_schedules_next_ready_process() {
    let mut sched = Scheduler::new();
    let p1 = Process::new(1, "proc_a", 0, 0x1000, 0x2000);
    let p2 = Process::new(2, "proc_b", 0, 0x3000, 0x4000);
    sched.ptable.add_process_to_ptable(p1).unwrap();
    sched.ptable.add_process_to_ptable(p2).unwrap();

    schedule_next(&mut sched);
    assert_eq!(sched.get_current_process_index(), 1);

    let mut ctx = user_exit(0);
    sys_exit(&mut sched, &mut ctx);

    assert_eq!(sched.get_current_process_index(), 0);
    assert_eq!(sched.ptable.get(0).unwrap().state, ProcessState::Running);
}

#[test]
fn test_sys_exit_last_process() {
    let mut sched = Scheduler::new();
    let p = Process::new(1, "only_proc", 0, 0x1000, 0x2000);
    sched.ptable.add_process_to_ptable(p).unwrap();
    schedule_next(&mut sched);

    let mut ctx = user_exit(0);
    sys_exit(&mut sched, &mut ctx);

    assert_eq!(sched.choose_next_process(), None);
}

#[test]
fn test_handle_syscall_dispatches_exit() {
    let mut sched = Scheduler::new();
    let p = Process::new(1, "proc", 0, 0x1000, 0x2000);
    sched.ptable.add_process_to_ptable(p).unwrap();
    schedule_next(&mut sched);

    let mut ctx = user_exit(7);
    assert_eq!(ctx.esr & 0xffff, 3);

    let outcome = handle_syscall(&mut sched, &mut ctx);
    assert_eq!(outcome, SyscallOutcome::Exited { code: 7, next: None });

    assert_eq!(sched.ptable.get(0).unwrap().state, ProcessState::Terminated);
}

#[test]
fn test_handle_syscall_unknown_number_does_not_panic() {
    let mut sched = Scheduler::new();
    let mut ctx = ExceptionContext {
        etype: ExceptionType::_SYNC,
        esource: ExceptionSource::_EL064,
        _padding: [0; 6],
        x: [0u64; 31],
        elr: 0,
        spsr: 0,
        esr: (0x15u64 << 26) | 0x99,
        far: 0,
    };
    let result = handle_syscall(&mut sched, &mut ctx);
    assert!(matches!(result, SyscallOutcome::Unknown(0x99)));
}

#[test]
fn test_esr_svc_encoding() {
    let esr_svc3: u64 = (0x15u64 << 26) | 3;
    assert_eq!(svc_number(esr_svc3), 3, "SVC number should be 3");
    assert_eq!(exception_class(esr_svc3), 0x15, "exception class for SVC");

    let esr_svc1: u64 = (0x15u64 << 26) | 1;
    assert_eq!(svc_number(esr_svc1), 1, "SVC number should be 1");
    assert_eq!(exception_class(esr_svc1), 0x15);
}

#[test]
fn test_process_new_defaults_to_ready() {
    let p = Process::new(1, "test", 0, 0x1000, 0x2000);
    assert_eq!(p.state, ProcessState::Ready);
    assert_eq!(p.pid, 1);
}

#[test]
fn test_process_set_state() {
    let mut p = Process::new(1, "test", 0, 0x1000, 0x2000);
    assert_eq!(p.state, ProcessState::Ready);
    p.set_state(ProcessState::Running);
    assert_eq!(p.state, ProcessState::Running);
    p.set_state(ProcessState::Terminated);
    assert_eq!(p.state, ProcessState::Terminated);
}

#[test]
fn test_process_table_full() {
    let mut sched = Scheduler::new();
    for i in 0..MAX_PROCESSES {
        let p = Process::new((i + 1) as u64, "fill", 0, 0, 0);
        sched.ptable.add_process_to_ptable(p).unwrap();
    }
    let extra = Process::new(99, "overflow", 0, 0, 0);
    assert_eq!(sched.ptable.add_process_to_ptable(extra), Err("Process table is full"));
}

#[test]
fn test_user_exit_esr_encoding() {
    let ctx = user_exit(5);
    assert_eq!(ctx.x[0], 5, "exit code should be in x0");
    assert_eq!(ctx.esr & 0xffff, 3, "SVC #3");
    assert_eq!((ctx.esr >> 26) & 0x3f, 0x15, "EC should be SVC");
}

#[test]
fn test_multiple_exits_circular() {
    let mut sched = Scheduler::new();
    let p1 = Process::new(1, "a", 0, 0x1000, 0x2000);
    let p2 = Process::new(2, "b", 0, 0x3000, 0x4000);
    let p3 = Process::new(3, "c", 0, 0x5000, 0x6000);
    sched.ptable.add_process_to_ptable(p1).unwrap();
    sched.ptable.add_process_to_ptable(p2).unwrap();
    sched.ptable.add_process_to_ptable(p3).unwrap();

    schedule_next(&mut sched);
    assert_eq!(sched.get_current_process_index(), 1);

    let mut ctx = user_exit(0);
    sys_exit(&mut sched, &mut ctx);
    assert_eq!(sched.get_current_process_index(), 2);

    let mut ctx = user_exit(0);
    sys_exit(&mut sched, &mut ctx);
    assert_eq!(sched.get_current_process_index(), 0);

    let mut ctx = user_exit(0);
    sys_exit(&mut sched, &mut ctx);
    assert_eq!(sched.choose_next_process(), None);
}

#[test]
fn test_exit_then_readd_process() {
    let mut sched = Scheduler::new();
    let p1 = Process::new(1, "first", 0, 0x1000, 0x2000);
    sched.ptable.add_process_to_ptable(p1).unwrap();
    schedule_next(&mut sched);

    let mut ctx = user_exit(0);
    sys_exit(&mut sched, &mut ctx);
    assert_eq!(sched.choose_next_process(), None);

    let p2 = Process::new(2, "second", 0, 0x5000, 0x6000);
    sched.ptable.add_process_to_ptable(p2).unwrap();

    let next = sched.choose_next_process();
    assert!(next.is_some(), "scheduler should find newly added process");
    let mut ctx = kernel_ctx();
    sched.load_pctx(next.unwrap(), &mut ctx);
    assert_eq!(sched.get_current_process_index(), 1);
}

#[test]
fn test_exit_code_passed_through_esr() {
    let mut sched = Scheduler::new();
    let p = Process::new(1, "p", 0, 0x1000, 0x2000);
    sched.ptable.add_process_to_ptable(p).unwrap();
    schedule_next(&mut sched);

    for code in [0, 1, -1, 42, -128, 255] {
        let mut sched = Scheduler::new();
        let p = Process::new(1, "p", 0, 0x1000, 0x2000);
        sched.ptable.add_process_to_ptable(p).unwrap();
        schedule_next(&mut sched);

        let ctx = user_exit(code);
        assert_eq!(ctx.x[0], code as u64);
    }
}

#[test]
fn test_round_robin_full_cycle() {
    let mut sched = Scheduler::new();
    let p1 = Process::new(1, "a", 0, 0x1000, 0x2000);
    let p2 = Process::new(2, "b", 0, 0x3000, 0x4000);
    sched.ptable.add_process_to_ptable(p1).unwrap();
    sched.ptable.add_process_to_ptable(p2).unwrap();

    schedule_next(&mut sched);
    assert_eq!(sched.get_current_process_index(), 1);

    sched.timeslice_up();
    schedule_next(&mut sched);
    assert_eq!(sched.get_current_process_index(), 0);

    sched.timeslice_up();
    schedule_next(&mut sched);
    assert_eq!(sched.get_current_process_index(), 1);
}
