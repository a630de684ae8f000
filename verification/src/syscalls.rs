use vstd::prelude::*;
use crate::exceptions::{ExceptionContext, svc_number, svc_number_spec};
use vstd::array::spec_array_update;
use crate::processes::{Process, ProcessState, MAX_PROCESSES};
use crate::scheduler::{Scheduler, in_state, schedule_step, with_state};

verus! {

/// `svc #1`: print `x1` bytes at address `x0`.
pub const SYS_PRINT: u16 = 1;

/// `svc #2`: read a line into the `x1`-byte buffer at `x0`; the count read
/// is returned in `x0`.
pub const SYS_READ: u16 = 2;

/// `svc #3`: terminate the calling process with exit code `x0`.
pub const SYS_EXIT: u16 = 3;

/// What a system call asks of the kernel's I/O, or what it did.
#[derive(Clone, Copy, Debug, PartialEq, Eq, Structural)]
pub enum SyscallOutcome {
    /// Print `len` bytes of user memory at `ptr`.
    Print { ptr: u64, len: u64 },
    /// Read a line into the `len`-byte user buffer at `ptr`, then report
    /// the count with `complete_read`.
    Read { ptr: u64, len: u64 },
    /// A read with a null buffer or no room: 0 bytes read, already
    /// reported in `x0`.
    ReadRejected,
    /// The calling process exited with `code`; the scheduler ran with
    /// result `next` (`None`: nothing left to run).
    Exited { code: i32, next: Option<usize> },
    /// No such system call.
    Unknown(u16),
}

/// Exception context `e` with `x0` set to `v`.
pub open spec fn with_x0(e: ExceptionContext, v: u64) -> ExceptionContext {
    ExceptionContext { x: spec_array_update(e.x, 0, v), ..e }
}

/// The exit code in `x0`: its low 32 bits as a signed number.
pub open spec fn exit_code_spec(e: ExceptionContext) -> i32 {
    e.x[0] as i32
}

/// The read request is refused: null buffer or no room.
pub open spec fn read_rejected(e: ExceptionContext) -> bool {
    e.x[0] == 0 || e.x[1] == 0
}

/// The table after the process in slot `cur`, if any, terminates.
pub open spec fn terminated(s: Seq<Option<Process>>, cur: int) -> Seq<Option<Process>> {
    if s[cur] is Some {
        with_state(s, cur, ProcessState::Terminated)
    } else {
        s
    }
}

/// The exit step: the current process terminates and the next one is
/// scheduled.
pub open spec fn exit_step(
    s: Seq<Option<Process>>,
    cur: int,
    e: ExceptionContext,
    s2: Seq<Option<Process>>,
    cur2: int,
    e2: ExceptionContext,
    r: Option<usize>,
) -> bool {
    schedule_step(terminated(s, cur), cur, e, s2, cur2, e2, r)
}

/// The system call step selected by the SVC number in the syndrome of `e`.
pub open spec fn syscall_step(
    s: Seq<Option<Process>>,
    cur: int,
    e: ExceptionContext,
    s2: Seq<Option<Process>>,
    cur2: int,
    e2: ExceptionContext,
    out: SyscallOutcome,
) -> bool {
    let n = svc_number_spec(e.esr);
    if n == SYS_PRINT {
        out == (SyscallOutcome::Print { ptr: e.x[0], len: e.x[1] }) && s2 == s && cur2 == cur && e2 == e
    } else if n == SYS_READ {
        &&& s2 == s
        &&& cur2 == cur
        &&& if read_rejected(e) {
            out == SyscallOutcome::ReadRejected && e2 == with_x0(e, 0)
        } else {
            out == (SyscallOutcome::Read { ptr: e.x[0], len: e.x[1] }) && e2 == e
        }
    } else if n == SYS_EXIT {
        out matches SyscallOutcome::Exited { code, next } && code == exit_code_spec(e) && exit_step(
            s,
            cur,
            e,
            s2,
            cur2,
            e2,
            next,
        )
    } else {
        out == SyscallOutcome::Unknown(n) && s2 == s && cur2 == cur && e2 == e
    }
}

/// The exit code passed in `x0`.
pub fn exit_code(ctx: &ExceptionContext) -> (r: i32)
    ensures
        r == exit_code_spec(*ctx),
{
    ctx.x[0] as i32
}

/// Checks a read request. A null buffer or an empty one reads nothing:
/// `x0` is set to 0 and `false` returned. Otherwise `true`: the caller
/// reads a line into the buffer and reports it with `complete_read`.
pub fn sys_read(ctx: &mut ExceptionContext) -> (r: bool)
    ensures
        r == !read_rejected(*old(ctx)),
        r ==> *final(ctx) == *old(ctx),
        !r ==> *final(ctx) == with_x0(*old(ctx), 0),
{
    if ctx.x[0] == 0 || ctx.x[1] == 0 {
        ctx.x[0] = 0;
        proof {
            assert(ctx.x@ =~= old(ctx).x@.update(0, 0));
        }
        return false;
    }
    true
}

/// Returns the number of bytes read to the caller in `x0`.
pub fn complete_read(ctx: &mut ExceptionContext, count: usize)
    ensures
        *final(ctx) == with_x0(*old(ctx), count as u64),
{
    ctx.x[0] = count as u64;
    proof {
        assert(ctx.x@ =~= old(ctx).x@.update(0, count as u64));
    }
}

/// Terminates the current process and schedules the next one into `ctx`.
pub fn sys_exit(sched: &mut Scheduler, ctx: &mut ExceptionContext) -> (r: Option<usize>)
    requires
        old(sched).wf(),
    ensures
        final(sched).wf(),
        final(sched).ptable.spec_next_pid() == old(sched).ptable.spec_next_pid(),
        exit_step(
            old(sched).ptable@.slots,
            old(sched).current as int,
            *old(ctx),
            final(sched).ptable@.slots,
            final(sched).current as int,
            *final(ctx),
            r,
        ),
{
    let idx = sched.get_current_process_index();
    if sched.ptable.get(idx).is_some() {
        sched.ptable.set_state(idx, ProcessState::Terminated);
    }
    sched.schedule_next(ctx)
}

/// Dispatches a system call from user code by its SVC number.
pub fn handle_syscall(sched: &mut Scheduler, ctx: &mut ExceptionContext) -> (out: SyscallOutcome)
    requires
        old(sched).wf(),
    ensures
        final(sched).wf(),
        final(sched).ptable.spec_next_pid() == old(sched).ptable.spec_next_pid(),
        syscall_step(
            old(sched).ptable@.slots,
            old(sched).current as int,
            *old(ctx),
            final(sched).ptable@.slots,
            final(sched).current as int,
            *final(ctx),
            out,
        ),
{
    let syscall_number = svc_number(ctx.esr);
    if syscall_number == SYS_PRINT {
        SyscallOutcome::Print { ptr: ctx.x[0], len: ctx.x[1] }
    } else if syscall_number == SYS_READ {
        let ptr = ctx.x[0];
        let len = ctx.x[1];
        if sys_read(ctx) {
            SyscallOutcome::Read { ptr, len }
        } else {
            SyscallOutcome::ReadRejected
        }
    } else if syscall_number == SYS_EXIT {
        let code = exit_code(ctx);
        let next = sys_exit(sched, ctx);
        SyscallOutcome::Exited { code, next }
    } else {
        SyscallOutcome::Unknown(syscall_number)
    }
}


/// A process that exits is terminated and is not the one scheduled next.
pub proof fn lemma_exited_process_not_resumed(
    s: Seq<Option<Process>>,
    cur: int,
    e: ExceptionContext,
    s2: Seq<Option<Process>>,
    cur2: int,
    e2: ExceptionContext,
    r: Option<usize>,
)
    requires
        s.len() == MAX_PROCESSES,
        0 <= cur < MAX_PROCESSES,
        s[cur] is Some,
        exit_step(s, cur, e, s2, cur2, e2, r),
    ensures
        in_state(s2, cur, ProcessState::Terminated),
        r matches Some(i) ==> i != cur,
{
    let s1 = terminated(s, cur);
    assert(in_state(s1, cur, ProcessState::Terminated));
}

/// The exit code user code puts in x0 (sign-extended) is the code the
/// kernel reads back.
pub proof fn lemma_exit_code_round_trip(code: i32)
    ensures
        (code as u64) as i32 == code,
{
    assert((code as u64) as i32 == code) by (bit_vector);
}


/// Exiting touches only the exiting process and the one scheduled after
/// it: the exiting process becomes terminated and keeps everything else,
/// the next process (a ready one, never the exiting one) becomes running
/// and keeps everything else, and every other slot is as it was.
pub proof fn lemma_exit_changes_only_exiting_and_next(
    s: Seq<Option<Process>>,
    cur: int,
    e: ExceptionContext,
    s2: Seq<Option<Process>>,
    cur2: int,
    e2: ExceptionContext,
    r: Option<usize>,
)
    requires
        s.len() == MAX_PROCESSES,
        0 <= cur < MAX_PROCESSES,
        s[cur] is Some,
        exit_step(s, cur, e, s2, cur2, e2, r),
    ensures
        s2.len() == s.len(),
        s2[cur] == Some(Process { state: ProcessState::Terminated, ..s[cur].unwrap() }),
        forall|j: int|
            0 <= j < MAX_PROCESSES && j != cur && r != Some(j as usize) ==> #[trigger] s2[j] == s[j],
        r matches Some(i) ==> {
            &&& i != cur
            &&& in_state(s, i as int, ProcessState::Ready)
            &&& s2[i as int] == Some(Process { state: ProcessState::Running, ..s[i as int].unwrap() })
            &&& cur2 == i
        },
        r is None ==> cur2 == cur,
{
    let s1 = terminated(s, cur);
    assert(in_state(s1, cur, ProcessState::Terminated));
    assert forall|j: int|
        0 <= j < MAX_PROCESSES && j != cur && r != Some(j as usize) implies #[trigger] s2[j] == s[j] by {
        assert(s1[j] == s[j]);
        if r is Some {
            assert(j != r.unwrap() as int);
        }
    }
    if r is Some {
        let i = r.unwrap() as int;
        assert(s1[i] == s[i]);
    }
}

} // verus!
