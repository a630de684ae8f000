use vstd::prelude::*;
use crate::exceptions::{ExceptionContext, restored};
use crate::timer::{PhysicalTimer, TimerError, milliseconds_cval};
use crate::processes::{Cpu, Process, ProcessContext, ProcessState, ProcessTable, MAX_PROCESSES, slot_has_pid};

verus! {

/// Length of a time slice in milliseconds.
pub const TIMESLICE_MILISECONDS: u64 = 1;

/// Slot `i` holds a process in state `st`.
pub open spec fn in_state(s: Seq<Option<Process>>, i: int, st: ProcessState) -> bool {
    s[i] matches Some(p) && p.state == st
}

pub open spec fn is_ready(s: Seq<Option<Process>>, i: int) -> bool {
    in_state(s, i, ProcessState::Ready)
}

pub open spec fn is_running(s: Seq<Option<Process>>, i: int) -> bool {
    in_state(s, i, ProcessState::Running)
}

/// No slot holds a ready process.
pub open spec fn none_ready(s: Seq<Option<Process>>) -> bool {
    forall|j: int| 0 <= j < MAX_PROCESSES ==> !#[trigger] is_ready(s, j)
}

/// The slot `k` places after `cur`, going round the table.
pub open spec fn circ(cur: int, k: int) -> int {
    (cur + k) % (MAX_PROCESSES as int)
}

/// How many places after `cur` slot `i` comes, going round the table:
/// between 1 and `MAX_PROCESSES`, the latter for `cur` itself.
pub open spec fn offset(cur: int, i: int) -> int {
    if i > cur {
        i - cur
    } else {
        i + MAX_PROCESSES - cur
    }
}

/// Slot `i` is the first ready slot after `cur` in round-robin order
/// (`cur` itself coming last).
pub open spec fn round_robin_pick(s: Seq<Option<Process>>, cur: int, i: int) -> bool {
    &&& 0 <= i < MAX_PROCESSES
    &&& is_ready(s, i)
    &&& forall|k: int| 1 <= k < offset(cur, i) ==> !#[trigger] is_ready(s, circ(cur, k))
}

/// What the scheduler picks in table `s` when the last scheduled slot is
/// `cur`: `cur` again if it is still running, else the first ready slot
/// after it, else nothing.
pub open spec fn picks(s: Seq<Option<Process>>, cur: int, r: Option<usize>) -> bool {
    if is_running(s, cur) {
        r == Some(cur as usize)
    } else {
        match r {
            Some(i) => round_robin_pick(s, cur, i as int),
            None => none_ready(s),
        }
    }
}

/// Table `s` with the process in slot `i` put into state `st`.
pub open spec fn with_state(s: Seq<Option<Process>>, i: int, st: ProcessState) -> Seq<Option<Process>> {
    s.update(i, Some(Process { state: st, ..s[i].unwrap() }))
}

/// One scheduling step from table `s`, last slot `cur` and exception
/// context `e`, to `s2`, `cur2`, `e2`, with result `r`: the picked process
/// is running and its registers are in the exception context; with no
/// pick nothing changes.
pub open spec fn schedule_step(
    s: Seq<Option<Process>>,
    cur: int,
    e: ExceptionContext,
    s2: Seq<Option<Process>>,
    cur2: int,
    e2: ExceptionContext,
    r: Option<usize>,
) -> bool {
    &&& picks(s, cur, r)
    &&& match r {
        Some(i) => {
            &&& s2 == with_state(s, i as int, ProcessState::Running)
            &&& cur2 == i
            &&& e2 == restored(e, s[i as int].unwrap().pctx)
        },
        None => {
            &&& s2 == s
            &&& cur2 == cur
            &&& e2 == e
        },
    }
}

/// Table `s` after every process blocked on channel `chan` is made ready
/// and leaves the channel.
pub open spec fn woken(s: Seq<Option<Process>>, chan: u64) -> Seq<Option<Process>> {
    Seq::new(
        s.len(),
        |j: int|
            match s[j] {
                Some(p) => if p.state == ProcessState::Blocked && p.chan == chan {
                    Some(Process { state: ProcessState::Ready, chan: 0, ..p })
                } else {
                    Some(p)
                },
                None => None,
            },
    )
}

/// Slot `i` is the first slot of `s` that holds a process with id `pid`.
pub open spec fn first_with_pid(s: Seq<Option<Process>>, i: int, pid: u64) -> bool {
    &&& 0 <= i < MAX_PROCESSES
    &&& slot_has_pid(s, i, pid)
    &&& forall|j: int| 0 <= j < i ==> !#[trigger] slot_has_pid(s, j, pid)
}

/// No slot of `s` holds a process with id `pid`.
pub open spec fn no_pid(s: Seq<Option<Process>>, pid: u64) -> bool {
    forall|j: int| 0 <= j < MAX_PROCESSES ==> !#[trigger] slot_has_pid(s, j, pid)
}

/// `s2` is `s` after the process with id `pid` (the first such slot) went
/// to sleep on channel `chan`; with no such process nothing changes.
pub open spec fn sleep_effect(s: Seq<Option<Process>>, s2: Seq<Option<Process>>, pid: Option<u64>, chan: u64) -> bool {
    match pid {
        Some(p) => if exists|i: int| #[trigger] first_with_pid(s, i, p) {
            exists|i: int|
                #[trigger] first_with_pid(s, i, p) && s2 == s.update(
                    i,
                    Some(Process { state: ProcessState::Blocked, chan, ..s[i].unwrap() }),
                )
        } else {
            s2 == s
        },
        None => s2 == s,
    }
}

/// The round-robin scheduler: the process table and the slot it scheduled
/// last.
pub struct Scheduler {
    pub ptable: ProcessTable,
    pub current: usize,
}

impl Scheduler {
    pub open spec fn wf(&self) -> bool {
        &&& self.ptable.wf()
        &&& self.current < MAX_PROCESSES
    }

    /// An empty table; scheduling starts its scan after slot 0.
    pub fn new() -> (r: Scheduler)
        ensures
            r.wf(),
            r.ptable@.slots == Seq::new(MAX_PROCESSES as nat, |i: int| None::<Process>),
            r.ptable.spec_next_pid() == 1,
            r.current == 0,
    {
        Scheduler { ptable: ProcessTable::new(), current: 0 }
    }

    /// An empty table, with `current` as the last scheduled slot.
    pub fn with_current_index(current: usize) -> (r: Scheduler)
        requires
            current < MAX_PROCESSES,
        ensures
            r.wf(),
            r.ptable@.slots == Seq::new(MAX_PROCESSES as nat, |i: int| None::<Process>),
            r.ptable.spec_next_pid() == 1,
            r.current == current,
    {
        Scheduler { ptable: ProcessTable::new(), current }
    }

    pub fn get_current_process_index(&self) -> (r: usize)
        ensures
            r == self.current,
    {
        self.current
    }

    /// Picks the next process: the current one if it still runs, else the
    /// first ready one after it in round-robin order, which becomes the
    /// current slot.
    pub fn choose_next_process(&mut self) -> (r: Option<usize>)
        requires
            old(self).wf(),
        ensures
            final(self).wf(),
            picks(old(self).ptable@.slots, old(self).current as int, r),
            final(self).ptable == old(self).ptable,
            final(self).current == match r {
                Some(i) => i,
                None => old(self).current,
            },
    {
        let cur = self.current;
        match self.ptable.get(cur) {
            Some(p) => {
                if p.state == ProcessState::Running {
                    return Some(cur);
                }
            },
            None => {},
        }
        let ghost s = self.ptable@.slots;
        let mut i: usize = 1;
        while i <= MAX_PROCESSES
            invariant
                self.wf(),
                self.ptable == old(self).ptable,
                self.current == cur,
                cur == old(self).current,
                s == self.ptable@.slots,
                cur < MAX_PROCESSES,
                !is_running(s, cur as int),
                1 <= i <= MAX_PROCESSES + 1,
                forall|k: int| 1 <= k < i ==> !#[trigger] is_ready(s, circ(cur as int, k)),
            decreases MAX_PROCESSES + 1 - i,
        {
            let idx = (cur + i) % MAX_PROCESSES;
            match self.ptable.get(idx) {
                Some(p) => {
                    if p.state == ProcessState::Ready {
                        assert(offset(cur as int, idx as int) == i);
                        assert(idx == circ(cur as int, i as int));
                        self.current = idx;
                        return Some(idx);
                    }
                },
                None => {},
            }
            assert(!is_ready(s, circ(cur as int, i as int)));
            i = i + 1;
        }
        assert forall|j: int| 0 <= j < MAX_PROCESSES implies !#[trigger] is_ready(s, j) by {
            let k = offset(cur as int, j);
            assert(circ(cur as int, k) == j);
        }
        None
    }

    /// Makes the process in slot `pidx` the running one and loads its
    /// registers into `ectx`. Returns its stack pointer, which the caller
    /// installs as the user stack pointer.
    pub fn load_pctx(&mut self, pidx: usize, ectx: &mut ExceptionContext) -> (sp: u64)
        requires
            old(self).wf(),
            pidx < MAX_PROCESSES,
            old(self).ptable@.slots[pidx as int] is Some,
        ensures
            final(self).wf(),
            final(self).current == pidx,
            final(self).ptable@.slots == with_state(old(self).ptable@.slots, pidx as int, ProcessState::Running),
            final(self).ptable.spec_next_pid() == old(self).ptable.spec_next_pid(),
            *final(ectx) == restored(*old(ectx), old(self).ptable@.slots[pidx as int].unwrap().pctx),
            sp == old(self).ptable@.slots[pidx as int].unwrap().pctx.sp,
    {
        let p = self.ptable.get(pidx).unwrap();
        self.current = pidx;
        self.ptable.set_state(pidx, ProcessState::Running);
        ectx.update_from_pctx(&p.pctx);
        p.pctx.sp
    }

    /// Schedules the next process into `ectx`; `None` when no process is
    /// left to run.
    pub fn schedule_next(&mut self, ectx: &mut ExceptionContext) -> (r: Option<usize>)
        requires
            old(self).wf(),
        ensures
            final(self).wf(),
            final(self).ptable.spec_next_pid() == old(self).ptable.spec_next_pid(),
            schedule_step(
                old(self).ptable@.slots,
                old(self).current as int,
                *old(ectx),
                final(self).ptable@.slots,
                final(self).current as int,
                *final(ectx),
                r,
            ),
    {
        let next = self.choose_next_process();
        match next {
            Some(i) => {
                self.load_pctx(i, ectx);
                Some(i)
            },
            None => None,
        }
    }

    /// Saves the registers of the process that was running when user code
    /// was interrupted.
    pub fn update_last_running_pctx(&mut self, new_pctx: &ProcessContext)
        requires
            old(self).wf(),
            old(self).ptable@.slots[old(self).current as int] is Some,
        ensures
            final(self).wf(),
            final(self).current == old(self).current,
            final(self).ptable.spec_next_pid() == old(self).ptable.spec_next_pid(),
            final(self).ptable@.slots == old(self).ptable@.slots.update(
                old(self).current as int,
                Some(Process { pctx: *new_pctx, ..old(self).ptable@.slots[old(self).current as int].unwrap() }),
            ),
    {
        self.ptable.set_pctx(self.current, *new_pctx);
    }

    /// The running process used up its time slice: it becomes ready again.
    pub fn timeslice_up(&mut self)
        requires
            old(self).wf(),
            old(self).ptable@.slots[old(self).current as int] is Some,
        ensures
            final(self).wf(),
            final(self).current == old(self).current,
            final(self).ptable.spec_next_pid() == old(self).ptable.spec_next_pid(),
            final(self).ptable@.slots == with_state(old(self).ptable@.slots, old(self).current as int, ProcessState::Ready),
    {
        self.ptable.set_state(self.current, ProcessState::Ready);
    }

    /// The timer settings for a fresh time slice, from the timer frequency
    /// `freq`, the current count `now` and the control value `ctl`: the
    /// compare value one slice ahead, and the control value with the timer
    /// enabled.
    pub fn reset_timer(freq: u64, now: u64, ctl: u64) -> (r: Result<(u64, u64), TimerError>)
        ensures
            match milliseconds_cval(freq, now, TIMESLICE_MILISECONDS) {
                Ok(cval) => r matches Ok((c, new_ctl)) && c == cval && new_ctl % 2 == 1 && new_ctl / 2
                    == ctl / 2,
                Err(e) => r == Err::<(u64, u64), TimerError>(e),
            },
    {
        let cval = PhysicalTimer::set_milliseconds(freq, now, TIMESLICE_MILISECONDS)?;
        Ok((cval, PhysicalTimer::enable(ctl)))
    }

    /// Makes every process blocked on channel `chan` ready.
    pub fn wakeup(&mut self, chan: u64)
        requires
            old(self).wf(),
        ensures
            final(self).wf(),
            final(self).current == old(self).current,
            final(self).ptable.spec_next_pid() == old(self).ptable.spec_next_pid(),
            final(self).ptable@.slots == woken(old(self).ptable@.slots, chan),
    {
        let ghost s = self.ptable@.slots;
        let mut i: usize = 0;
        while i < MAX_PROCESSES
            invariant
                self.wf(),
                self.current == old(self).current,
                self.ptable.spec_next_pid() == old(self).ptable.spec_next_pid(),
                s == old(self).ptable@.slots,
                s.len() == MAX_PROCESSES,
                i <= MAX_PROCESSES,
                forall|j: int| 0 <= j < i ==> #[trigger] self.ptable@.slots[j] == woken(s, chan)[j],
                forall|j: int| i <= j < MAX_PROCESSES ==> #[trigger] self.ptable@.slots[j] == s[j],
            decreases MAX_PROCESSES - i,
        {
            match self.ptable.get(i) {
                Some(p) => {
                    if p.state == ProcessState::Blocked && p.chan == chan {
                        self.ptable.replace(i, Process { state: ProcessState::Ready, chan: 0, ..p });
                    }
                },
                None => {},
            }
            i = i + 1;
        }
        assert(self.ptable@.slots =~= woken(s, chan));
    }

    /// Puts the process that `cpu` runs to sleep on channel `chan`: it is
    /// blocked until a wakeup on that channel. Returns its slot, or `None`
    /// when `cpu` runs no process of the table.
    pub fn sleep(&mut self, cpu: &Cpu, chan: u64) -> (r: Option<usize>)
        requires
            old(self).wf(),
        ensures
            final(self).wf(),
            final(self).current == old(self).current,
            final(self).ptable.spec_next_pid() == old(self).ptable.spec_next_pid(),
            sleep_effect(old(self).ptable@.slots, final(self).ptable@.slots, cpu.current_pid, chan),
            match r {
                Some(i) => cpu.current_pid matches Some(pid) && first_with_pid(old(self).ptable@.slots, i as int, pid),
                None => cpu.current_pid matches Some(pid) ==> no_pid(old(self).ptable@.slots, pid),
            },
    {
        match Process::get_current(&self.ptable, cpu) {
            Some(i) => {
                let p = self.ptable.get(i).unwrap();
                self.ptable.replace(i, Process { state: ProcessState::Blocked, chan, ..p });
                proof {
                    let pid = cpu.current_pid.unwrap();
                    assert(first_with_pid(old(self).ptable@.slots, i as int, pid));
                }
                Some(i)
            },
            None => {
                proof {
                    if cpu.current_pid is Some {
                        let pid = cpu.current_pid.unwrap();
                        if exists|k: int| #[trigger] first_with_pid(old(self).ptable@.slots, k, pid) {
                            let k = choose|k: int| #[trigger] first_with_pid(old(self).ptable@.slots, k, pid);
                            assert(slot_has_pid(old(self).ptable@.slots, k, pid));
                        }
                    }
                }
                None
            },
        }
    }
}


/// The scheduler's choice is a function of the table and the last slot.
pub proof fn lemma_pick_deterministic(s: Seq<Option<Process>>, cur: int, r1: Option<usize>, r2: Option<usize>)
    requires
        0 <= cur < MAX_PROCESSES,
        picks(s, cur, r1),
        picks(s, cur, r2),
    ensures
        r1 == r2,
{
    if !is_running(s, cur) {
        if r1 is Some && r2 is Some {
            let i1 = r1.unwrap() as int;
            let i2 = r2.unwrap() as int;
            if offset(cur, i1) < offset(cur, i2) {
                assert(circ(cur, offset(cur, i1)) == i1);
                assert(!is_ready(s, circ(cur, offset(cur, i1))));
            } else if offset(cur, i2) < offset(cur, i1) {
                assert(circ(cur, offset(cur, i2)) == i2);
                assert(!is_ready(s, circ(cur, offset(cur, i2))));
            }
        } else if r1 is Some {
            assert(is_ready(s, r1.unwrap() as int));
        } else if r2 is Some {
            assert(is_ready(s, r2.unwrap() as int));
        }
    }
}

/// Only a ready process is ever picked, or the running one continued: a
/// blocked or terminated process is never scheduled.
pub proof fn lemma_picks_only_runnable(s: Seq<Option<Process>>, cur: int, i: usize)
    requires
        0 <= cur < MAX_PROCESSES,
        picks(s, cur, Some(i)),
    ensures
        is_ready(s, i as int) || (i == cur && is_running(s, cur)),
        !in_state(s, i as int, ProcessState::Blocked),
        !in_state(s, i as int, ProcessState::Terminated),
{
}

/// Unless the last process still runs, the scheduler finds nothing to run
/// exactly when no process is ready.
pub proof fn lemma_nothing_to_run_iff_none_ready(s: Seq<Option<Process>>, cur: int, r: Option<usize>)
    requires
        0 <= cur < MAX_PROCESSES,
        !is_running(s, cur),
        picks(s, cur, r),
    ensures
        r is None <==> none_ready(s),
{
    if r is Some {
        assert(is_ready(s, r.unwrap() as int));
    }
}

/// Round robin: when the running process's time slice is up and another
/// process is ready, the scheduler switches to another process.
pub proof fn lemma_timeslice_switches(s: Seq<Option<Process>>, cur: int, j: int, r: Option<usize>)
    requires
        0 <= cur < MAX_PROCESSES,
        s.len() == MAX_PROCESSES,
        s[cur] is Some,
        0 <= j < MAX_PROCESSES,
        j != cur,
        is_ready(s, j),
        picks(with_state(s, cur, ProcessState::Ready), cur, r),
    ensures
        r matches Some(i) && i != cur,
{
    let s1 = with_state(s, cur, ProcessState::Ready);
    assert(is_ready(s1, j));
    assert(!is_running(s1, cur));
    if r is None {
        assert(!is_ready(s1, j));
    } else {
        let i = r.unwrap() as int;
        if i == cur {
            assert(offset(cur, cur) == MAX_PROCESSES);
            assert(circ(cur, offset(cur, j)) == j);
            assert(!is_ready(s1, circ(cur, offset(cur, j))));
        }
    }
}

/// Bounded waiting: each time the scheduler picks a process other than a
/// ready process `j`, `j` comes strictly closer to the front of the
/// round-robin order: its distance after the new slot is smaller than
/// after the old one.
pub proof fn lemma_ready_process_comes_closer(s: Seq<Option<Process>>, cur: int, j: int, i: usize)
    requires
        0 <= cur < MAX_PROCESSES,
        0 <= j < MAX_PROCESSES,
        is_ready(s, j),
        !is_running(s, cur),
        picks(s, cur, Some(i)),
        i != j,
    ensures
        offset(i as int, j) < offset(cur, j),
{
    if offset(cur, j) < offset(cur, i as int) {
        assert(circ(cur, offset(cur, j)) == j);
        assert(!is_ready(s, circ(cur, offset(cur, j))));
    }
}

/// A process table stores what is written: after a process goes into a
/// free slot, looking its id up finds that slot, unless an earlier slot
/// already held the same id.
pub proof fn lemma_added_process_is_found(s: Seq<Option<Process>>, i: int, p: Process)
    requires
        s.len() == MAX_PROCESSES,
        0 <= i < MAX_PROCESSES,
        forall|j: int| 0 <= j < i ==> !#[trigger] slot_has_pid(s, j, p.pid),
    ensures
        first_with_pid(s.update(i, Some(p)), i, p.pid),
{
    let s2 = s.update(i, Some(p));
    assert forall|j: int| 0 <= j < i implies !#[trigger] slot_has_pid(s2, j, p.pid) by {
        assert(s2[j] == s[j]);
        assert(!slot_has_pid(s, j, p.pid));
    }
}


/// A wakeup on `chan` makes each process blocked on `chan` ready and takes
/// it off the channel, changing nothing else about it; every other slot
/// stays as it was.
pub proof fn lemma_wakeup_effect(s: Seq<Option<Process>>, chan: u64, j: int)
    requires
        0 <= j < s.len(),
    ensures
        woken(s, chan).len() == s.len(),
        (s[j] matches Some(p) && p.state == ProcessState::Blocked && p.chan == chan) ==> woken(s, chan)[j]
            == Some(Process { state: ProcessState::Ready, chan: 0, ..s[j].unwrap() }),
        !(s[j] matches Some(p) && p.state == ProcessState::Blocked && p.chan == chan) ==> woken(s, chan)[j]
            == s[j],
{
}

} // verus!
