use vstd::prelude::*;
use crate::interrupts::{Interrupts, critical_section};
use crate::processes::{Cpu, Process, MAX_PROCESSES, slot_has_pid};
use crate::scheduler::{Scheduler, first_with_pid, in_state, sleep_effect, woken};
use crate::processes::ProcessState;
use crate::spinlock::Spinlock;

verus! {

/// Some slot of `s` holds a process with id `pid`.
pub open spec fn has_pid(s: Seq<Option<crate::processes::Process>>, pid: u64) -> bool {
    exists|i: int| 0 <= i < MAX_PROCESSES && #[trigger] slot_has_pid(s, i, pid)
}

/// The process id that `cpu` runs, if the table holds that process.
pub open spec fn current_owner(s: Seq<Option<crate::processes::Process>>, cpu: Cpu) -> Option<u64> {
    match cpu.current_pid {
        Some(p) => if has_pid(s, p) {
            Some(p)
        } else {
            None
        },
        None => None,
    }
}

/// A sleeping lock: a process that finds it held sleeps on the mutex's
/// channel until the holder releases it. A spinlock guards its state.
pub struct Mutex {
    lock: bool,
    guard: Spinlock,
    name: &'static str,
    pid: Option<u64>,
    chan: u64,
}

impl Mutex {
    pub closed spec fn spec_locked(&self) -> bool {
        self.lock
    }

    /// The id of the process that holds the mutex, when one was running.
    pub closed spec fn owner(&self) -> Option<u64> {
        self.pid
    }

    /// The wait channel of the mutex.
    pub closed spec fn spec_chan(&self) -> u64 {
        self.chan
    }

    pub closed spec fn spec_name(&self) -> &'static str {
        self.name
    }

    /// The guard is free between operations, and an unlocked mutex has
    /// no owner.
    pub closed spec fn wf(&self) -> bool {
        &&& self.guard.wf()
        &&& self.guard.held_by() is None
        &&& !self.lock ==> self.pid is None
    }

    /// An unlocked mutex records no owner.
    pub proof fn lemma_unlocked_has_no_owner(&self)
        requires
            self.wf(),
        ensures
            !self.spec_locked() ==> self.owner() is None,
    {
    }

    /// An unlocked mutex called `name` whose sleepers wait on `chan`.
    pub fn new(name: &'static str, chan: u64) -> (r: Mutex)
        ensures
            r.wf(),
            !r.spec_locked(),
            r.owner() is None,
            r.spec_chan() == chan,
            r.spec_name() == name,
    {
        Mutex { lock: false, guard: Spinlock::new(name), name, pid: None, chan }
    }

    pub fn name(&self) -> (r: &'static str)
        ensures
            r == self.spec_name(),
    {
        self.name
    }

    /// Tries to take the mutex for the process that `cpu` runs. Returns
    /// `true` when it is taken. When it is held, the process sleeps on the
    /// mutex's channel and `false` is returned: the caller reschedules and
    /// tries again once the process is woken.
    pub fn acquire(&mut self, cpu: &mut Cpu, interrupts: &mut Interrupts, sched: &mut Scheduler) -> (acquired: bool)
        requires
            old(self).wf(),
            old(sched).wf(),
            old(cpu).ncli < usize::MAX,
        ensures
            final(self).wf(),
            final(sched).wf(),
            final(sched).current == old(sched).current,
            final(sched).ptable.spec_next_pid() == old(sched).ptable.spec_next_pid(),
            final(self).spec_chan() == old(self).spec_chan(),
            final(self).spec_name() == old(self).spec_name(),
            (*final(cpu), final(interrupts).irq_enabled) == critical_section(*old(cpu), old(interrupts).irq_enabled),
            acquired == !old(self).spec_locked(),
            final(self).spec_locked(),
            acquired ==> {
                &&& final(self).owner() == match current_owner(old(sched).ptable@.slots, *old(cpu)) {
                    Some(p) => Some(p),
                    None => old(self).owner(),
                }
                &&& final(sched).ptable@.slots == old(sched).ptable@.slots
            },
            !acquired ==> {
                &&& final(self).owner() == old(self).owner()
                &&& sleep_effect(old(sched).ptable@.slots, final(sched).ptable@.slots, old(cpu).current_pid, old(self).spec_chan())
            },
    {
        self.guard.acquire(cpu, interrupts);
        if self.lock {
            sched.sleep(cpu, self.chan);
            self.guard.release(cpu, interrupts);
            return false;
        }
        self.lock = true;
        match Process::get_current(&sched.ptable, cpu) {
            Some(i) => {
                let p = sched.ptable.get(i).unwrap();
                self.pid = Some(p.pid);
            },
            None => {},
        }
        self.guard.release(cpu, interrupts);
        true
    }

    /// Releases the mutex and wakes every process sleeping on its channel.
    /// Releasing an unlocked mutex, or one that another running process
    /// holds, is an error.
    pub fn release(&mut self, cpu: &mut Cpu, interrupts: &mut Interrupts, sched: &mut Scheduler)
        requires
            old(self).wf(),
            old(sched).wf(),
            old(cpu).ncli < usize::MAX,
            old(self).spec_locked(),
            current_owner(old(sched).ptable@.slots, *old(cpu)) matches Some(p) ==> old(self).owner() == Some(p),
        ensures
            final(self).wf(),
            final(sched).wf(),
            final(sched).current == old(sched).current,
            final(sched).ptable.spec_next_pid() == old(sched).ptable.spec_next_pid(),
            final(self).spec_chan() == old(self).spec_chan(),
            final(self).spec_name() == old(self).spec_name(),
            (*final(cpu), final(interrupts).irq_enabled) == critical_section(*old(cpu), old(interrupts).irq_enabled),
            !final(self).spec_locked(),
            final(self).owner() is None,
            final(sched).ptable@.slots == woken(old(sched).ptable@.slots, old(self).spec_chan()),
    {
        self.guard.acquire(cpu, interrupts);
        self.lock = false;
        self.pid = None;
        sched.wakeup(self.chan);
        self.guard.release(cpu, interrupts);
    }

    /// Whether the mutex is held.
    pub fn is_locked(&mut self, cpu: &mut Cpu, interrupts: &mut Interrupts) -> (r: bool)
        requires
            old(self).wf(),
            old(cpu).ncli < usize::MAX,
        ensures
            r == old(self).spec_locked(),
            *final(self) == *old(self),
            (*final(cpu), final(interrupts).irq_enabled) == critical_section(*old(cpu), old(interrupts).irq_enabled),
    {
        let ghost g = self.guard;
        self.guard.acquire(cpu, interrupts);
        let locked = self.lock;
        self.guard.release(cpu, interrupts);
        proof {
            Spinlock::lemma_determined(self.guard, g);
        }
        locked
    }
}


/// A process that went to sleep on a held mutex is ready again once the
/// mutex is released: the release wakes its channel, which makes the
/// sleeper ready and takes it off the channel.
pub proof fn lemma_release_wakes_sleeper(
    s: Seq<Option<crate::processes::Process>>,
    s2: Seq<Option<crate::processes::Process>>,
    pid: u64,
    chan: u64,
    i: int,
)
    requires
        s.len() == MAX_PROCESSES,
        first_with_pid(s, i, pid),
        sleep_effect(s, s2, Some(pid), chan),
    ensures
        in_state(s2, i, ProcessState::Blocked),
        woken(s2, chan)[i] matches Some(p) && p.state == ProcessState::Ready && p.chan == 0 && p.pid
            == pid,
{
    let k = choose|k: int|
        #[trigger] first_with_pid(s, k, pid) && s2 == s.update(
            k,
            Some(crate::processes::Process { state: ProcessState::Blocked, chan, ..s[k].unwrap() }),
        );
    if k < i {
        assert(slot_has_pid(s, k, pid));
    } else if i < k {
        assert(slot_has_pid(s, i, pid));
    }
    assert(k == i);
}

} // verus!
