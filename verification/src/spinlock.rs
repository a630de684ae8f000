use vstd::prelude::*;
use crate::interrupts::{Interrupts, push_off_spec, pop_off_spec};
use crate::processes::Cpu;

verus! {

/// A lock that masks interrupts on its core while it is held.
pub struct Spinlock {
    lock: bool,
    holding_cpuid: Option<usize>,
    name: &'static str,
}

impl Spinlock {
    /// The id of the core holding the lock, if it is held.
    pub closed spec fn held_by(&self) -> Option<usize> {
        self.holding_cpuid
    }

    pub closed spec fn spec_name(&self) -> &'static str {
        self.name
    }

    /// The lock is held exactly when a holder is recorded.
    pub closed spec fn wf(&self) -> bool {
        self.lock <==> self.holding_cpuid is Some
    }

    pub open spec fn spec_is_locked(&self) -> bool {
        self.held_by() is Some
    }

    /// Two well-formed locks with the same holder and name are the same.
    pub proof fn lemma_determined(a: Spinlock, b: Spinlock)
        requires
            a.wf(),
            b.wf(),
            a.held_by() == b.held_by(),
            a.spec_name() == b.spec_name(),
        ensures
            a == b,
    {
    }

    pub fn new(name: &'static str) -> (r: Spinlock)
        ensures
            r.wf(),
            r.held_by() is None,
            r.spec_name() == name,
    {
        Spinlock { lock: false, holding_cpuid: None, name }
    }

    pub fn name(&self) -> (r: &'static str)
        ensures
            r == self.spec_name(),
    {
        self.name
    }

    pub fn is_locked(&self) -> (r: bool)
        requires
            self.wf(),
        ensures
            r == self.spec_is_locked(),
    {
        self.lock
    }

    /// Takes the lock for `cpu`, masking interrupts first. Acquiring a lock
    /// that is held is not possible here: held by the same core it is a
    /// fatal error, held by another core it waits for that core.
    pub fn acquire(&mut self, cpu: &mut Cpu, interrupts: &mut Interrupts)
        requires
            old(self).wf(),
            old(self).held_by() is None,
            old(cpu).ncli < usize::MAX,
        ensures
            final(self).wf(),
            final(self).held_by() == Some(old(cpu).cid),
            final(self).spec_name() == old(self).spec_name(),
            (*final(cpu), final(interrupts).irq_enabled) == push_off_spec(
                *old(cpu),
                old(interrupts).irq_enabled,
            ),
    {
        interrupts.push_off(cpu);
        let current_cpuid = cpu.cid;
        self.lock = true;
        self.holding_cpuid = Some(current_cpuid);
    }

    /// Releases the lock held by `cpu` and leaves its critical section.
    pub fn release(&mut self, cpu: &mut Cpu, interrupts: &mut Interrupts)
        requires
            old(self).wf(),
            old(self).held_by() == Some(old(cpu).cid),
            !old(interrupts).irq_enabled,
            old(cpu).ncli >= 1,
        ensures
            final(self).wf(),
            final(self).held_by() is None,
            final(self).spec_name() == old(self).spec_name(),
            (*final(cpu), final(interrupts).irq_enabled) == pop_off_spec(
                *old(cpu),
                old(interrupts).irq_enabled,
            ),
    {
        self.holding_cpuid = None;
        self.lock = false;
        interrupts.pop_off(cpu);
    }
}

} // verus!
