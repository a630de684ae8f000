use vstd::prelude::*;
use crate::processes::Cpu;

verus! {

#[derive(Clone, Copy, Debug, PartialEq, Eq, Structural)]
pub enum TimerInterruptSource {
    Physical,
    PhysicalNonSecure,
    Hypervisor,
    Virtual,
}

#[allow(clippy::upper_case_acronyms)]
#[derive(Clone, Copy, Debug, PartialEq, Eq, Structural)]
pub enum InterruptRoute {
    IRQ,
    FIQ,
}

/// Sources in the core's pending-interrupt registers, one bit each
/// (the peripheral interrupts use six bits).
#[allow(clippy::upper_case_acronyms)]
#[derive(Clone, Copy, Debug, PartialEq, Eq, Structural)]
pub enum InterruptSource {
    PhysicalSecureTimer,
    PhysicalNonSecureTimer,
    HypervisorTimer,
    VirtualTimer,
    Mailbox0,
    Mailbox1,
    Mailbox2,
    Mailbox3,
    GPU,
    PMU,
    AXI,
    LocalTimer,
    PeripheralInterrupt,
}

/// The bits of a source in the pending-interrupt registers.
pub open spec fn source_mask_spec(source: InterruptSource) -> u32 {
    match source {
        InterruptSource::PhysicalSecureTimer => 0x1,
        InterruptSource::PhysicalNonSecureTimer => 0x2,
        InterruptSource::HypervisorTimer => 0x4,
        InterruptSource::VirtualTimer => 0x8,
        InterruptSource::Mailbox0 => 0x10,
        InterruptSource::Mailbox1 => 0x20,
        InterruptSource::Mailbox2 => 0x40,
        InterruptSource::Mailbox3 => 0x80,
        InterruptSource::GPU => 0x100,
        InterruptSource::PMU => 0x200,
        InterruptSource::AXI => 0x400,
        InterruptSource::LocalTimer => 0x800,
        InterruptSource::PeripheralInterrupt => 0x3f000,
    }
}

impl InterruptSource {
    pub fn mask(self) -> (r: u32)
        ensures
            r == source_mask_spec(self),
    {
        match self {
            InterruptSource::PhysicalSecureTimer => 0x1,
            InterruptSource::PhysicalNonSecureTimer => 0x2,
            InterruptSource::HypervisorTimer => 0x4,
            InterruptSource::VirtualTimer => 0x8,
            InterruptSource::Mailbox0 => 0x10,
            InterruptSource::Mailbox1 => 0x20,
            InterruptSource::Mailbox2 => 0x40,
            InterruptSource::Mailbox3 => 0x80,
            InterruptSource::GPU => 0x100,
            InterruptSource::PMU => 0x200,
            InterruptSource::AXI => 0x400,
            InterruptSource::LocalTimer => 0x800,
            InterruptSource::PeripheralInterrupt => 0x3f000,
        }
    }
}

/// Bit `k` of `v`.
pub open spec fn nth_bit(v: u32, k: u32) -> bool {
    (v >> k) & 1u32 == 1u32
}

/// The position of a timer's IRQ routing bit in the core timer interrupt
/// control register; its FIQ routing bit is four places higher.
pub open spec fn timer_bit(source: TimerInterruptSource) -> u32 {
    match source {
        TimerInterruptSource::Physical => 0,
        TimerInterruptSource::PhysicalNonSecure => 1,
        TimerInterruptSource::Hypervisor => 2,
        TimerInterruptSource::Virtual => 3,
    }
}

/// The control value after the routes of timer `source` are cleared: its
/// IRQ and FIQ bits are off, every other bit keeps its value.
pub open spec fn derouted(ctl: u32, r: u32, source: TimerInterruptSource) -> bool {
    forall|k: u32|
        k < 32 ==> #[trigger] nth_bit(r, k) == (nth_bit(ctl, k) && k != timer_bit(source) && k
            != timer_bit(source) + 4)
}

/// The control value after timer `source` is routed to `route`: only the
/// bit of that route is on for the source, every other bit keeps its value.
pub open spec fn routed(ctl: u32, r: u32, source: TimerInterruptSource, route: InterruptRoute) -> bool {
    forall|k: u32|
        k < 32 ==> #[trigger] nth_bit(r, k) == if k == timer_bit(source) {
            route == InterruptRoute::IRQ
        } else if k == timer_bit(source) + 4 {
            route == InterruptRoute::FIQ
        } else {
            nth_bit(ctl, k)
        }
}

/// Routing a timer again replaces its earlier route: the result is the
/// same as routing the original control value directly.
pub proof fn lemma_route_replaces_route(
    ctl: u32,
    r1: u32,
    r2: u32,
    source: TimerInterruptSource,
    first: InterruptRoute,
    second: InterruptRoute,
)
    requires
        routed(ctl, r1, source, first),
        routed(r1, r2, source, second),
    ensures
        routed(ctl, r2, source, second),
{
    assert forall|k: u32| k < 32 implies #[trigger] nth_bit(r2, k) == if k == timer_bit(source) {
        second == InterruptRoute::IRQ
    } else if k == timer_bit(source) + 4 {
        second == InterruptRoute::FIQ
    } else {
        nth_bit(ctl, k)
    } by {
        assert(nth_bit(r1, k) == nth_bit(r1, k));
    }
}

/// Effect of masking interrupts on entry to a critical section, on the
/// core's bookkeeping `c` and the IRQ-enabled flag `irq`: interrupts are
/// off, the nesting depth grows, and the outermost entry records whether
/// interrupts were on.
pub open spec fn push_off_spec(c: Cpu, irq: bool) -> (Cpu, bool) {
    (
        Cpu {
            ncli: (c.ncli + 1) as usize,
            interrupts_enabled: if c.ncli == 0 {
                irq
            } else {
                c.interrupts_enabled
            },
            ..c
        },
        false,
    )
}

/// Effect of leaving a critical section: the depth shrinks, and leaving
/// the outermost one turns interrupts back on if they were on before it.
pub open spec fn pop_off_spec(c: Cpu, irq: bool) -> (Cpu, bool) {
    (Cpu { ncli: (c.ncli - 1) as usize, ..c }, c.ncli - 1 == 0 && c.interrupts_enabled)
}

/// Effect of entering and leaving one critical section.
pub open spec fn critical_section(c: Cpu, irq: bool) -> (Cpu, bool) {
    pop_off_spec(push_off_spec(c, irq).0, push_off_spec(c, irq).1)
}

/// The interrupt flag agrees with the nesting depth: inside a critical
/// section interrupts are off.
pub open spec fn irq_consistent(c: Cpu, irq: bool) -> bool {
    c.ncli > 0 ==> !irq
}

/// Model of the CPU's interrupt mask (the I bit of DAIF).
pub struct Interrupts {
    /// IRQs are unmasked.
    pub irq_enabled: bool,
}

impl Interrupts {
    /// The state at reset: everything masked.
    pub fn new() -> (r: Interrupts)
        ensures
            !r.irq_enabled,
    {
        Interrupts { irq_enabled: false }
    }

    pub fn daif_unmask_all(&mut self)
        ensures
            final(self).irq_enabled,
    {
        self.irq_enabled = true;
    }

    pub fn daif_mask_all(&mut self)
        ensures
            !final(self).irq_enabled,
    {
        self.irq_enabled = false;
    }

    pub fn irq_enable(&mut self)
        ensures
            final(self).irq_enabled,
    {
        self.irq_enabled = true;
    }

    pub fn irq_disable(&mut self)
        ensures
            !final(self).irq_enabled,
    {
        self.irq_enabled = false;
    }

    pub fn irq_enabled(&self) -> (r: bool)
        ensures
            r == self.irq_enabled,
    {
        self.irq_enabled
    }

    /// Enters a critical section on `cpu` (see `push_off_spec`).
    pub fn push_off(&mut self, cpu: &mut Cpu)
        requires
            old(cpu).ncli < usize::MAX,
        ensures
            (*final(cpu), final(self).irq_enabled) == push_off_spec(*old(cpu), old(self).irq_enabled),
    {
        let old_irq = self.irq_enabled;
        self.irq_enabled = false;
        if cpu.ncli == 0 {
            cpu.interrupts_enabled = old_irq;
        }
        cpu.ncli = cpu.ncli + 1;
    }

    /// Leaves a critical section on `cpu` (see `pop_off_spec`). Leaving
    /// with interrupts on, or outside any critical section, is an error.
    pub fn pop_off(&mut self, cpu: &mut Cpu)
        requires
            !old(self).irq_enabled,
            old(cpu).ncli >= 1,
        ensures
            (*final(cpu), final(self).irq_enabled) == pop_off_spec(*old(cpu), old(self).irq_enabled),
    {
        cpu.ncli = cpu.ncli - 1;
        if cpu.ncli == 0 && cpu.interrupts_enabled {
            self.irq_enabled = true;
        }
    }

    /// The control value that clears both routes of timer `source`.
    pub fn deroute_timer_interrupt(current_val: u32, source: TimerInterruptSource) -> (r: u32)
        ensures
            derouted(current_val, r, source),
    {
        let b: u32 = match source {
            TimerInterruptSource::Physical => 0,
            TimerInterruptSource::PhysicalNonSecure => 1,
            TimerInterruptSource::Hypervisor => 2,
            TimerInterruptSource::Virtual => 3,
        };
        let mut disable_bit: u32 = 1u32 << b;
        // the FIQ route as well
        disable_bit = disable_bit | (disable_bit << 4u32);
        let r = current_val & !disable_bit;
        assert forall|k: u32| k < 32 implies #[trigger] nth_bit(r, k) == (nth_bit(current_val, k)
            && k != b && k != b + 4) by {
            assert(((r >> k) & 1u32 == 1u32) == (((current_val >> k) & 1u32 == 1u32) && k != b && k
                != b + 4)) by (bit_vector)
                requires
                    b < 4,
                    k < 32,
                    r == current_val & !((1u32 << b) | ((1u32 << b) << 4u32)),
            ;
        }
        r
    }

    /// The control value that routes timer `source` to `route` only.
    pub fn route_timer_interrupt(
        current_val: u32,
        source: TimerInterruptSource,
        route: InterruptRoute,
    ) -> (r: u32)
        ensures
            routed(current_val, r, source, route),
    {
        let cleared = Self::deroute_timer_interrupt(current_val, source);
        let b: u32 = match source {
            TimerInterruptSource::Physical => 0,
            TimerInterruptSource::PhysicalNonSecure => 1,
            TimerInterruptSource::Hypervisor => 2,
            TimerInterruptSource::Virtual => 3,
        };
        let shift: u32 = match route {
            InterruptRoute::IRQ => b,
            InterruptRoute::FIQ => b + 4,
        };
        let enable_bit: u32 = 1u32 << shift;
        let r = cleared | enable_bit;
        assert forall|k: u32| k < 32 implies #[trigger] nth_bit(r, k) == (k == shift || nth_bit(cleared, k)) by {
            assert(((r >> k) & 1u32 == 1u32) == (k == shift || ((cleared >> k) & 1u32 == 1u32))) by (bit_vector)
                requires
                    shift < 8,
                    k < 32,
                    r == cleared | (1u32 << shift),
            ;
        }
        assert forall|k: u32| k < 32 implies #[trigger] nth_bit(r, k) == if k == timer_bit(source) {
            route == InterruptRoute::IRQ
        } else if k == timer_bit(source) + 4 {
            route == InterruptRoute::FIQ
        } else {
            nth_bit(current_val, k)
        } by {
            assert(nth_bit(r, k) == (k == shift || nth_bit(cleared, k)));
            assert(nth_bit(cleared, k) == (nth_bit(current_val, k) && k != b && k != b + 4));
        }
        r
    }

    /// Whether `source` is pending in the pending-IRQ register value
    /// `pending`.
    pub fn is_irq_pending(pending: u32, source: InterruptSource) -> (r: bool)
        ensures
            r == (pending & source_mask_spec(source) != 0),
    {
        (pending & source.mask()) != 0
    }

    /// Whether `source` is pending in the pending-FIQ register value
    /// `pending`.
    pub fn is_fiq_pending(pending: u32, source: InterruptSource) -> (r: bool)
        ensures
            r == (pending & source_mask_spec(source) != 0),
    {
        (pending & source.mask()) != 0
    }
}


/// `n` nested entries into critical sections.
pub open spec fn push_n(c: Cpu, irq: bool, n: nat) -> (Cpu, bool)
    decreases n,
{
    if n == 0 {
        (c, irq)
    } else {
        let p = push_n(c, irq, (n - 1) as nat);
        push_off_spec(p.0, p.1)
    }
}

/// `n` nested exits from critical sections.
pub open spec fn pop_n(c: Cpu, irq: bool, n: nat) -> (Cpu, bool)
    decreases n,
{
    if n == 0 {
        (c, irq)
    } else {
        let p = pop_n(c, irq, (n - 1) as nat);
        pop_off_spec(p.0, p.1)
    }
}

proof fn lemma_push_n(c: Cpu, irq: bool, n: nat)
    requires
        c.ncli + n <= usize::MAX,
    ensures
        push_n(c, irq, n).0.ncli == c.ncli + n,
        push_n(c, irq, n).0.cid == c.cid,
        push_n(c, irq, n).0.current_pid == c.current_pid,
        push_n(c, irq, n).0.interrupts_enabled == if c.ncli == 0 && n > 0 {
            irq
        } else {
            c.interrupts_enabled
        },
        n > 0 ==> !push_n(c, irq, n).1,
        n == 0 ==> push_n(c, irq, n).1 == irq,
    decreases n,
{
    if n > 0 {
        lemma_push_n(c, irq, (n - 1) as nat);
    }
}

proof fn lemma_pop_n(c: Cpu, irq: bool, n: nat)
    requires
        n <= c.ncli,
    ensures
        pop_n(c, irq, n).0.ncli == c.ncli - n,
        pop_n(c, irq, n).0.cid == c.cid,
        pop_n(c, irq, n).0.current_pid == c.current_pid,
        pop_n(c, irq, n).0.interrupts_enabled == c.interrupts_enabled,
        pop_n(c, irq, n).1 == if n == 0 {
            irq
        } else {
            c.ncli - n == 0 && c.interrupts_enabled
        },
    decreases n,
{
    if n > 0 {
        lemma_pop_n(c, irq, (n - 1) as nat);
    }
}

/// Nested critical sections, as spinlocks nest them: after `n` entries
/// from outside any critical section, interrupts are off; they stay off
/// while any of the sections is still open, whatever they were before;
/// leaving the outermost one restores them exactly (on if they were on,
/// off if they were off) and the core is outside any critical section.
pub proof fn lemma_nested_critical_sections(c: Cpu, irq: bool, n: nat)
    requires
        c.ncli == 0,
        1 <= n < usize::MAX,
    ensures
        !push_n(c, irq, n).1,
        push_n(c, irq, n).0.ncli == n,
        forall|m: nat|
            1 <= m < n ==> !(#[trigger] pop_n(push_n(c, irq, n).0, push_n(c, irq, n).1, m)).1,
        pop_n(push_n(c, irq, n).0, push_n(c, irq, n).1, n).1 == irq,
        pop_n(push_n(c, irq, n).0, push_n(c, irq, n).1, n).0.ncli == 0,
{
    lemma_push_n(c, irq, n);
    let p = push_n(c, irq, n);
    assert forall|m: nat| 1 <= m < n implies !(#[trigger] pop_n(p.0, p.1, m)).1 by {
        lemma_pop_n(p.0, p.1, m);
    }
    lemma_pop_n(p.0, p.1, n);
}

/// Entering and leaving a critical section keep the interrupt flag in
/// agreement with the nesting depth.
pub proof fn lemma_critical_section_consistent(c: Cpu, irq: bool)
    requires
        irq_consistent(c, irq),
        c.ncli < usize::MAX,
    ensures
        irq_consistent(push_off_spec(c, irq).0, push_off_spec(c, irq).1),
        irq_consistent(
            pop_off_spec(push_off_spec(c, irq).0, push_off_spec(c, irq).1).0,
            pop_off_spec(push_off_spec(c, irq).0, push_off_spec(c, irq).1).1,
        ),
        pop_off_spec(push_off_spec(c, irq).0, push_off_spec(c, irq).1).0.ncli == c.ncli,
        pop_off_spec(push_off_spec(c, irq).0, push_off_spec(c, irq).1).1 == irq,
{
}

} // verus!
