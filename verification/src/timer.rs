use vstd::prelude::*;
use crate::exceptions::{ExceptionContext, from_user, was_from_user_el0};
use crate::interrupts::{Interrupts, InterruptRoute, TimerInterruptSource, routed};
use crate::processes::ProcessState;
use crate::scheduler::{Scheduler, schedule_step, with_state};

verus! {

/// Why a compare value could not be computed.
#[derive(Clone, Copy, Debug, PartialEq, Eq, Structural)]
pub enum TimerError {
    /// Frequency times seconds does not fit in 64 bits.
    SecondsOverflow,
    /// Frequency times milliseconds does not fit in 64 bits.
    MillisecondsOverflow,
    /// The current count plus the delay does not fit in 64 bits.
    CvalOverflow,
}

impl TimerError {
    /// The message reported for this error.
    pub fn message(&self) -> (r: &'static str)
        ensures
            r@ == match self {
                TimerError::SecondsOverflow => "Physical Timer Seconds Overflow."@,
                TimerError::MillisecondsOverflow => "Physical Timer Milliseconds Overflow."@,
                TimerError::CvalOverflow => "Physical Timer CVAL Overflow."@,
            },
    {
        match self {
            TimerError::SecondsOverflow => "Physical Timer Seconds Overflow.",
            TimerError::MillisecondsOverflow => "Physical Timer Milliseconds Overflow.",
            TimerError::CvalOverflow => "Physical Timer CVAL Overflow.",
        }
    }
}

/// The compare value for a deadline `ticks` after count `now`.
pub open spec fn deadline(now: u64, ticks: int) -> Result<u64, TimerError> {
    if now + ticks <= u64::MAX {
        Ok((now + ticks) as u64)
    } else {
        Err(TimerError::CvalOverflow)
    }
}

/// The compare value `seconds` after count `now` at `freq` ticks a second.
pub open spec fn seconds_cval(freq: u64, now: u64, seconds: u64) -> Result<u64, TimerError> {
    if freq * seconds <= u64::MAX {
        deadline(now, freq * seconds)
    } else {
        Err(TimerError::SecondsOverflow)
    }
}

/// The compare value `ms` milliseconds after count `now` at `freq` ticks a
/// second (the tick count rounded down).
pub open spec fn milliseconds_cval(freq: u64, now: u64, ms: u64) -> Result<u64, TimerError> {
    if freq * ms <= u64::MAX {
        deadline(now, (freq * ms) / 1000)
    } else {
        Err(TimerError::MillisecondsOverflow)
    }
}

/// What the timer interrupt did.
#[derive(Clone, Copy, Debug, PartialEq, Eq, Structural)]
pub enum TimerIrqOutcome {
    /// User code was interrupted: its process went back to ready and the
    /// scheduler ran, with this result (`None`: nothing left to run).
    Preempted(Option<usize>),
    /// The kernel was interrupted: no switch.
    InKernel,
}

/// The timer interrupt step on scheduler state `(s, cur)` and exception
/// context `e`, to `(s2, cur2, e2)` with outcome `out`.
pub open spec fn timer_irq_step(
    s: Seq<Option<crate::processes::Process>>,
    cur: int,
    e: ExceptionContext,
    s2: Seq<Option<crate::processes::Process>>,
    cur2: int,
    e2: ExceptionContext,
    out: TimerIrqOutcome,
) -> bool {
    if from_user(e) {
        out matches TimerIrqOutcome::Preempted(r) && schedule_step(
            with_state(s, cur, ProcessState::Ready),
            cur,
            e,
            s2,
            cur2,
            e2,
            r,
        )
    } else {
        &&& out == TimerIrqOutcome::InKernel
        &&& s2 == s
        &&& cur2 == cur
        &&& e2 == e
    }
}

/// The EL1 physical timer. Its control register holds the enable bit
/// (bit 0) and the interrupt mask bit (bit 1).
pub struct PhysicalTimer;

impl PhysicalTimer {
    /// The core timer interrupt control value that routes the non-secure
    /// physical timer to IRQ.
    pub fn init_irq(int_ctl: u32) -> (r: u32)
        ensures
            routed(int_ctl, r, TimerInterruptSource::PhysicalNonSecure, InterruptRoute::IRQ),
    {
        Interrupts::route_timer_interrupt(int_ctl, TimerInterruptSource::PhysicalNonSecure, InterruptRoute::IRQ)
    }

    /// Control value with the timer enabled.
    pub fn enable(ctl: u64) -> (r: u64)
        ensures
            r % 2 == 1,
            r / 2 == ctl / 2,
    {
        let r = ctl | 1u64;
        assert(r % 2 == 1 && r / 2 == ctl / 2) by (bit_vector)
            requires
                r == ctl | 1u64,
        ;
        r
    }

    /// Control value with the timer disabled.
    pub fn disable(ctl: u64) -> (r: u64)
        ensures
            r % 2 == 0,
            r / 2 == ctl / 2,
    {
        let r = ctl & !1u64;
        assert(r % 2 == 0 && r / 2 == ctl / 2) by (bit_vector)
            requires
                r == ctl & !1u64,
        ;
        r
    }

    /// Control value with the timer interrupt masked.
    pub fn mask_int(ctl: u64) -> (r: u64)
        ensures
            r % 2 == ctl % 2,
            (r / 2) % 2 == 1,
            r / 4 == ctl / 4,
    {
        let r = ctl | 2u64;
        assert(r % 2 == ctl % 2 && (r / 2) % 2 == 1 && r / 4 == ctl / 4) by (bit_vector)
            requires
                r == ctl | 2u64,
        ;
        r
    }

    /// Control value with the timer interrupt unmasked.
    pub fn unmask_int(ctl: u64) -> (r: u64)
        ensures
            r % 2 == ctl % 2,
            (r / 2) % 2 == 0,
            r / 4 == ctl / 4,
    {
        let r = ctl & !2u64;
        assert(r % 2 == ctl % 2 && (r / 2) % 2 == 0 && r / 4 == ctl / 4) by (bit_vector)
            requires
                r == ctl & !2u64,
        ;
        r
    }

    /// Control value with the interrupt unmasked and the timer enabled.
    pub fn start(ctl: u64) -> (r: u64)
        ensures
            r % 4 == 1,
            r / 4 == ctl / 4,
    {
        let u = Self::unmask_int(ctl);
        let r = Self::enable(u);
        assert(r % 4 == 1) by (nonlinear_arith)
            requires
                r % 2 == 1,
                r / 2 == u / 2,
                (u / 2) % 2 == 0,
        ;
        assert(r / 4 == u / 4) by (nonlinear_arith)
            requires
                r / 2 == u / 2,
        ;
        r
    }

    /// The compare value `seconds` seconds after count `now`, at `freq`
    /// ticks a second.
    pub fn set_seconds(freq: u64, now: u64, seconds: u64) -> (r: Result<u64, TimerError>)
        ensures
            r == seconds_cval(freq, now, seconds),
    {
        let ticks = match freq.checked_mul(seconds) {
            Some(t) => t,
            None => {
                return Err(TimerError::SecondsOverflow);
            },
        };
        match now.checked_add(ticks) {
            Some(c) => Ok(c),
            None => Err(TimerError::CvalOverflow),
        }
    }

    /// The compare value `milliseconds` after count `now`, at `freq` ticks
    /// a second.
    pub fn set_milliseconds(freq: u64, now: u64, milliseconds: u64) -> (r: Result<u64, TimerError>)
        ensures
            r == milliseconds_cval(freq, now, milliseconds),
    {
        let product = match freq.checked_mul(milliseconds) {
            Some(t) => t,
            None => {
                return Err(TimerError::MillisecondsOverflow);
            },
        };
        let ticks = product / 1000;
        match now.checked_add(ticks) {
            Some(c) => Ok(c),
            None => Err(TimerError::CvalOverflow),
        }
    }

    /// Handles the timer interrupt: when it interrupted user code, the
    /// running process's time slice is up and the next process is
    /// scheduled; in the kernel nothing switches. (The caller pushes the
    /// compare value away, disables the timer before, and re-arms it after.)
    pub fn handle_irq(sched: &mut Scheduler, ctx: &mut ExceptionContext) -> (out: TimerIrqOutcome)
        requires
            old(sched).wf(),
            from_user(*old(ctx)) ==> old(sched).ptable@.slots[old(sched).current as int] is Some,
        ensures
            final(sched).wf(),
            final(sched).ptable.spec_next_pid() == old(sched).ptable.spec_next_pid(),
            timer_irq_step(
                old(sched).ptable@.slots,
                old(sched).current as int,
                *old(ctx),
                final(sched).ptable@.slots,
                final(sched).current as int,
                *final(ctx),
                out,
            ),
    {
        if was_from_user_el0(ctx) {
            sched.timeslice_up();
            let r = sched.schedule_next(ctx);
            TimerIrqOutcome::Preempted(r)
        } else {
            TimerIrqOutcome::InKernel
        }
    }
}


/// The compare value `ms` milliseconds ahead is the current count plus the
/// whole number of ticks in `ms` milliseconds at `freq` ticks a second:
/// with `c - now` ticks, `1000 * (c - now) <= freq * ms < 1000 * (c - now + 1)`.
/// It fails only on overflow: of `freq * ms`, or of the compare value.
pub proof fn lemma_milliseconds_deadline(freq: u64, now: u64, ms: u64)
    ensures
        (milliseconds_cval(freq, now, ms) == Err::<u64, TimerError>(TimerError::MillisecondsOverflow))
            <==> freq * ms > u64::MAX,
        milliseconds_cval(freq, now, ms) matches Ok(c) ==> {
            &&& now <= c
            &&& 1000 * (c - now) <= freq * ms
            &&& freq * ms < 1000 * (c - now + 1)
        },
        freq * ms <= u64::MAX ==> ((milliseconds_cval(freq, now, ms) is Ok) <==> 1000 * now + freq * ms
            < 1000 * (u64::MAX + 1)),
        milliseconds_cval(freq, now, ms) is Err ==> (milliseconds_cval(freq, now, ms)
            == Err::<u64, TimerError>(TimerError::MillisecondsOverflow) || milliseconds_cval(freq, now, ms)
            == Err::<u64, TimerError>(TimerError::CvalOverflow)),
{
    let x = freq * ms;
    if x <= u64::MAX {
        assert(1000 * (x / 1000) <= x < 1000 * (x / 1000) + 1000) by (nonlinear_arith)
            requires
                x >= 0,
        ;
    }
}

/// A later deadline in milliseconds gives a later compare value.
pub proof fn lemma_milliseconds_monotone(freq: u64, now: u64, m1: u64, m2: u64)
    requires
        m1 <= m2,
        milliseconds_cval(freq, now, m1) is Ok,
        milliseconds_cval(freq, now, m2) is Ok,
    ensures
        milliseconds_cval(freq, now, m1).unwrap() <= milliseconds_cval(freq, now, m2).unwrap(),
{
    lemma_milliseconds_deadline(freq, now, m1);
    lemma_milliseconds_deadline(freq, now, m2);
    assert(freq * m1 <= freq * m2) by (nonlinear_arith)
        requires
            m1 <= m2,
    ;
}

/// The compare value `seconds` seconds ahead is the current count plus
/// `freq * seconds` ticks; it fails only on overflow.
pub proof fn lemma_seconds_deadline(freq: u64, now: u64, seconds: u64)
    ensures
        (seconds_cval(freq, now, seconds) == Err::<u64, TimerError>(TimerError::SecondsOverflow)) <==> freq
            * seconds > u64::MAX,
        (seconds_cval(freq, now, seconds) == Err::<u64, TimerError>(TimerError::CvalOverflow)) <==> (freq
            * seconds <= u64::MAX && now + freq * seconds > u64::MAX),
        seconds_cval(freq, now, seconds) matches Ok(c) ==> c == now + freq * seconds,
{
}

} // verus!
