use vstd::prelude::*;
use vstd::string::StringSliceAdditionalSpecFns;
use crate::processes::{Process, ProcessContext};
use crate::scheduler::{Scheduler, schedule_step};
use crate::syscalls::{SyscallOutcome, handle_syscall, syscall_step};
use crate::timer::{PhysicalTimer, TimerIrqOutcome, timer_irq_step};

verus! {

#[allow(non_camel_case_types)]
#[derive(Clone, Copy, Debug, PartialEq, Eq, Structural)]
pub enum ExceptionType {
    _SYNC,
    _IRQ,
    _FIQ,
    _SE,
}

#[allow(non_camel_case_types)]
#[derive(Clone, Copy, Debug, PartialEq, Eq, Structural)]
pub enum ExceptionSource {
    _EL1t,
    _EL1h,
    _EL064,
    _EL032,
}

/// Registers saved by the exception vector before the kernel handler runs.
#[derive(Clone, Copy, Debug)]
pub struct ExceptionContext {
    pub etype: ExceptionType,
    pub esource: ExceptionSource,
    pub _padding: [u8; 6],
    /// x0 to x30.
    pub x: [u64; 31],
    pub elr: u64,
    pub spsr: u64,
    pub esr: u64,
    pub far: u64,
}

/// The exception context after the registers of `pctx` are restored into
/// `e`: general registers, return address and saved status are replaced,
/// the rest stays.
pub open spec fn restored(e: ExceptionContext, pctx: ProcessContext) -> ExceptionContext {
    ExceptionContext { x: pctx.x, elr: pctx.elr, spsr: pctx.spsr, ..e }
}

/// The process context saved from exception context `e` with user stack
/// pointer `sp`.
pub open spec fn saved(e: ExceptionContext, sp: u64) -> ProcessContext {
    ProcessContext { x: e.x, sp, elr: e.elr, spsr: e.spsr }
}

impl ExceptionContext {
    /// Loads the registers of a process into this context, so that the
    /// exception return resumes that process.
    pub fn update_from_pctx(&mut self, pctx: &ProcessContext)
        ensures
            *final(self) == restored(*old(self), *pctx),
    {
        self.x = pctx.x;
        self.elr = pctx.elr;
        self.spsr = pctx.spsr;
    }
}

impl ProcessContext {
    /// The context of the interrupted user process: the registers of `ctx`
    /// and the user stack pointer `sp`.
    pub fn from_ectx(ctx: &ExceptionContext, sp: u64) -> (r: ProcessContext)
        ensures
            r == saved(*ctx, sp),
    {
        let mut pctx = ProcessContext::new(ctx.elr, sp);
        pctx.x = ctx.x;
        pctx.spsr = ctx.spsr;
        pctx
    }
}

/// Whether the exception was taken from user mode (EL0, 64 or 32 bit).
pub open spec fn from_user(ctx: ExceptionContext) -> bool {
    ctx.esource == ExceptionSource::_EL064 || ctx.esource == ExceptionSource::_EL032
}

pub fn was_from_user_el0(ctx: &ExceptionContext) -> (r: bool)
    ensures
        r == from_user(*ctx),
{
    ctx.esource == ExceptionSource::_EL064 || ctx.esource == ExceptionSource::_EL032
}

/// Exception class of a syndrome value: bits 31 to 26.
pub open spec fn exception_class_spec(esr: u64) -> u64 {
    (esr / 0x400_0000) % 64
}

/// The immediate of an SVC instruction: bits 15 to 0 of the syndrome.
pub open spec fn svc_number_spec(esr: u64) -> u16 {
    (esr % 0x1_0000) as u16
}

/// Exception class of supervisor calls from AArch64.
pub const EC_SVC64: u64 = 0x15;

/// Exception class of a trapped FP/SIMD access.
pub const EC_FP_SIMD: u64 = 0x07;

pub fn exception_class(esr: u64) -> (r: u64)
    ensures
        r == exception_class_spec(esr),
        r < 64,
{
    let r = (esr >> 26u64) & 0x3fu64;
    assert((esr >> 26u64) & 0x3fu64 == (esr / 0x400_0000) % 64) by (bit_vector);
    r
}

pub fn svc_number(esr: u64) -> (r: u16)
    ensures
        r == svc_number_spec(esr),
{
    let v = esr & 0xffffu64;
    assert(esr & 0xffffu64 == esr % 0x1_0000) by (bit_vector);
    v as u16
}

/// The syndrome value of an `svc #imm` taken from AArch64 user code.
pub open spec fn svc_esr_spec(imm: u16) -> u64 {
    (EC_SVC64 * 0x400_0000 + imm) as u64
}

pub fn svc_esr(imm: u16) -> (r: u64)
    ensures
        r == svc_esr_spec(imm),
        exception_class_spec(r) == EC_SVC64,
        svc_number_spec(r) == imm,
{
    let r: u64 = (EC_SVC64 << 26u64) | (imm as u64);
    let i: u64 = imm as u64;
    assert((0x15u64 << 26u64) | i == 0x15u64 * 0x400_0000 + i) by (bit_vector)
        requires
            i < 0x1_0000,
    ;
    r
}

/// What the kernel does with a synchronous exception.
#[derive(Clone, Copy, Debug, PartialEq, Eq, Structural)]
pub enum SyncKind {
    /// `svc #0` from the kernel itself: start scheduling.
    StartScheduler,
    /// `svc` from user code: a system call.
    Syscall,
    /// User code used FP/SIMD while it was disabled.
    FpSimdDisabled,
    /// Anything else: reported as unhandled.
    Unhandled,
}

pub open spec fn sync_kind_spec(ctx: ExceptionContext) -> SyncKind {
    let ec = exception_class_spec(ctx.esr);
    match ctx.esource {
        ExceptionSource::_EL1h => if ec == EC_SVC64 && svc_number_spec(ctx.esr) == 0 {
            SyncKind::StartScheduler
        } else {
            SyncKind::Unhandled
        },
        ExceptionSource::_EL064 => if ec == EC_SVC64 {
            SyncKind::Syscall
        } else if ec == EC_FP_SIMD {
            SyncKind::FpSimdDisabled
        } else {
            SyncKind::Unhandled
        },
        _ => SyncKind::Unhandled,
    }
}

/// Classifies a synchronous exception by its source and syndrome.
pub fn classify_sync(ctx: &ExceptionContext) -> (r: SyncKind)
    ensures
        r == sync_kind_spec(*ctx),
{
    let ec = exception_class(ctx.esr);
    match ctx.esource {
        ExceptionSource::_EL1h => {
            if ec == EC_SVC64 && svc_number(ctx.esr) == 0 {
                SyncKind::StartScheduler
            } else {
                SyncKind::Unhandled
            }
        },
        ExceptionSource::_EL064 => {
            if ec == EC_SVC64 {
                SyncKind::Syscall
            } else if ec == EC_FP_SIMD {
                SyncKind::FpSimdDisabled
            } else {
                SyncKind::Unhandled
            }
        },
        _ => SyncKind::Unhandled,
    }
}

/// What handling a synchronous exception did.
#[derive(Clone, Copy, Debug, PartialEq, Eq, Structural)]
pub enum SyncOutcome {
    /// The kernel's `svc #0`: the first process was scheduled, with this
    /// result. (The caller arms the timer for the first time slice.)
    SchedulerStarted(Option<usize>),
    /// A system call from user code.
    Syscall(SyscallOutcome),
    /// User code used FP/SIMD while it was disabled.
    FpSimdDisabled,
    /// Not handled: the caller reports the context.
    Unhandled,
}

/// What handling an IRQ did.
#[derive(Clone, Copy, Debug, PartialEq, Eq, Structural)]
pub struct IrqOutcome {
    /// The timer interrupt, when it was pending.
    pub timer: Option<TimerIrqOutcome>,
    /// The pending sources left unhandled (reported when not zero).
    pub unhandled_sources: u32,
}

/// What handling an exception did.
#[derive(Clone, Copy, Debug, PartialEq, Eq, Structural)]
pub enum ExceptionOutcome {
    Sync(SyncOutcome),
    Irq(IrqOutcome),
    /// FIQ and SError are not handled: the caller reports the context.
    Unhandled,
}

/// Bit of the non-secure physical timer in the pending-IRQ register.
pub const PENDING_TIMER_BIT: u32 = 0x2;

/// The synchronous exception step.
pub open spec fn sync_step(
    s: Seq<Option<Process>>,
    cur: int,
    e: ExceptionContext,
    s2: Seq<Option<Process>>,
    cur2: int,
    e2: ExceptionContext,
    out: SyncOutcome,
) -> bool {
    match sync_kind_spec(e) {
        SyncKind::StartScheduler => out matches SyncOutcome::SchedulerStarted(r) && schedule_step(
            s,
            cur,
            e,
            s2,
            cur2,
            e2,
            r,
        ),
        SyncKind::Syscall => out matches SyncOutcome::Syscall(so) && syscall_step(
            s,
            cur,
            e,
            s2,
            cur2,
            e2,
            so,
        ),
        SyncKind::FpSimdDisabled => out == SyncOutcome::FpSimdDisabled && s2 == s && cur2 == cur && e2
            == e,
        SyncKind::Unhandled => out == SyncOutcome::Unhandled && s2 == s && cur2 == cur && e2 == e,
    }
}

/// The IRQ step with pending-IRQ register value `pending`.
pub open spec fn irq_step(
    s: Seq<Option<Process>>,
    cur: int,
    e: ExceptionContext,
    pending: u32,
    s2: Seq<Option<Process>>,
    cur2: int,
    e2: ExceptionContext,
    out: IrqOutcome,
) -> bool {
    if pending & PENDING_TIMER_BIT != 0 {
        &&& out.timer matches Some(t) && timer_irq_step(s, cur, e, s2, cur2, e2, t)
        &&& out.unhandled_sources == pending & !PENDING_TIMER_BIT
    } else {
        &&& out.timer is None
        &&& out.unhandled_sources == pending
        &&& s2 == s
        &&& cur2 == cur
        &&& e2 == e
    }
}

/// The table after the registers of the interrupted user process, with
/// user stack pointer `sp`, are saved into slot `cur`; unchanged for an
/// exception from the kernel.
pub open spec fn after_save(s: Seq<Option<Process>>, cur: int, e: ExceptionContext, sp: u64) -> Seq<Option<Process>> {
    if from_user(e) {
        s.update(cur, Some(Process { pctx: saved(e, sp), ..s[cur].unwrap() }))
    } else {
        s
    }
}

/// The whole exception step: save the interrupted process, then handle
/// the exception by its type.
pub open spec fn exception_step(
    s: Seq<Option<Process>>,
    cur: int,
    e: ExceptionContext,
    sp: u64,
    pending: u32,
    s2: Seq<Option<Process>>,
    cur2: int,
    e2: ExceptionContext,
    out: ExceptionOutcome,
) -> bool {
    let s1 = after_save(s, cur, e, sp);
    match e.etype {
        ExceptionType::_SYNC => out matches ExceptionOutcome::Sync(so) && sync_step(
            s1,
            cur,
            e,
            s2,
            cur2,
            e2,
            so,
        ),
        ExceptionType::_IRQ => out matches ExceptionOutcome::Irq(io) && irq_step(
            s1,
            cur,
            e,
            pending,
            s2,
            cur2,
            e2,
            io,
        ),
        _ => out == ExceptionOutcome::Unhandled && s2 == s1 && cur2 == cur && e2 == e,
    }
}

/// Handles a synchronous exception.
pub fn handle_sync_exception(sched: &mut Scheduler, ctx: &mut ExceptionContext) -> (out: SyncOutcome)
    requires
        old(sched).wf(),
    ensures
        final(sched).wf(),
        final(sched).ptable.spec_next_pid() == old(sched).ptable.spec_next_pid(),
        sync_step(
            old(sched).ptable@.slots,
            old(sched).current as int,
            *old(ctx),
            final(sched).ptable@.slots,
            final(sched).current as int,
            *final(ctx),
            out,
        ),
{
    match classify_sync(ctx) {
        SyncKind::StartScheduler => {
            let r = sched.schedule_next(ctx);
            SyncOutcome::SchedulerStarted(r)
        },
        SyncKind::Syscall => SyncOutcome::Syscall(handle_syscall(sched, ctx)),
        SyncKind::FpSimdDisabled => SyncOutcome::FpSimdDisabled,
        SyncKind::Unhandled => SyncOutcome::Unhandled,
    }
}

/// Handles an IRQ whose sources are the bits of `pending`: the timer's
/// interrupt is handled, the other sources are returned unhandled.
pub fn handle_irq_exception(sched: &mut Scheduler, ctx: &mut ExceptionContext, pending: u32) -> (out: IrqOutcome)
    requires
        old(sched).wf(),
        from_user(*old(ctx)) ==> old(sched).ptable@.slots[old(sched).current as int] is Some,
    ensures
        final(sched).wf(),
        final(sched).ptable.spec_next_pid() == old(sched).ptable.spec_next_pid(),
        irq_step(
            old(sched).ptable@.slots,
            old(sched).current as int,
            *old(ctx),
            pending,
            final(sched).ptable@.slots,
            final(sched).current as int,
            *final(ctx),
            out,
        ),
{
    let mut irq_sources: u32 = pending;
    let mut timer: Option<TimerIrqOutcome> = None;
    if irq_sources & PENDING_TIMER_BIT != 0 {
        timer = Some(PhysicalTimer::handle_irq(sched, ctx));
        irq_sources = irq_sources & !PENDING_TIMER_BIT;
    }
    IrqOutcome { timer, unhandled_sources: irq_sources }
}

/// The kernel's exception handler. `sp_el0` is the user stack pointer at
/// the time of the exception, `pending_irq` the pending-IRQ register.
/// An exception from user code first saves the interrupted process's
/// registers into its slot.
pub fn handle_exception_el1(
    sched: &mut Scheduler,
    ctx: &mut ExceptionContext,
    sp_el0: u64,
    pending_irq: u32,
) -> (out: ExceptionOutcome)
    requires
        old(sched).wf(),
        from_user(*old(ctx)) ==> old(sched).ptable@.slots[old(sched).current as int] is Some,
    ensures
        final(sched).wf(),
        final(sched).ptable.spec_next_pid() == old(sched).ptable.spec_next_pid(),
        exception_step(
            old(sched).ptable@.slots,
            old(sched).current as int,
            *old(ctx),
            sp_el0,
            pending_irq,
            final(sched).ptable@.slots,
            final(sched).current as int,
            *final(ctx),
            out,
        ),
{
    if was_from_user_el0(ctx) {
        let new_pctx = ProcessContext::from_ectx(ctx, sp_el0);
        sched.update_last_running_pctx(&new_pctx);
    }
    match ctx.etype {
        ExceptionType::_SYNC => ExceptionOutcome::Sync(handle_sync_exception(sched, ctx)),
        ExceptionType::_IRQ => ExceptionOutcome::Irq(handle_irq_exception(sched, ctx, pending_irq)),
        _ => ExceptionOutcome::Unhandled,
    }
}

/// The report name of an exception type.
pub open spec fn etype_name(t: ExceptionType) -> &'static str {
    match t {
        ExceptionType::_SYNC => "SYNC",
        ExceptionType::_IRQ => "IRQ",
        ExceptionType::_FIQ => "FIQ",
        ExceptionType::_SE => "SError",
    }
}

/// The number of an exception type (its position in the enum).
pub open spec fn etype_number(t: ExceptionType) -> u8 {
    match t {
        ExceptionType::_SYNC => 0,
        ExceptionType::_IRQ => 1,
        ExceptionType::_FIQ => 2,
        ExceptionType::_SE => 3,
    }
}

/// The report name of an exception source.
pub open spec fn esource_name(s: ExceptionSource) -> &'static str {
    match s {
        ExceptionSource::_EL1t => "EL1t",
        ExceptionSource::_EL1h => "EL1h",
        ExceptionSource::_EL064 => "EL064",
        ExceptionSource::_EL032 => "EL032",
    }
}

/// The number of an exception source (its position in the enum).
pub open spec fn esource_number(s: ExceptionSource) -> u8 {
    match s {
        ExceptionSource::_EL1t => 0,
        ExceptionSource::_EL1h => 1,
        ExceptionSource::_EL064 => 2,
        ExceptionSource::_EL032 => 3,
    }
}

/// The ASCII character of hexadecimal digit `d` (lower case).
pub open spec fn hex_digit(d: u64) -> u8 {
    if d < 10 {
        (48 + d) as u8
    } else {
        (87 + d) as u8
    }
}

/// `v` as `0x` and sixteen hexadecimal digits, most significant first.
pub open spec fn hex18(v: u64) -> Seq<u8> {
    seq![48u8, 120u8] + Seq::new(16, |i: int| hex_digit((v >> ((60 - 4 * i) as u64)) & 0xf))
}

/// `n` (below 100) as two decimal digits.
pub open spec fn dec2(n: int) -> Seq<u8> {
    seq![(48 + n / 10) as u8, (48 + n % 10) as u8]
}

/// The report line of register `i` with value `v`.
pub open spec fn register_line(i: int, v: u64) -> Seq<u8> {
    "  x".spec_bytes() + dec2(i) + " = ".spec_bytes() + hex18(v) + "\n".spec_bytes()
}

/// The report lines of the first `n` general registers of `x`.
pub open spec fn register_lines(x: Seq<u64>, n: nat) -> Seq<u8>
    decreases n,
{
    if n == 0 {
        Seq::empty()
    } else {
        register_lines(x, (n - 1) as nat) + register_line(n - 1, x[n - 1])
    }
}

/// The text report of an exception context: type, source, the system
/// registers in hexadecimal, and the general registers, one per line.
pub open spec fn exception_report_spec(ctx: ExceptionContext) -> Seq<u8> {
    "=== Exception Context ===\n".spec_bytes()
        + "Type : ".spec_bytes() + etype_name(ctx.etype).spec_bytes() + " (".spec_bytes()
        + seq![(48 + etype_number(ctx.etype)) as u8] + ")\n".spec_bytes()
        + "Source : ".spec_bytes() + esource_name(ctx.esource).spec_bytes() + " (".spec_bytes()
        + seq![(48 + esource_number(ctx.esource)) as u8] + ")\n".spec_bytes()
        + "ELR  : ".spec_bytes() + hex18(ctx.elr) + "\n".spec_bytes()
        + "SPSR : ".spec_bytes() + hex18(ctx.spsr) + "\n".spec_bytes()
        + "ESR  : ".spec_bytes() + hex18(ctx.esr) + "\n".spec_bytes()
        + "FAR  : ".spec_bytes() + hex18(ctx.far) + "\n".spec_bytes()
        + "Registers:\n".spec_bytes()
        + register_lines(ctx.x@, 31)
        + "=========================\n".spec_bytes()
}

/// Appends the bytes of `s` to `out`.
fn push_str(out: &mut Vec<u8>, s: &str)
    ensures
        final(out)@ == old(out)@ + s.spec_bytes(),
{
    let bytes = s.as_bytes();
    let mut i: usize = 0;
    while i < bytes.len()
        invariant
            i <= bytes@.len(),
            bytes@ == s.spec_bytes(),
            out@ == old(out)@ + bytes@.subrange(0, i as int),
        decreases bytes@.len() - i,
    {
        out.push(bytes[i]);
        i = i + 1;
        assert(out@ =~= old(out)@ + bytes@.subrange(0, i as int));
    }
    assert(bytes@.subrange(0, i as int) =~= bytes@);
}

/// Appends `v` in the form `hex18` gives.
fn push_hex(out: &mut Vec<u8>, v: u64)
    ensures
        final(out)@ == old(out)@ + hex18(v),
{
    out.push(48u8);
    out.push(120u8);
    let mut i: u64 = 0;
    while i < 16
        invariant
            i <= 16,
            out@ == old(out)@ + seq![48u8, 120u8] + Seq::new(
                i as nat,
                |k: int| hex_digit((v >> ((60 - 4 * k) as u64)) & 0xf),
            ),
        decreases 16 - i,
    {
        let shift: u64 = 60 - 4 * i;
        let d: u64 = (v >> shift) & 0xfu64;
        assert(d < 16) by (bit_vector)
            requires
                d == (v >> shift) & 0xfu64,
        ;
        let c: u8 = if d < 10 {
            48 + d as u8
        } else {
            87 + d as u8
        };
        out.push(c);
        i = i + 1;
        assert(out@ =~= old(out)@ + seq![48u8, 120u8] + Seq::new(
            i as nat,
            |k: int| hex_digit((v >> ((60 - 4 * k) as u64)) & 0xf),
        ));
    }
    assert(seq![48u8, 120u8] + Seq::new(16, |k: int| hex_digit((v >> ((60 - 4 * k) as u64)) & 0xf))
        =~= hex18(v));
}

fn etype_name_of(t: ExceptionType) -> (r: &'static str)
    ensures
        r == etype_name(t),
{
    match t {
        ExceptionType::_SYNC => "SYNC",
        ExceptionType::_IRQ => "IRQ",
        ExceptionType::_FIQ => "FIQ",
        ExceptionType::_SE => "SError",
    }
}

fn esource_name_of(s: ExceptionSource) -> (r: &'static str)
    ensures
        r == esource_name(s),
{
    match s {
        ExceptionSource::_EL1t => "EL1t",
        ExceptionSource::_EL1h => "EL1h",
        ExceptionSource::_EL064 => "EL064",
        ExceptionSource::_EL032 => "EL032",
    }
}

/// The text report of an exception context (see `exception_report_spec`).
pub fn exception_report(ctx: &ExceptionContext) -> (r: Vec<u8>)
    ensures
        r@ == exception_report_spec(*ctx),
{
    let mut out: Vec<u8> = Vec::new();
    push_str(&mut out, "=== Exception Context ===\n");
    push_str(&mut out, "Type : ");
    push_str(&mut out, etype_name_of(ctx.etype));
    push_str(&mut out, " (");
    let tn: u8 = match ctx.etype {
        ExceptionType::_SYNC => 0,
        ExceptionType::_IRQ => 1,
        ExceptionType::_FIQ => 2,
        ExceptionType::_SE => 3,
    };
    out.push(48 + tn);
    push_str(&mut out, ")\n");
    push_str(&mut out, "Source : ");
    push_str(&mut out, esource_name_of(ctx.esource));
    push_str(&mut out, " (");
    let sn: u8 = match ctx.esource {
        ExceptionSource::_EL1t => 0,
        ExceptionSource::_EL1h => 1,
        ExceptionSource::_EL064 => 2,
        ExceptionSource::_EL032 => 3,
    };
    out.push(48 + sn);
    push_str(&mut out, ")\n");
    push_str(&mut out, "ELR  : ");
    push_hex(&mut out, ctx.elr);
    push_str(&mut out, "\n");
    push_str(&mut out, "SPSR : ");
    push_hex(&mut out, ctx.spsr);
    push_str(&mut out, "\n");
    push_str(&mut out, "ESR  : ");
    push_hex(&mut out, ctx.esr);
    push_str(&mut out, "\n");
    push_str(&mut out, "FAR  : ");
    push_hex(&mut out, ctx.far);
    push_str(&mut out, "\n");
    push_str(&mut out, "Registers:\n");
    let ghost head = out@;
    let mut i: usize = 0;
    while i < 31
        invariant
            i <= 31,
            out@ == head + register_lines(ctx.x@, i as nat),
        decreases 31 - i,
    {
        let ghost before = out@;
        push_str(&mut out, "  x");
        out.push(48 + (i / 10) as u8);
        out.push(48 + (i % 10) as u8);
        push_str(&mut out, " = ");
        push_hex(&mut out, ctx.x[i]);
        push_str(&mut out, "\n");
        assert(out@ =~= before + register_line(i as int, ctx.x@[i as int]));
        i = i + 1;
        assert(register_lines(ctx.x@, i as nat) == register_lines(ctx.x@, (i - 1) as nat) + register_line(
            i - 1,
            ctx.x@[i - 1],
        ));
        assert(out@ =~= head + register_lines(ctx.x@, i as nat));
    }
    push_str(&mut out, "=========================\n");
    assert(out@ =~= exception_report_spec(*ctx));
    out
}

/// Restoring a saved context and saving it again, with the same stack
/// pointer, gives back the saved context: a process resumes with exactly
/// the registers it had when it was interrupted.
pub proof fn lemma_context_switch_round_trip(e: ExceptionContext, pctx: ProcessContext)
    ensures
        saved(restored(e, pctx), pctx.sp) == pctx,
{
}

/// Saving a context and restoring it into the same exception context
/// changes nothing.
pub proof fn lemma_save_then_restore_is_identity(e: ExceptionContext, sp: u64)
    ensures
        restored(e, saved(e, sp)) == e,
{
}


/// How the kernel sorts synchronous exceptions, by where they come from
/// and by the exception class in bits 31 to 26 of the syndrome. From
/// AArch64 user code: class 0x15 (SVC) is a system call, class 0x07 an
/// FP/SIMD trap, any other class is unhandled. From the kernel with its
/// own stack: only `svc #0` (class 0x15, immediate in bits 15 to 0 zero)
/// starts the scheduler. From anywhere else nothing is handled.
pub proof fn lemma_sync_classes(ctx: ExceptionContext)
    ensures
        ctx.esource == ExceptionSource::_EL064 ==> {
            &&& (sync_kind_spec(ctx) == SyncKind::Syscall) <==> ((ctx.esr >> 26u64) & 0x3fu64) == 0x15
            &&& (sync_kind_spec(ctx) == SyncKind::FpSimdDisabled) <==> ((ctx.esr >> 26u64) & 0x3fu64)
                == 0x07
            &&& (((ctx.esr >> 26u64) & 0x3fu64) != 0x15 && ((ctx.esr >> 26u64) & 0x3fu64) != 0x07)
                ==> sync_kind_spec(ctx) == SyncKind::Unhandled
        },
        ctx.esource == ExceptionSource::_EL1h ==> {
            &&& (sync_kind_spec(ctx) == SyncKind::StartScheduler) <==> (((ctx.esr >> 26u64) & 0x3fu64)
                == 0x15 && ctx.esr & 0xffffu64 == 0)
            &&& sync_kind_spec(ctx) != SyncKind::StartScheduler ==> sync_kind_spec(ctx)
                == SyncKind::Unhandled
        },
        (ctx.esource == ExceptionSource::_EL1t || ctx.esource == ExceptionSource::_EL032)
            ==> sync_kind_spec(ctx) == SyncKind::Unhandled,
{
    let esr = ctx.esr;
    assert((esr >> 26u64) & 0x3fu64 == (esr / 0x400_0000) % 64) by (bit_vector);
    assert(esr & 0xffffu64 == esr % 0x1_0000) by (bit_vector);
}

/// The syndrome fields the kernel reads: the exception class is bits 31
/// to 26, the SVC immediate bits 15 to 0.
pub proof fn lemma_syndrome_fields(esr: u64)
    ensures
        exception_class_spec(esr) == (esr >> 26u64) & 0x3fu64,
        svc_number_spec(esr) as u64 == esr & 0xffffu64,
{
    assert((esr >> 26u64) & 0x3fu64 == (esr / 0x400_0000) % 64) by (bit_vector);
    assert(esr & 0xffffu64 == esr % 0x1_0000) by (bit_vector);
}

} // verus!
