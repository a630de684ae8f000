use vstd::prelude::*;
use crate::exceptions::{ExceptionContext, ExceptionSource, ExceptionType, SyncKind, svc_esr, svc_esr_spec, svc_number_spec, sync_kind_spec, exception_class_spec};
use crate::syscalls::{SYS_EXIT, SYS_PRINT, SYS_READ};

verus! {

/// A supervisor call as user code issues it: the SVC immediate and the
/// argument registers x0 and x1.
#[derive(Clone, Copy, Debug, PartialEq, Eq, Structural)]
pub struct SvcCall {
    pub number: u16,
    pub x0: u64,
    pub x1: u64,
}

impl SvcCall {
    /// The exception context the kernel receives for this call, made from
    /// AArch64 user code: a synchronous exception whose syndrome holds the
    /// SVC class and immediate, with the arguments in x0 and x1 and every
    /// other register and the padding zero.
    pub fn exception_context(&self) -> (r: ExceptionContext)
        ensures
            r.etype == ExceptionType::_SYNC,
            r.esource == ExceptionSource::_EL064,
            forall|i: int| 0 <= i < 6 ==> #[trigger] r._padding[i] == 0,
            r.esr == crate::exceptions::svc_esr_spec(self.number),
            r.x[0] == self.x0,
            r.x[1] == self.x1,
            forall|i: int| 2 <= i < 31 ==> #[trigger] r.x[i] == 0,
            r.elr == 0,
            r.spsr == 0,
            r.far == 0,
    {
        let mut x = [0u64; 31];
        x[0] = self.x0;
        x[1] = self.x1;
        ExceptionContext {
            etype: ExceptionType::_SYNC,
            esource: ExceptionSource::_EL064,
            _padding: [0u8; 6],
            x,
            elr: 0,
            spsr: 0,
            esr: svc_esr(self.number),
            far: 0,
        }
    }
}

/// `svc #0`: a trap into the kernel with no request.
pub fn trap() -> (r: SvcCall)
    ensures
        r == (SvcCall { number: 0, x0: 0, x1: 0 }),
{
    SvcCall { number: 0, x0: 0, x1: 0 }
}

/// User-side standard output.
pub struct Stdout;

impl Stdout {
    /// The call that prints `len` bytes at `ptr`.
    pub fn write_str(ptr: u64, len: u64) -> (r: SvcCall)
        ensures
            r == (SvcCall { number: SYS_PRINT, x0: ptr, x1: len }),
    {
        SvcCall { number: SYS_PRINT, x0: ptr, x1: len }
    }
}

/// The call that reads a line into the `len`-byte buffer at `ptr`.
pub fn sys_readline(ptr: u64, len: u64) -> (r: SvcCall)
    ensures
        r == (SvcCall { number: SYS_READ, x0: ptr, x1: len }),
{
    SvcCall { number: SYS_READ, x0: ptr, x1: len }
}

/// The call that ends the process with `exit_code`, which travels in x0
/// sign-extended to 64 bits.
pub fn exit(exit_code: i32) -> (r: SvcCall)
    ensures
        r == (SvcCall { number: SYS_EXIT, x0: exit_code as u64, x1: 0 }),
{
    SvcCall { number: SYS_EXIT, x0: exit_code as u64, x1: 0 }
}


/// The kernel reads a user supervisor call as it was made: a context
/// delivered from AArch64 user code with the call's syndrome is a system
/// call with the call's number.
pub proof fn lemma_user_call_decoded(c: SvcCall, e: ExceptionContext)
    requires
        e.esource == ExceptionSource::_EL064,
        e.esr == svc_esr_spec(c.number),
    ensures
        exception_class_spec(e.esr) == crate::exceptions::EC_SVC64,
        svc_number_spec(e.esr) == c.number,
        sync_kind_spec(e) == SyncKind::Syscall,
{
}

} // verus!
