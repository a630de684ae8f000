//! A verified model of the AtOS kernel core: process table, round-robin
//! scheduler, exception and system-call dispatch, nested interrupt masking
//! for spinlocks, sleeping mutexes, and the register arithmetic of the
//! interrupt controller and the physical timer.

pub mod processes;
pub mod exceptions;
pub mod scheduler;
pub mod interrupts;
pub mod spinlock;
pub mod mutex;
pub mod timer;
pub mod syscalls;
pub mod user;
pub mod input;
pub mod peripherals;
