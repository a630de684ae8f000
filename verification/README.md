# atos

The core of a small AArch64 kernel for the Raspberry Pi 3, written in Verus
and verified.

`src/` is the verified library:

- `processes` — per-core bookkeeping, process records and the fixed-size
  process table (adding, lookup, loading a process image's record).
- `scheduler` — the round-robin scheduler: choosing, loading and
  preempting processes, sleep and wakeup on channels, and laws about the
  choice (determinism, only runnable processes run, switching on a used-up
  time slice, bounded waiting).
- `exceptions` — the exception context, saving and restoring process
  registers, syndrome decoding, the text report of a context, and the
  top-level exception dispatch.
- `syscalls` — print, read and exit system calls.
- `timer`, `interrupts` — control-register arithmetic of the physical
  timer and the core interrupt controller, and nested interrupt masking.
- `spinlock`, `mutex` — locks over the CPU model.
- `input`, `peripherals` — line reading, serial output encoding, and the
  UART set-up register values.
- `user` — the supervisor calls user programs make.

`app/` holds the hardware side: a `Board` trait for registers, memory and
the UART, and the glue that performs what the library decides.
