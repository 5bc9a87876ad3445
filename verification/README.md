# kernel

The core of the Tock embedded kernel as a Verus library: each operation
states in its contract what it returns and how it changes the kernel's
state, and Verus proves the code against those contracts.

- `src/` is the verified library: the ring buffer and list, cells,
  deferred calls, the process model (task queue, memory breaks, faults,
  restarts), the Tock Binary Format header parser, system-call decoding,
  the memory operations, grants, IPC, the process table and one step of
  the scheduler, the debug writer, and the hardware interface traits.
- `tests/` runs the library on concrete values.
- `app/` holds what talks to the hardware directly: the scheduler's main
  loop, panic reporting and formatted debug output.
