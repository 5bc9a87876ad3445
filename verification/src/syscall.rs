//! Tock syscall number definitions and arch-agnostic interface trait.
//!
//! Addresses that a process hands to the kernel are carried as `usize`
//! values.

use vstd::prelude::*;
use crate::process;

verus! {

/// The syscalls currently supported by Tock.
#[derive(Clone, Copy, Debug, PartialEq, Eq, Structural)]
pub enum Syscall {
    /// Return to the kernel to allow other processes to execute or to wait
    /// for interrupts and callbacks.
    YIELD,
    /// Pass a callback function to the kernel.
    SUBSCRIBE { driver_number: usize, subdriver_number: usize, callback_ptr: usize, appdata: usize },
    /// Instruct the kernel or a capsule to perform an operation.
    COMMAND { driver_number: usize, subdriver_number: usize, arg0: usize, arg1: usize },
    /// Share a memory buffer with the kernel.
    ALLOW { driver_number: usize, subdriver_number: usize, allow_address: usize, allow_size: usize },
    /// Various memory operations.
    MEMOP { operand: usize, arg0: usize },
}

/// Why the process stopped executing and execution returned to the kernel.
#[derive(Clone, Copy, Debug, PartialEq, Eq, Structural)]
pub enum ContextSwitchReason {
    /// Process called a syscall.
    SyscallFired { syscall: Syscall },
    /// Process triggered the hardfault handler.
    Fault,
    /// Process exceeded its timeslice.
    TimesliceExpired,
    /// Process interrupted (e.g. by a hardware event).
    Interrupted,
}

/// The syscall that the registers of a trapping process encode, if the
/// number names one.
pub open spec fn spec_arguments_to_syscall(syscall_number: u8, r0: usize, r1: usize, r2: usize, r3: usize) -> Option<Syscall> {
    if syscall_number == 0 {
        Some(Syscall::YIELD)
    } else if syscall_number == 1 {
        Some(Syscall::SUBSCRIBE { driver_number: r0, subdriver_number: r1, callback_ptr: r2, appdata: r3 })
    } else if syscall_number == 2 {
        Some(Syscall::COMMAND { driver_number: r0, subdriver_number: r1, arg0: r2, arg1: r3 })
    } else if syscall_number == 3 {
        Some(Syscall::ALLOW { driver_number: r0, subdriver_number: r1, allow_address: r2, allow_size: r3 })
    } else if syscall_number == 4 {
        Some(Syscall::MEMOP { operand: r0, arg0: r1 })
    } else {
        None
    }
}

/// The syscall number picks the syscall, and the registers carry its
/// arguments in order: 0 is YIELD; 1 SUBSCRIBE and 2 COMMAND and 3 ALLOW
/// take the driver number from `r0`, the subdriver number from `r1`, and
/// their two further arguments from `r2` and `r3`; 4 is MEMOP, with the
/// operation in `r0` and its argument in `r1`. No other number names a
/// syscall.
pub proof fn law_syscall_registers(n: u8, r0: usize, r1: usize, r2: usize, r3: usize)
    ensures
        spec_arguments_to_syscall(n, r0, r1, r2, r3) is None <==> n > 4,
        n == 0 ==> spec_arguments_to_syscall(n, r0, r1, r2, r3) == Some(Syscall::YIELD),
        n == 1 ==> spec_arguments_to_syscall(n, r0, r1, r2, r3)
            == Some((Syscall::SUBSCRIBE { driver_number: r0, subdriver_number: r1, callback_ptr: r2, appdata: r3 })),
        n == 2 ==> spec_arguments_to_syscall(n, r0, r1, r2, r3)
            == Some((Syscall::COMMAND { driver_number: r0, subdriver_number: r1, arg0: r2, arg1: r3 })),
        n == 3 ==> spec_arguments_to_syscall(n, r0, r1, r2, r3)
            == Some((Syscall::ALLOW { driver_number: r0, subdriver_number: r1, allow_address: r2, allow_size: r3 })),
        n == 4 ==> spec_arguments_to_syscall(n, r0, r1, r2, r3) == Some((Syscall::MEMOP { operand: r0, arg0: r1 })),
{
}

/// This trait must be implemented by the architecture of the chip Tock is
/// running on. It allows the kernel to manage switching to and from
/// processes in an architecture-agnostic manner.
pub trait UserspaceKernelBoundary {
    /// Some architecture-specific struct containing per-process state that
    /// must be kept while the process is not running.
    type StoredState: Default + Copy;

    /// Called by the kernel after a new process has been created; returns
    /// the process's new stack pointer, or an error if the stack does not
    /// have room for the initial state.
    fn initialize_new_process(&self, stack_pointer: usize, stack_size: usize, state: &mut Self::StoredState) -> Result<usize, ()>;

    /// The syscall return value that the stored state `state` holds for
    /// the process.
    spec fn stored_return_value(state: Self::StoredState) -> isize;

    /// Set the return value the process should see when it begins executing
    /// again after the syscall.
    fn set_syscall_return_value(&self, stack_pointer: usize, state: &mut Self::StoredState, return_value: isize)
        ensures
            Self::stored_return_value(*final(state)) == return_value,
    ;

    /// Set the function that the process should execute when it is resumed;
    /// on success the new stack pointer, on failure the stack pointer the
    /// function would have needed.
    fn set_process_function(
        &self,
        stack_pointer: usize,
        remaining_stack_memory: usize,
        state: &mut Self::StoredState,
        callback: process::FunctionCall,
    ) -> Result<usize, usize>;

    /// Context switch to a specific process; returns the process's stack
    /// pointer when it next enters the kernel and why it did.
    fn switch_to_process(&self, stack_pointer: usize, state: &mut Self::StoredState) -> (usize, ContextSwitchReason);
}

/// Helper function for converting raw values passed back from an
/// application into a `Syscall` type in Tock.
pub fn arguments_to_syscall(syscall_number: u8, r0: usize, r1: usize, r2: usize, r3: usize) -> (r: Option<Syscall>)
    ensures
        r == spec_arguments_to_syscall(syscall_number, r0, r1, r2, r3),
{
    match syscall_number {
        0 => Some(Syscall::YIELD),
        1 => Some(Syscall::SUBSCRIBE { driver_number: r0, subdriver_number: r1, callback_ptr: r2, appdata: r3 }),
        2 => Some(Syscall::COMMAND { driver_number: r0, subdriver_number: r1, arg0: r2, arg1: r3 }),
        3 => Some(Syscall::ALLOW { driver_number: r0, subdriver_number: r1, allow_address: r2, allow_size: r3 }),
        4 => Some(Syscall::MEMOP { operand: r0, arg0: r1 }),
        _ => None,
    }
}

} // verus!
