//! Interfaces for implementing boards and chips in Tock.

use vstd::prelude::*;
use crate::syscall;

pub mod mpu;
pub mod systick;

verus! {

/// Interface for individual boards: gives the kernel the driver for a
/// driver number.
pub trait Platform {
    /// The driver `driver_num` names, if the board has one.
    type Driver: crate::driver::Driver;

    /// Looks the driver up and hands it (or `None`, if the platform has no
    /// such driver) to `f`; returns what `f` returns.
    fn with_driver<F, R>(&self, driver_num: usize, f: F) -> (r: R)
        where
            F: FnOnce(Option<&Self::Driver>) -> R,
        requires
            forall|d: Option<&Self::Driver>| f.requires((d,)),
        ensures
            exists|d: Option<&Self::Driver>| #[trigger] f.ensures((d,), r),
    ;
}

/// Interface for individual MCUs.
pub trait Chip {
    /// The particular memory protection unit (MPU) for this chip.
    type MPU: mpu::MPU;

    /// The implementation of the interface between userspace and the
    /// kernel for this specific chip.
    type UserspaceKernelBoundary: syscall::UserspaceKernelBoundary;

    /// The implementation of the timer used to create the timeslices
    /// provided to applications.
    type SysTick: systick::SysTick;

    /// The kernel calls this function to tell the chip to check for all
    /// pending interrupts and to correctly dispatch them.
    fn service_pending_interrupts(&self);

    /// Ask the chip to check if there are any pending interrupts.
    fn has_pending_interrupts(&self) -> bool;

    /// Returns a reference to the implementation for the MPU on this chip.
    fn mpu(&self) -> &Self::MPU;

    /// Returns a reference to the implementation for the SysTick on this chip.
    fn systick(&self) -> &Self::SysTick;

    /// Returns a reference to the implementation for the interface between
    /// userspace and kernelspace.
    fn userspace_kernel_boundary(&self) -> &Self::UserspaceKernelBoundary;

    /// Called when there is nothing left for the chip to do and it should
    /// enter a low power sleep state.
    fn sleep(&self);

    /// Run a function in an atomic state, which means that interrupts are
    /// disabled so that an interrupt will not fire during the passed in
    /// function's execution.
    fn atomic<F, R>(&self, f: F) -> R
        where
            F: FnOnce() -> R,
    ;
}

/// Generic operations that clock-like things are expected to support.
pub trait ClockInterface {
    fn is_enabled(&self) -> bool;

    fn enable(&self);

    fn disable(&self);
}

/// Helper struct for interfaces that expect clocks, but have no clock
/// control.
pub struct NoClockControl {}

impl ClockInterface for NoClockControl {
    fn is_enabled(&self) -> (r: bool)
        ensures
            r,
    {
        true
    }

    fn enable(&self) {
    }

    fn disable(&self) {
    }
}

} // verus!
