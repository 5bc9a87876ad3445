//! Interface system tick timer.

use vstd::prelude::*;

verus! {

/// Interface for the system tick timer, which the kernel uses to bound
/// the time a process runs.
pub trait SysTick {
    /// Sets the timer as close as possible to the given interval in
    /// microseconds.
    fn set_timer(&self, us: u32);

    /// Returns if there is at least `us` microseconds left.
    fn greater_than(&self, us: u32) -> bool;

    /// Returns true if the timer has expired.
    fn overflowed(&self) -> bool;

    /// Resets the timer.
    fn reset(&self);

    /// Enables the timer, with or without an interrupt when it expires.
    fn enable(&self, with_interrupt: bool);
}

/// A dummy `SysTick` implementation in which the timer never expires.
impl SysTick for () {
    fn reset(&self) {
    }

    fn set_timer(&self, _us: u32) {
    }

    fn enable(&self, _with_interrupt: bool) {
    }

    fn overflowed(&self) -> (r: bool)
        ensures
            !r,
    {
        false
    }

    fn greater_than(&self, _us: u32) -> (r: bool)
        ensures
            r,
    {
        true
    }
}

} // verus!
