//! Interface for gpio async.

use vstd::prelude::*;
use crate::hil;
use crate::returncode::ReturnCode;

verus! {

pub trait Port {
    fn disable(&self, pin: usize) -> ReturnCode;
    fn make_output(&self, pin: usize) -> ReturnCode;
    fn make_input(&self, pin: usize, mode: hil::gpio::FloatingState) -> ReturnCode;
    fn read(&self, pin: usize) -> ReturnCode;
    fn toggle(&self, pin: usize) -> ReturnCode;
    fn set(&self, pin: usize) -> ReturnCode;
    fn clear(&self, pin: usize) -> ReturnCode;
    fn enable_interrupt(&self, pin: usize,
                        mode: hil::gpio::InterruptEdge) -> ReturnCode;
    fn disable_interrupt(&self, pin: usize) -> ReturnCode;
    fn is_pending(&self, pin: usize) -> bool;
}
pub trait Client {
    fn fired(&self, pin: usize, identifier: usize);
    fn done(&self, value: usize);
}

} // verus!
