//! Interface for pwm.

use vstd::prelude::*;
use crate::returncode::ReturnCode;

verus! {

pub trait Pwm {
    type Pin;
    fn start(&self, pin: &Self::Pin, frequency_hz: usize,
             duty_cycle: usize) -> ReturnCode;
    fn stop(&self, pin: &Self::Pin) -> ReturnCode;
    fn get_maximum_frequency_hz(&self) -> usize;
    fn get_maximum_duty_cycle(&self) -> usize;
}
pub trait PwmPin {
    fn start(&self, frequency_hz: usize, duty_cycle: usize) -> ReturnCode;
    fn stop(&self) -> ReturnCode;
    fn get_maximum_frequency_hz(&self) -> usize;
    fn get_maximum_duty_cycle(&self) -> usize;
}

} // verus!
