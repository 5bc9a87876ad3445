//! Interface for analog comparator.

use vstd::prelude::*;
use crate::returncode::ReturnCode;

verus! {

pub trait AnalogComparator {
    type Channel;
    fn comparison(&self, channel: &Self::Channel) -> bool;
    fn start_comparing(&self, channel: &Self::Channel) -> ReturnCode;
    fn stop_comparing(&self, channel: &Self::Channel) -> ReturnCode;
}
pub trait Client {
    fn fired(&self, channel: usize);
}

} // verus!
