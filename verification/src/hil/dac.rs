//! Interface for dac.

use vstd::prelude::*;
use crate::returncode::ReturnCode;

verus! {

pub trait DacChannel {
    fn initialize(&self) -> ReturnCode;
    fn set_value(&self, value: usize) -> ReturnCode;
}

} // verus!
