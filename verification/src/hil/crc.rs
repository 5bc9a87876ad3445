//! Interface for crc.

use vstd::prelude::*;
use crate::returncode::ReturnCode;

verus! {

#[derive(Clone, Copy)]
pub enum CrcAlg {
    Crc32,
    Crc32C,

    Sam4L16,
    Sam4L32,

    Sam4L32C,
}
pub trait CRC {
    fn compute(&self, data: &[u8], alg: CrcAlg) -> ReturnCode;
    fn disable(&self);
}
pub trait Client {
    fn receive_result(&self, result: u32);
}

} // verus!
