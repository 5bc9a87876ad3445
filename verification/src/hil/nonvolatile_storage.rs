//! Interface for nonvolatile storage.

use vstd::prelude::*;
use crate::returncode::ReturnCode;

verus! {

pub trait NonvolatileStorage<'a> {
    fn set_client(&self,
                  client: &'a dyn NonvolatileStorageClient<'a>);
    fn read(&self, buffer: &'a mut [u8], address: usize,
            length: usize) -> ReturnCode;
    fn write(&self, buffer: &'a mut [u8], address: usize,
             length: usize) -> ReturnCode;
}
pub trait NonvolatileStorageClient<'a> {
    fn read_done(&self, buffer: &'a mut [u8], length: usize);
    fn write_done(&self, buffer: &'a mut [u8], length: usize);
}

} // verus!
