//! Interface for flash.

use vstd::prelude::*;
use crate::returncode::ReturnCode;

verus! {

#[derive(Clone, Copy, Debug, PartialEq, Eq, Structural)]
pub enum Error {
    CommandComplete,
    FlashError,
}
pub trait HasClient<'a, C> {
    fn set_client(&'a self, client: &'a C);
}
pub trait Flash {
    /// A buffer holding the bytes of one page of flash.
    type Page;
    fn read_page(&self, page_number: usize,
                 buf: &'static mut Self::Page) -> ReturnCode;
    fn write_page(&self, page_number: usize,
                  buf: &'static mut Self::Page) -> ReturnCode;
    fn erase_page(&self, page_number: usize) -> ReturnCode;
}
pub trait Client<F: Flash> {
    fn read_complete(&self, read_buffer: &'static mut F::Page,
                     error: Error);
    fn write_complete(&self, write_buffer: &'static mut F::Page,
                      error: Error);
    fn erase_complete(&self, error: Error);
}

} // verus!
