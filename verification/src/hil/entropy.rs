//! Interface for entropy.

use vstd::prelude::*;
use crate::returncode::ReturnCode;

verus! {

#[derive(Debug, PartialEq, Eq, Structural)]
pub enum Continue {
    More,
    Done,
}
pub trait Entropy32<'a> {
    fn get(&self) -> ReturnCode;
    fn cancel(&self) -> ReturnCode;
    fn set_client(&'a self, client: &'a dyn Client32);
}
pub trait Client32 {
    fn entropy_available(&self,
                         entropy: &[u32],
                         error: ReturnCode) -> Continue;
}
pub trait Entropy8<'a> {
    fn get(&self) -> ReturnCode;
    fn cancel(&self) -> ReturnCode;
    fn set_client(&'a self, client: &'a dyn Client8);
}
pub trait Client8 {
    fn entropy_available(&self, entropy: &[u8],
                         error: ReturnCode) -> Continue;
}

} // verus!
