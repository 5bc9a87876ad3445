//! Interface for rng.

use vstd::prelude::*;
use crate::returncode::ReturnCode;

verus! {

#[derive(Debug, PartialEq, Eq, Structural)]
pub enum Continue {
    More,
    Done,
}
pub trait Rng<'a> {
    fn get(&self) -> ReturnCode;
    fn cancel(&self) -> ReturnCode;
    fn set_client(&'a self, client: &'a dyn Client);
}
pub trait Client {
    fn randomness_available(&self,
                            randomness: &[u32],
                            error: ReturnCode) -> Continue;
}
pub trait Random<'a> {
    fn initialize(&'a self);
    fn reseed(&self, seed: u32);
    fn random(&self) -> u32;
}

} // verus!
