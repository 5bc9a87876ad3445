//! Interface for watchdog.

use vstd::prelude::*;

verus! {

pub trait Watchdog {
    fn start(&self, period: usize);
    fn stop(&self);
    fn tickle(&self);
}

} // verus!
