//! Interface for eic.

use vstd::prelude::*;

verus! {

#[derive(Debug)]
pub enum InterruptMode {
    RisingEdge,
    FallingEdge,
    HighLevel,
    LowLevel,
}
pub trait ExternalInterruptController {
    type Line;
    fn line_enable(&self, line: &Self::Line,
                   interrupt_mode: InterruptMode);
    fn line_disable(&self, line: &Self::Line);
}
pub trait Client {
    fn fired(&self);
}

} // verus!
