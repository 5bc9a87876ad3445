//! Components extend the functionality of the Tock kernel through a
//! simple factory method interface.

use vstd::prelude::*;

verus! {

/// A component encapsulates peripheral-specific and capsule-specific
/// initialization for the Tock OS kernel in a factory method, which
/// reduces repeated code and simplifies the boot sequence.
pub trait Component {
    /// An optional type to specify the chip or board specific static
    /// memory that a component needs to setup the output object(s).
    type StaticInput;

    /// The type (e.g., capsule, peripheral) that this implementation of
    /// Component produces via `finalize()`. This is typically a static
    /// reference (`&'static`).
    type Output;

    /// A factory method that returns an instance of the Output type of
    /// this Component implementation.
    fn finalize(&mut self, static_memory: Self::StaticInput) -> Self::Output;
}

} // verus!
