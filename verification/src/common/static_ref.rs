//! Wrapper type for safe pointers to static memory, such as the registers
//! of a peripheral; the memory is named by its address.

use vstd::prelude::*;
use core::marker::PhantomData;

verus! {

/// A pointer to statically allocated memory of type `T`, such as a memory
/// mapped register, carried as its address.
pub struct StaticRef<T> {
    ptr: usize,
    _phantom: PhantomData<T>,
}

impl<T> StaticRef<T> {
    pub closed spec fn spec_address(&self) -> usize {
        self.ptr
    }

    /// Create a new `StaticRef` from the address of the memory.
    pub fn new(ptr: usize) -> (r: StaticRef<T>)
        ensures
            r.spec_address() == ptr,
    {
        StaticRef { ptr: ptr, _phantom: PhantomData }
    }

    /// The address of the memory.
    pub fn address(&self) -> (r: usize)
        ensures
            r == self.spec_address(),
    {
        self.ptr
    }
}

impl<T> Clone for StaticRef<T> {
    fn clone(&self) -> (r: Self)
        ensures
            r.spec_address() == self.spec_address(),
    {
        StaticRef { ptr: self.ptr, _phantom: PhantomData }
    }
}

impl<T> Copy for StaticRef<T> {
}

} // verus!
