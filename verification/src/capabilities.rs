//! Special restricted capabilities.
//!
//! A capability is a type that a board holds to show that it may call
//! certain kernel functions; those functions take a reference to one.

use vstd::prelude::*;

verus! {

/// The capability to manage processes: restart them, stop them, fault them.
pub trait ProcessManagementCapability {
}

/// The capability to run the kernel's main loop.
pub trait MainLoopCapability {
}

/// The capability to allocate memory, such as creating grants.
pub trait MemoryAllocationCapability {
}

} // verus!
