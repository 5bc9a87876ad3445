//! Interface for configuring the Memory Protection Unit.
//!
//! Addresses are carried as `usize` values.

use vstd::prelude::*;

verus! {

/// User mode access permissions.
#[derive(Clone, Copy, Debug, PartialEq, Eq, Structural)]
pub enum Permissions {
    ReadWriteExecute,
    ReadWriteOnly,
    ReadExecuteOnly,
    ReadOnly,
    ExecuteOnly,
}

/// MPU region: a start address and a size in bytes.
#[derive(Clone, Copy, Debug, PartialEq, Eq, Structural)]
pub struct Region {
    start_address: usize,
    size: usize,
}

impl Region {
    pub closed spec fn spec_start_address(self) -> usize {
        self.start_address
    }

    pub closed spec fn spec_size(self) -> usize {
        self.size
    }

    /// Create a new MPU region with a given starting point and length in bytes.
    pub fn new(start_address: usize, size: usize) -> (r: Region)
        ensures
            r.spec_start_address() == start_address,
            r.spec_size() == size,
    {
        Region { start_address: start_address, size: size }
    }

    /// Getter: retrieve start address of MPU region.
    pub fn start_address(&self) -> (r: usize)
        ensures
            r == self.spec_start_address(),
    {
        self.start_address
    }

    /// Getter: retrieve length of MPU region.
    pub fn size(&self) -> (r: usize)
        ensures
            r == self.spec_size(),
    {
        self.size
    }
}

/// Null type for the default type of the `MpuConfig` type in an
/// implementation of the `MPU` trait.
#[derive(Clone, Copy, Debug, PartialEq, Eq, Structural)]
pub struct MpuConfig;

impl Default for MpuConfig {
    fn default() -> (r: MpuConfig)
        ensures
            r == MpuConfig,
    {
        MpuConfig
    }
}

/// The generic trait that particular memory protection unit
/// implementations need to implement. The default methods describe a
/// chip without an MPU, which protects nothing and so can always grant a
/// region that fits.
pub trait MPU {
    /// MPU-specific state that defines a particular configuration for the
    /// MPU.
    type MpuConfig: Default;

    /// Enables the MPU.
    fn enable_mpu(&self) {
    }

    /// Disables the MPU.
    fn disable_mpu(&self) {
    }

    /// Returns the maximum number of regions supported by the MPU.
    fn number_total_regions(&self) -> (r: usize)
        default_ensures
            r == 0,
    {
        0
    }

    /// Allocates a new MPU region of at least `min_region_size` bytes
    /// inside the given unallocated memory.
    fn allocate_region(
        &self,
        unallocated_memory_start: usize,
        unallocated_memory_size: usize,
        min_region_size: usize,
        permissions: Permissions,
        config: &mut Self::MpuConfig,
    ) -> (r: Option<Region>)
        default_ensures
            r == if min_region_size > unallocated_memory_size {
                None
            } else {
                Some(Region::new_spec(unallocated_memory_start, min_region_size))
            },
    {
        if min_region_size > unallocated_memory_size {
            None
        } else {
            Some(Region::new(unallocated_memory_start, min_region_size))
        }
    }

    /// Chooses the location for a process's memory, and allocates an MPU
    /// region covering the app-owned part; returns the start and size of
    /// the memory.
    fn allocate_app_memory_region(
        &self,
        unallocated_memory_start: usize,
        unallocated_memory_size: usize,
        min_memory_size: usize,
        initial_app_memory_size: usize,
        initial_kernel_memory_size: usize,
        permissions: Permissions,
        config: &mut Self::MpuConfig,
    ) -> (r: Option<(usize, usize)>)
        requires
            initial_app_memory_size + initial_kernel_memory_size <= usize::MAX,
        default_ensures
            r == ({
                let memory_size = if min_memory_size >= initial_app_memory_size + initial_kernel_memory_size {
                    min_memory_size as int
                } else {
                    initial_app_memory_size + initial_kernel_memory_size
                };
                if memory_size > unallocated_memory_size {
                    None
                } else {
                    Some((unallocated_memory_start, memory_size as usize))
                }
            }),
    {
        let total = initial_app_memory_size + initial_kernel_memory_size;
        let memory_size = if min_memory_size >= total { min_memory_size } else { total };
        if memory_size > unallocated_memory_size {
            None
        } else {
            Some((unallocated_memory_start, memory_size))
        }
    }

    /// Updates the MPU region for app-owned memory, which ends at
    /// `app_memory_break`; fails if the app's memory would overlap the
    /// kernel-owned memory that starts at `kernel_memory_break`.
    fn update_app_memory_region(
        &self,
        app_memory_break: usize,
        kernel_memory_break: usize,
        permissions: Permissions,
        config: &mut Self::MpuConfig,
    ) -> (r: Result<(), ()>)
        default_ensures
            r is Ok <==> app_memory_break <= kernel_memory_break,
    {
        if app_memory_break > kernel_memory_break {
            Err(())
        } else {
            Ok(())
        }
    }

    /// Configures the MPU with the provided region configuration.
    fn configure_mpu(&self, config: &Self::MpuConfig) {
    }
}

impl Region {
    /// The region that `new` builds.
    pub closed spec fn new_spec(start_address: usize, size: usize) -> Region {
        Region { start_address, size }
    }
}

/// Implement default MPU trait for unit: a chip without an MPU.
impl MPU for () {
    type MpuConfig = MpuConfig;
}

} // verus!
