//! Components for boards: factories for the kernel's drivers.

pub mod nrf51822;
