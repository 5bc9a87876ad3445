//! Peripheral Management
//!
//! Most peripherals are implemented as memory mapped I/O (MMIO).
//! Intrinsically, this means that accessing a peripheral requires
//! dereferencing a raw pointer that points to the peripheral's memory.
//! A peripheral may also need its clock enabled before it is accessed.
//! The `PeripheralManager` runs the peripheral's hooks around an access.

use vstd::prelude::*;
use crate::platform::ClockInterface;

verus! {

/// A structure encapsulating a peripheral should implement this trait.
pub trait PeripheralManagement<C: ClockInterface> {
    type RegisterType;

    /// How to get a reference to the physical hardware registers (the MMIO
    /// struct).
    fn get_registers(&self) -> &Self::RegisterType;

    /// Which clock feeds this peripheral.
    fn get_clock(&self) -> &C;

    /// Called before peripheral access.
    fn before_peripheral_access(&self, clock: &C, registers: &Self::RegisterType);

    /// Called after peripheral access.
    fn after_peripheral_access(&self, clock: &C, registers: &Self::RegisterType);
}

/// Structures encapsulating peripheral hardware: the registers, the
/// peripheral and its clock, while the peripheral is being accessed.
pub struct PeripheralManager<'a, H: PeripheralManagement<C>, C: ClockInterface> {
    pub registers: &'a H::RegisterType,
    peripheral_hardware: &'a H,
    clock: &'a C,
}

impl<'a, H: PeripheralManagement<C>, C: ClockInterface> PeripheralManager<'a, H, C> {
    /// The peripheral being accessed.
    pub closed spec fn spec_hardware(&self) -> &'a H {
        self.peripheral_hardware
    }

    /// The peripheral's registers.
    pub closed spec fn spec_registers(&self) -> &'a H::RegisterType {
        self.registers
    }

    /// The peripheral's clock.
    pub closed spec fn spec_clock(&self) -> &'a C {
        self.clock
    }

    /// Starts an access to the peripheral: looks up its registers and
    /// clock, and runs its `before_peripheral_access` hook with them.
    pub fn new(peripheral_hardware: &'a H) -> (r: PeripheralManager<'a, H, C>)
        ensures
            r.spec_hardware() == peripheral_hardware,
            call_ensures(<H as PeripheralManagement<C>>::get_registers, (peripheral_hardware,), r.spec_registers()),
            call_ensures(<H as PeripheralManagement<C>>::get_clock, (peripheral_hardware,), r.spec_clock()),
            call_ensures(<H as PeripheralManagement<C>>::before_peripheral_access,
                (peripheral_hardware, r.spec_clock(), r.spec_registers()), ()),
    {
        let registers = peripheral_hardware.get_registers();
        let clock = peripheral_hardware.get_clock();
        peripheral_hardware.before_peripheral_access(clock, registers);
        PeripheralManager { registers, peripheral_hardware, clock }
    }

    /// Ends the access to the peripheral: runs its
    /// `after_peripheral_access` hook.
    pub fn finish(self)
        ensures
            call_ensures(<H as PeripheralManagement<C>>::after_peripheral_access,
                (self.spec_hardware(), self.spec_clock(), self.spec_registers()), ()),
    {
        self.peripheral_hardware.after_peripheral_access(self.clock, self.registers);
    }
}

} // verus!
