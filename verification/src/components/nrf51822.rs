//! Component for communicating with the nRF51822 (BLE): it holds the UART
//! and the reset pin the serialization driver uses. That driver belongs to
//! the capsules, which this crate does not include, so the component has
//! no `finalize` that builds it here.

use vstd::prelude::*;
use crate::hil;

verus! {

/// The UART and reset pin of an nRF51822.
pub struct Nrf51822Component<'a, U: hil::uart::UartAdvanced<'a>, G: hil::gpio::Pin> {
    uart: &'a U,
    reset_pin: &'a G,
}

impl<'a, U: hil::uart::UartAdvanced<'a>, G: hil::gpio::Pin> Nrf51822Component<'a, U, G> {
    pub closed spec fn spec_uart(&self) -> &'a U {
        self.uart
    }

    pub closed spec fn spec_reset_pin(&self) -> &'a G {
        self.reset_pin
    }

    /// The component for the nRF51822 on `uart` with reset pin
    /// `reset_pin`.
    pub fn new(uart: &'a U, reset_pin: &'a G) -> (r: Nrf51822Component<'a, U, G>)
        ensures
            r.spec_uart() == uart,
            r.spec_reset_pin() == reset_pin,
    {
        Nrf51822Component { uart: uart, reset_pin: reset_pin }
    }
}

} // verus!
