//! Interface for led.

use vstd::prelude::*;
use crate::hil::gpio;

verus! {

pub trait Led {
    fn init(&mut self);
    fn on(&mut self);
    fn off(&mut self);
    fn toggle(&mut self);
    fn read(&self) -> bool;
}
/// An LED whose pin is high when it is on.
pub struct LedHigh<'a, P: gpio::Pin> {
    pub pin: &'a mut P,
}

/// An LED whose pin is low when it is on.
pub struct LedLow<'a, P: gpio::Pin> {
    pub pin: &'a mut P,
}

impl<'a, P: gpio::Pin> LedHigh<'a, P> {
    /// The pin that drives the LED.
    pub open spec fn spec_pin(&self) -> &P {
        &*self.pin
    }

    /// An LED driven by `p`.
    pub fn new(p: &'a mut P) -> (r: LedHigh<'a, P>)
        ensures
            *r.pin == *old(p),
            *final(p) == *final(r.pin),
    {
        LedHigh { pin: p }
    }
}

impl<'a, P: gpio::Pin> LedLow<'a, P> {
    /// The pin that drives the LED.
    pub open spec fn spec_pin(&self) -> &P {
        &*self.pin
    }

    /// An LED driven by `p`.
    pub fn new(p: &'a mut P) -> (r: LedLow<'a, P>)
        ensures
            *r.pin == *old(p),
            *final(p) == *final(r.pin),
    {
        LedLow { pin: p }
    }
}

impl<'a, P: gpio::Pin> Led for LedHigh<'a, P> {
    /// Makes the pin an output.
    fn init(&mut self)
        ensures
            *final(self).pin == *old(self).pin,
            exists|c: gpio::Configuration| #[trigger] call_ensures(<P as gpio::Configure>::make_output, (&*old(self).pin,), c),
    {
        self.pin.make_output();
    }

    /// Turns the LED on: the pin is set.
    fn on(&mut self)
        ensures
            *final(self).pin == *old(self).pin,
            call_ensures(<P as gpio::Output>::set, (&*old(self).pin,), ()),
    {
        self.pin.set();
    }

    /// Turns the LED off: the pin is cleared.
    fn off(&mut self)
        ensures
            *final(self).pin == *old(self).pin,
            call_ensures(<P as gpio::Output>::clear, (&*old(self).pin,), ()),
    {
        self.pin.clear();
    }

    /// Toggles the LED: the pin is toggled.
    fn toggle(&mut self)
        ensures
            *final(self).pin == *old(self).pin,
            exists|b: bool| #[trigger] call_ensures(<P as gpio::Output>::toggle, (&*old(self).pin,), b),
    {
        self.pin.toggle();
    }

    /// Whether the LED is on: the pin's level.
    fn read(&self) -> (r: bool)
        ensures
            call_ensures(<P as gpio::Input>::read, (self.spec_pin(),), r),
    {
        self.pin.read()
    }
}

impl<'a, P: gpio::Pin> Led for LedLow<'a, P> {
    /// Makes the pin an output.
    fn init(&mut self)
        ensures
            *final(self).pin == *old(self).pin,
            exists|c: gpio::Configuration| #[trigger] call_ensures(<P as gpio::Configure>::make_output, (&*old(self).pin,), c),
    {
        self.pin.make_output();
    }

    /// Turns the LED on: the pin is cleared.
    fn on(&mut self)
        ensures
            *final(self).pin == *old(self).pin,
            call_ensures(<P as gpio::Output>::clear, (&*old(self).pin,), ()),
    {
        self.pin.clear();
    }

    /// Turns the LED off: the pin is set.
    fn off(&mut self)
        ensures
            *final(self).pin == *old(self).pin,
            call_ensures(<P as gpio::Output>::set, (&*old(self).pin,), ()),
    {
        self.pin.set();
    }

    /// Toggles the LED: the pin is toggled.
    fn toggle(&mut self)
        ensures
            *final(self).pin == *old(self).pin,
            exists|b: bool| #[trigger] call_ensures(<P as gpio::Output>::toggle, (&*old(self).pin,), b),
    {
        self.pin.toggle();
    }

    /// Whether the LED is on: the pin's level, inverted.
    fn read(&self) -> (r: bool)
        ensures
            call_ensures(<P as gpio::Input>::read, (self.spec_pin(),), !r),
    {
        !self.pin.read()
    }
}

} // verus!
