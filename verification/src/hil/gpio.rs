//! Interface for gpio.

use vstd::prelude::*;
use crate::ReturnCode;

verus! {

#[derive(Debug)]
pub enum FloatingState { PullUp, PullDown, PullNone, }
#[derive(Debug)]
pub enum InterruptEdge { RisingEdge, FallingEdge, EitherEdge, }
#[derive(Debug)]
pub enum Configuration {
    LowPower,
    Input,

    Output,
    InputOutput,

    Function,
    Other,
}
pub trait Pin: Input + Output + Configure { }
pub trait InterruptPin: Pin + Interrupt { }
pub trait InterruptValuePin: Pin + InterruptWithValue { }
pub trait Configure {
    fn configuration(&self) -> Configuration;
    fn make_output(&self) -> Configuration;
    fn disable_output(&self) -> Configuration;
    fn make_input(&self) -> Configuration;
    fn disable_input(&self) -> Configuration;
    fn deactivate_to_low_power(&self);
    fn set_floating_state(&self, state: FloatingState);
    fn floating_state(&self) -> FloatingState;
    /// Whether the pin is configured as an input (alone or with output).
    fn is_input(&self) -> (r: bool)
        default_ensures
            exists|c: Configuration| #[trigger] call_ensures(Self::configuration, (self,), c)
                && r == (c is Input || c is InputOutput),
    {
        match self.configuration() {
            Configuration::Input | Configuration::InputOutput => true,
            _ => false,
        }
    }
    /// Whether the pin is configured as an output (alone or with input).
    fn is_output(&self) -> (r: bool)
        default_ensures
            exists|c: Configuration| #[trigger] call_ensures(Self::configuration, (self,), c)
                && r == (c is Output || c is InputOutput),
    {
        match self.configuration() {
            Configuration::Output | Configuration::InputOutput =>
            true,
            _ => false,
        }
    }
}
pub trait ConfigureInputOutput: Configure {
    fn make_input_output(&self) -> Configuration;
    fn is_input_output(&self) -> bool;
}
pub trait Output {
    fn set(&self);
    fn clear(&self);
    fn toggle(&self) -> bool;
}
pub trait Input {
    fn read(&self) -> bool;
}
pub trait Interrupt: Input {
    fn set_client(&self, client: &'static dyn Client);
    fn enable_interrupts(&self, mode: InterruptEdge);
    fn disable_interrupts(&self);
    fn is_pending(&self) -> bool;
}
pub trait Client {
    fn fired(&self);
}
pub trait InterruptWithValue: Input {
    fn set_client(&self, client: &'static dyn ClientWithValue);
    fn enable_interrupts(&self, mode: InterruptEdge) -> ReturnCode;
    fn disable_interrupts(&self);
    fn is_pending(&self) -> bool;
    fn set_value(&self, value: u32);
    fn value(&self) -> u32;
}
pub trait ClientWithValue {
    fn fired(&self, value: u32);
}
/// A wrapper around an interrupt pin that passes a value of its own to
/// the client when the interrupt fires.
pub struct InterruptValueWrapper<'a, P: InterruptPin> {
    value: u32,
    client: Option<&'a dyn ClientWithValue>,
    source: &'a P,
}

impl<'a, P: InterruptPin> InterruptValueWrapper<'a, P> {
    pub closed spec fn spec_value(&self) -> u32 {
        self.value
    }

    pub closed spec fn spec_has_client(&self) -> bool {
        self.client is Some
    }

    pub closed spec fn spec_source(&self) -> &'a P {
        self.source
    }

    /// A wrapper around `pin`, with value 0 and no client.
    pub fn new(pin: &'a P) -> (r: InterruptValueWrapper<'a, P>)
        ensures
            r.spec_value() == 0,
            !r.spec_has_client(),
            r.spec_source() == pin,
    {
        InterruptValueWrapper { value: 0, client: None, source: pin }
    }


    /// Sets the value passed to the client.
    pub fn set_value(&mut self, value: u32)
        ensures
            final(self).spec_value() == value,
            final(self).spec_has_client() == old(self).spec_has_client(),
            final(self).spec_source() == old(self).spec_source(),
    {
        self.value = value;
    }

    /// The value passed to the client.
    pub fn value(&self) -> (r: u32)
        ensures
            r == self.spec_value(),
    {
        self.value
    }

    /// Sets the client to pass the value to.
    pub fn set_client(&mut self, client: &'a dyn ClientWithValue)
        ensures
            final(self).spec_value() == old(self).spec_value(),
            final(self).spec_has_client(),
            final(self).spec_source() == old(self).spec_source(),
    {
        self.client = Some(client);
    }

    /// Whether the pin's interrupt is pending.
    pub fn is_pending(&self) -> (r: bool)
        ensures
            call_ensures(<P as Interrupt>::is_pending, (self.spec_source(),), r),
    {
        self.source.is_pending()
    }

    /// Enables the pin's interrupts on `edge`.
    pub fn enable_interrupts(&self, edge: InterruptEdge) -> (r: ReturnCode)
        ensures
            r == ReturnCode::SUCCESS,
            call_ensures(<P as Interrupt>::enable_interrupts, (self.spec_source(), edge), ()),
    {
        self.source.enable_interrupts(edge);
        ReturnCode::SUCCESS
    }

    /// Disables the pin's interrupts.
    pub fn disable_interrupts(&self) {
        self.source.disable_interrupts();
    }

}

impl<P: InterruptPin + 'static> InterruptValueWrapper<'static, P> {
    /// Makes this wrapper the client of its pin, so that the pin's
    /// interrupts reach it.
    pub fn finalize(&'static self) -> (r: &'static Self)
        ensures
            r == self,
    {
        let c: &'static dyn Client = self;
        self.source.set_client(c);
        self
    }
}

impl<'a, P: InterruptPin> Client for InterruptValueWrapper<'a, P> {
    /// The pin's interrupt fired: the client gets the value.
    fn fired(&self) {
        match self.client {
            Some(c) => c.fired(self.value),
            None => {},
        }
    }
}

impl<'a, P: InterruptPin> Input for InterruptValueWrapper<'a, P> {
    /// The pin's input level.
    fn read(&self) -> (r: bool)
        ensures
            call_ensures(<P as Input>::read, (self.spec_source(),), r),
    {
        self.source.read()
    }
}

impl<'a, P: InterruptPin> Output for InterruptValueWrapper<'a, P> {
    /// Sets the pin.
    fn set(&self)
        ensures
            call_ensures(<P as Output>::set, (self.spec_source(),), ()),
    {
        self.source.set()
    }

    /// Clears the pin.
    fn clear(&self)
        ensures
            call_ensures(<P as Output>::clear, (self.spec_source(),), ()),
    {
        self.source.clear()
    }

    /// Toggles the pin; returns its new level.
    fn toggle(&self) -> (r: bool)
        ensures
            call_ensures(<P as Output>::toggle, (self.spec_source(),), r),
    {
        self.source.toggle()
    }
}

impl<'a, P: InterruptPin> Configure for InterruptValueWrapper<'a, P> {
    fn configuration(&self) -> (r: Configuration)
        ensures
            call_ensures(<P as Configure>::configuration, (self.spec_source(),), r),
    {
        self.source.configuration()
    }

    fn make_output(&self) -> (r: Configuration)
        ensures
            call_ensures(<P as Configure>::make_output, (self.spec_source(),), r),
    {
        self.source.make_output()
    }

    fn disable_output(&self) -> (r: Configuration)
        ensures
            call_ensures(<P as Configure>::disable_output, (self.spec_source(),), r),
    {
        self.source.disable_output()
    }

    fn make_input(&self) -> (r: Configuration)
        ensures
            call_ensures(<P as Configure>::make_input, (self.spec_source(),), r),
    {
        self.source.make_input()
    }

    fn disable_input(&self) -> (r: Configuration)
        ensures
            call_ensures(<P as Configure>::disable_input, (self.spec_source(),), r),
    {
        self.source.disable_input()
    }

    fn deactivate_to_low_power(&self)
        ensures
            call_ensures(<P as Configure>::deactivate_to_low_power, (self.spec_source(),), ()),
    {
        self.source.deactivate_to_low_power()
    }

    fn set_floating_state(&self, state: FloatingState)
        ensures
            call_ensures(<P as Configure>::set_floating_state, (self.spec_source(), state), ()),
    {
        self.source.set_floating_state(state)
    }

    fn floating_state(&self) -> (r: FloatingState)
        ensures
            call_ensures(<P as Configure>::floating_state, (self.spec_source(),), r),
    {
        self.source.floating_state()
    }

    /// Whether the pin is an input, as the pin says.
    fn is_input(&self) -> (r: bool)
        ensures
            call_ensures(<P as Configure>::is_input, (self.spec_source(),), r),
    {
        self.source.is_input()
    }

    /// Whether the pin is an output, as the pin says.
    fn is_output(&self) -> (r: bool)
        ensures
            call_ensures(<P as Configure>::is_output, (self.spec_source(),), r),
    {
        self.source.is_output()
    }
}

impl<'a, P: InterruptPin> Pin for InterruptValueWrapper<'a, P> {}

} // verus!
