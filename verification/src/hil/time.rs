//! Interface for time.

use vstd::prelude::*;
use crate::ReturnCode;

verus! {

pub trait Time<W = u32> {
    type Frequency: Frequency;
    fn now(&self) -> W;
    fn max_tics(&self) -> W;
}
pub trait Counter<W = u32>: Time<W> {
    fn start(&self) -> ReturnCode;
    fn stop(&self) -> ReturnCode;
    fn is_running(&self) -> bool;
}
pub trait Frequency {
    fn frequency() -> u32;
}
#[derive(Debug)]
pub struct Freq16MHz;
impl Frequency for Freq16MHz {
    fn frequency() -> (r: u32)
        ensures
            r == 16000000,
    {
        16000000
    }
}
#[derive(Debug)]
pub struct Freq32KHz;
impl Frequency for Freq32KHz {
    fn frequency() -> (r: u32)
        ensures
            r == 32768,
    {
        32768
    }
}
#[derive(Debug)]
pub struct Freq16KHz;
impl Frequency for Freq16KHz {
    fn frequency() -> (r: u32)
        ensures
            r == 16000,
    {
        16000
    }
}
#[derive(Debug)]
pub struct Freq1KHz;
impl Frequency for Freq1KHz {
    fn frequency() -> (r: u32)
        ensures
            r == 1000,
    {
        1000
    }
}
pub trait Alarm<'a, W = u32>: Time<W> {
    fn set_alarm(&self, tics: W);
    fn get_alarm(&self) -> W;
    fn set_client(&'a self, client: &'a dyn AlarmClient);
    fn is_enabled(&self) -> bool;
    fn enable(&self) { self.set_alarm(self.get_alarm()) }
    fn disable(&self);
}
pub trait AlarmClient {
    fn fired(&self);
}
pub trait Timer<'a, W = u32>: Time<W> {
    fn set_client(&'a self, client: &'a dyn TimerClient);
    fn oneshot(&self, interval: W);
    fn repeat(&self, interval: W);
    fn interval(&self) -> Option<W>;
    /// Whether the timer fires once only: it has no interval.
    fn is_oneshot(&self) -> (r: bool)
        default_ensures
            exists|i: Option<W>| #[trigger] call_ensures(Self::interval, (self,), i) && r == (i is None),
    {
        self.interval().is_none()
    }
    /// Whether the timer repeats: it has an interval.
    fn is_repeating(&self) -> (r: bool)
        default_ensures
            exists|i: Option<W>| #[trigger] call_ensures(Self::interval, (self,), i) && r == (i is Some),
    {
        self.interval().is_some()
    }
    fn time_remaining(&self) -> Option<W>;
    /// Whether the timer is running: some time remains before it fires.
    fn is_enabled(&self) -> (r: bool)
        default_ensures
            exists|t: Option<W>| #[trigger] call_ensures(Self::time_remaining, (self,), t) && r == (t is Some),
    {
        self.time_remaining().is_some()
    }
    fn cancel(&self);
}
pub trait TimerClient {
    fn fired(&self);
}

} // verus!
