//! Interface for adc.

use vstd::prelude::*;
use crate::returncode::ReturnCode;

verus! {

pub trait Adc {
    type Channel;
    fn sample(&self, channel: &Self::Channel) -> ReturnCode;
    fn sample_continuous(&self, channel: &Self::Channel,
                         frequency: u32) -> ReturnCode;
    fn stop_sampling(&self) -> ReturnCode;
    fn get_resolution_bits(&self) -> usize;
    fn get_voltage_reference_mv(&self) -> Option<usize>;
}
pub trait Client {
    fn sample_ready(&self, sample: u16);
}
pub trait AdcHighSpeed: Adc {
    fn sample_highspeed(&self, channel: &Self::Channel,
                        frequency: u32, buffer1: &'static mut [u16],
                        length1: usize, buffer2: &'static mut [u16],
                        length2: usize) -> (ReturnCode, Option<&'static mut [u16]>,
         Option<&'static mut [u16]>);
    fn provide_buffer(&self, buf: &'static mut [u16], length: usize) -> (ReturnCode, Option<&'static mut [u16]>);
    fn retrieve_buffers(&self) -> (ReturnCode, Option<&'static mut [u16]>,
         Option<&'static mut [u16]>);
}
pub trait HighSpeedClient {
    fn samples_ready(&self, buf: &'static mut [u16], length: usize);
}

} // verus!
