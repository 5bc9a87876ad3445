//! Interface for spi.

use vstd::prelude::*;
use crate::returncode::ReturnCode;
use core::option::Option;

verus! {

#[derive(Clone, Copy, Debug)]
pub enum DataOrder { MSBFirst, LSBFirst, }
#[derive(Clone, Copy, Debug, PartialEq, Structural)]
pub enum ClockPolarity { IdleLow, IdleHigh, }
#[derive(Clone, Copy, Debug, PartialEq, Structural)]
pub enum ClockPhase { SampleLeading, SampleTrailing, }
pub trait SpiMasterClient {
    fn read_write_done(&self, write_buffer: &'static mut [u8],
                       read_buffer: Option<&'static mut [u8]>,
                       len: usize);
}
pub trait SpiMaster {
    type ChipSelect: Copy;
    fn set_client(&self, client: &'static dyn SpiMasterClient);
    fn init(&self);
    fn is_busy(&self) -> bool;
    fn read_write_bytes(&self, write_buffer: &'static mut [u8],
                        read_buffer: Option<&'static mut [u8]>,
                        len: usize) -> ReturnCode;
    fn write_byte(&self, val: u8);
    fn read_byte(&self) -> u8;
    fn read_write_byte(&self, val: u8) -> u8;
    fn specify_chip_select(&self, cs: Self::ChipSelect);
    fn set_rate(&self, rate: u32) -> u32;
    fn get_rate(&self) -> u32;
    fn set_clock(&self, polarity: ClockPolarity);
    fn get_clock(&self) -> ClockPolarity;
    fn set_phase(&self, phase: ClockPhase);
    fn get_phase(&self) -> ClockPhase;
    fn hold_low(&self);
    fn release_low(&self);
}
pub trait SpiMasterDevice {
    fn configure(&self, cpol: ClockPolarity, cpal: ClockPhase,
                 rate: u32);
    fn read_write_bytes(&self, write_buffer: &'static mut [u8],
                        read_buffer: Option<&'static mut [u8]>,
                        len: usize) -> ReturnCode;
    fn set_polarity(&self, cpol: ClockPolarity);
    fn set_phase(&self, cpal: ClockPhase);
    fn set_rate(&self, rate: u32);
    fn get_polarity(&self) -> ClockPolarity;
    fn get_phase(&self) -> ClockPhase;
    fn get_rate(&self) -> u32;
}
pub trait SpiSlaveClient {
    fn chip_selected(&self);
    fn read_write_done(&self, write_buffer: Option<&'static mut [u8]>,
                       read_buffer: Option<&'static mut [u8]>,
                       len: usize);
}
pub trait SpiSlave {
    fn init(&self);
    fn has_client(&self) -> bool;
    fn set_client(&self, client: Option<&'static dyn SpiSlaveClient>);
    fn set_write_byte(&self, write_byte: u8);
    fn read_write_bytes(&self,
                        write_buffer: Option<&'static mut [u8]>,
                        read_buffer: Option<&'static mut [u8]>,
                        len: usize) -> ReturnCode;
    fn set_clock(&self, polarity: ClockPolarity);
    fn get_clock(&self) -> ClockPolarity;
    fn set_phase(&self, phase: ClockPhase);
    fn get_phase(&self) -> ClockPhase;
}
pub trait SpiSlaveDevice {
    fn configure(&self, cpol: ClockPolarity, cpal: ClockPhase);
    fn read_write_bytes(&self,
                        write_buffer: Option<&'static mut [u8]>,
                        read_buffer: Option<&'static mut [u8]>,
                        len: usize) -> ReturnCode;
    fn set_polarity(&self, cpol: ClockPolarity);
    fn get_polarity(&self) -> ClockPolarity;
    fn set_phase(&self, cpal: ClockPhase);
    fn get_phase(&self) -> ClockPhase;
}

} // verus!
