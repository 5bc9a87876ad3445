//! Interface for i2c.

use vstd::prelude::*;

verus! {

#[derive(Clone, Copy, Debug, PartialEq, Eq, Structural)]
pub enum Error {
    AddressNak,
    DataNak,

    ArbitrationLost,
    Overrun,

    CommandComplete,
}
impl Error {
    /// The text the error is displayed as.
    pub fn description(&self) -> (r: &'static str)
        ensures
            *self == Error::AddressNak ==> r@ == "I2C Address Not Acknowledged"@,
            *self == Error::DataNak ==> r@ == "I2C Data Not Acknowledged"@,
            *self == Error::ArbitrationLost ==> r@ == "I2C Bus Arbitration Lost"@,
            *self == Error::Overrun ==> r@ == "I2C receive overrun"@,
            *self == Error::CommandComplete ==> r@ == "I2C Command Completed"@,
    {
        match *self {
            Error::AddressNak => "I2C Address Not Acknowledged",
            Error::DataNak => "I2C Data Not Acknowledged",
            Error::ArbitrationLost => "I2C Bus Arbitration Lost",
            Error::Overrun => "I2C receive overrun",
            Error::CommandComplete => "I2C Command Completed",
        }
    }
}
#[derive(Clone, Copy, Debug)]
pub enum SlaveTransmissionType { Write, Read, }
pub trait I2CMaster {
    fn enable(&self);
    fn disable(&self);
    fn write_read(&self, addr: u8, data: &'static mut [u8],
                  write_len: u8, read_len: u8);
    fn write(&self, addr: u8, data: &'static mut [u8], len: u8);
    fn read(&self, addr: u8, buffer: &'static mut [u8], len: u8);
}
pub trait I2CSlave {
    fn enable(&self);
    fn disable(&self);
    fn set_address(&self, addr: u8);
    fn write_receive(&self, data: &'static mut [u8], max_len: u8);
    fn read_send(&self, data: &'static mut [u8], max_len: u8);
    fn listen(&self);
}
pub trait I2CMasterSlave: I2CMaster + I2CSlave { }
pub trait I2CHwMasterClient {
    fn command_complete(&self, buffer: &'static mut [u8],
                        error: Error);
}
pub trait I2CHwSlaveClient {
    fn command_complete(&self, buffer: &'static mut [u8], length: u8,
                        transmission_type: SlaveTransmissionType);
    fn read_expected(&self);
    fn write_expected(&self);
}
pub trait I2CDevice {
    fn enable(&self);
    fn disable(&self);
    fn write_read(&self, data: &'static mut [u8], write_len: u8,
                  read_len: u8);
    fn write(&self, data: &'static mut [u8], len: u8);
    fn read(&self, buffer: &'static mut [u8], len: u8);
}
pub trait I2CClient {
    fn command_complete(&self, buffer: &'static mut [u8],
                        error: Error);
}

} // verus!
