//! Interface for radio.

use vstd::prelude::*;
use crate::returncode::ReturnCode;

verus! {

pub trait TxClient {
    fn send_done(&self, buf: &'static mut [u8], acked: bool,
                 result: ReturnCode);
}
pub trait RxClient {
    fn receive(&self, buf: &'static mut [u8], frame_len: usize,
               crc_valid: bool, result: ReturnCode);
}
pub trait ConfigClient {
    fn config_done(&self, result: ReturnCode);
}
pub trait PowerClient {
    fn changed(&self, on: bool);
}
pub const MIN_MHR_SIZE: usize = 9;
pub const MFR_SIZE: usize = 2;
pub const MAX_MTU: usize = 127;
pub const MIN_FRAME_SIZE: usize = MIN_MHR_SIZE + MFR_SIZE;
pub const MAX_FRAME_SIZE: usize = MAX_MTU;
pub const PSDU_OFFSET: usize = 2;
pub const MAX_BUF_SIZE: usize = PSDU_OFFSET + MAX_MTU;
pub const MIN_PAYLOAD_OFFSET: usize = PSDU_OFFSET + MIN_MHR_SIZE;
pub trait Radio: RadioConfig + RadioData { }
pub trait RadioConfig {
    fn initialize(&self, spi_buf: &'static mut [u8],
                  reg_write: &'static mut [u8],
                  reg_read: &'static mut [u8]) -> ReturnCode;
    fn reset(&self) -> ReturnCode;
    fn start(&self) -> ReturnCode;
    fn stop(&self) -> ReturnCode;
    fn is_on(&self) -> bool;
    fn busy(&self) -> bool;
    fn set_power_client(&self, client: &'static dyn PowerClient);
    fn config_commit(&self);
    fn set_config_client(&self, client: &'static dyn ConfigClient);
    fn get_address(&self) -> u16;
    fn get_address_long(&self) -> [u8; 8];
    fn get_pan(&self) -> u16;
    fn get_tx_power(&self) -> i8;
    fn get_channel(&self) -> u8;
    fn set_address(&self, addr: u16);
    fn set_address_long(&self, addr: [u8; 8]);
    fn set_pan(&self, id: u16);
    fn set_tx_power(&self, power: i8) -> ReturnCode;
    fn set_channel(&self, chan: u8) -> ReturnCode;
}
pub trait RadioData {
    fn set_transmit_client(&self, client: &'static dyn TxClient);
    fn set_receive_client(&self, client: &'static dyn RxClient,
                          receive_buffer: &'static mut [u8]);
    fn set_receive_buffer(&self, receive_buffer: &'static mut [u8]);
    fn transmit(&self, spi_buf: &'static mut [u8], frame_len: usize) -> (ReturnCode, Option<&'static mut [u8]>);
}

} // verus!
