//! Interface for uart.

use vstd::prelude::*;
use crate::returncode::ReturnCode;

verus! {

#[derive(Clone, Copy, Debug, PartialEq, Structural)]
pub enum StopBits { One, Two, }
#[derive(Clone, Copy, Debug, PartialEq, Structural)]
pub enum Parity { NoParity, Odd, Even, }
#[derive(Clone, Copy, Debug, PartialEq, Structural)]
pub enum Width { Six, Seven, Eight, }
#[derive(Clone, Copy, Debug)]
pub struct Parameters {
    pub baud_rate: u32,
    pub width: Width,
    pub parity: Parity,
    pub stop_bits: StopBits,
    pub hw_flow_control: bool,
}
#[derive(Clone, Copy, Debug, PartialEq, Structural)]
pub enum Error {
    NoError,
    ParityError,

    FramingError,
    OverrunError,

    RepeatCallError,
    ResetError,

    Aborted,
}
pub trait Uart<'a>: Configure + Transmit<'a> + Receive<'a> { }
pub trait UartData<'a>: Transmit<'a> + Receive<'a> { }
pub trait UartAdvanced<'a>: Configure + Transmit<'a> +
 ReceiveAdvanced<'a> {
}
pub trait Client: ReceiveClient + TransmitClient { }
pub trait Configure {
    fn configure(&self, params: Parameters) -> ReturnCode;
}
pub trait Transmit<'a> {
    fn set_transmit_client(&self, client: &'a dyn TransmitClient);
    fn transmit_buffer(&self, tx_buffer: &'static mut [u8],
                       tx_len: usize) -> (ReturnCode, Option<&'static mut [u8]>);
    fn transmit_word(&self, word: u32) -> ReturnCode;
    fn transmit_abort(&self) -> ReturnCode;
}
pub trait Receive<'a> {
    fn set_receive_client(&self, client: &'a dyn ReceiveClient);
    fn receive_buffer(&self, rx_buffer: &'static mut [u8],
                      rx_len: usize) -> (ReturnCode, Option<&'static mut [u8]>);
    fn receive_word(&self) -> ReturnCode;
    fn receive_abort(&self) -> ReturnCode;
}
pub trait TransmitClient {
    fn transmitted_word(&self, _rval: ReturnCode) { }
    fn transmitted_buffer(&self, tx_buffer: &'static mut [u8],
                          tx_len: usize, rval: ReturnCode);
}
pub trait ReceiveClient {
    fn received_word(&self, _word: u32, _rval: ReturnCode,
                     _error: Error) {
    }
    fn received_buffer(&self, rx_buffer: &'static mut [u8],
                       rx_len: usize, rval: ReturnCode, error: Error);
}
pub trait ReceiveAdvanced<'a>: Receive<'a> {
    fn receive_automatic(&self, rx_buffer: &'static mut [u8],
                         rx_len: usize, interbyte_timeout: u8) -> (ReturnCode, Option<&'static mut [u8]>);
}

} // verus!
