//! Interface for usb.

use vstd::prelude::*;

verus! {

pub trait UsbController {
    fn endpoint_set_buffer(&self, endpoint: usize,
                           buf: &[u8]);
    fn enable_as_device(&self, speed: DeviceSpeed);
    fn attach(&self);
    fn detach(&self);
    fn set_address(&self, addr: u16);
    fn enable_address(&self);
    fn endpoint_ctrl_out_enable(&self, endpoint: usize);
    fn endpoint_bulk_in_enable(&self, endpoint: usize);
    fn endpoint_bulk_out_enable(&self, endpoint: usize);
    fn endpoint_bulk_resume(&self, endpoint: usize);
}
pub enum DeviceSpeed { Full, Low, }
pub trait Client {
    fn enable(&self);
    fn attach(&self);
    fn bus_reset(&self);
    fn ctrl_setup(&self, endpoint: usize) -> CtrlSetupResult;
    fn ctrl_in(&self, endpoint: usize) -> CtrlInResult;
    fn ctrl_out(&self, endpoint: usize, packet_bytes: u32) -> CtrlOutResult;
    fn ctrl_status(&self, endpoint: usize);
    fn ctrl_status_complete(&self, endpoint: usize);
    fn bulk_in(&self, endpoint: usize) -> BulkInResult;
    fn bulk_out(&self, endpoint: usize, packet_bytes: u32) -> BulkOutResult;
}
#[derive(Debug)]
pub enum CtrlSetupResult {
    Success,
    OkSetAddress,
    ErrBadLength,
    ErrNoParse,
    ErrNonstandardRequest,
    ErrUnrecognizedDescriptorType,
    ErrUnrecognizedRequestType,
    ErrNoDeviceQualifier,
    ErrInvalidDeviceIndex,
    ErrInvalidConfigurationIndex,
    ErrInvalidInterfaceIndex,
    ErrInvalidStringIndex,
    ErrGeneric,
}
pub enum CtrlInResult {
    Packet(usize, bool),
    Delay,

    Error,
}
pub enum CtrlOutResult {
    Success,
    Delay,

    Halted,
}
pub enum BulkInResult {
    Packet(usize),
    Delay,

    Error,
}
pub enum BulkOutResult {
    Success,
    Delay,

    Error,
}

} // verus!
