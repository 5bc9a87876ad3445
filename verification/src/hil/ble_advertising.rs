//! Interface for ble advertising.

use vstd::prelude::*;
use crate::returncode::ReturnCode;

verus! {

pub trait BleAdvertisementDriver {
    fn transmit_advertisement(&self, buf: &'static mut [u8],
                              len: usize, channel: RadioChannel) -> &'static mut [u8];
    fn receive_advertisement(&self, channel: RadioChannel);
    fn set_receive_client(&self, client: &'static dyn RxClient);
    fn set_transmit_client(&self, client: &'static dyn TxClient);
}
pub trait BleConfig {
    fn set_tx_power(&self, power: u8) -> ReturnCode;
}
pub trait RxClient {
    fn receive_event(&self, buf: &'static mut [u8], len: u8,
                     result: ReturnCode);
}
pub trait TxClient {
    fn transmit_event(&self, result: ReturnCode);
}
#[derive(Clone, Copy, Debug, PartialEq, Structural)]
pub enum RadioChannel {
    DataChannel0,
    DataChannel1,
    DataChannel2,
    DataChannel3,
    DataChannel4,
    DataChannel5,
    DataChannel6,
    DataChannel7,
    DataChannel8,
    DataChannel9,
    DataChannel10,
    DataChannel11,
    DataChannel12,
    DataChannel13,
    DataChannel14,
    DataChannel15,
    DataChannel16,
    DataChannel17,
    DataChannel18,
    DataChannel19,
    DataChannel20,
    DataChannel21,
    DataChannel22,
    DataChannel23,
    DataChannel24,
    DataChannel25,
    DataChannel26,
    DataChannel27,
    DataChannel28,
    DataChannel29,
    DataChannel30,
    DataChannel31,
    DataChannel32,
    DataChannel33,
    DataChannel34,
    DataChannel35,
    DataChannel36,
    AdvertisingChannel37,
    AdvertisingChannel38,
    AdvertisingChannel39,
}
/// The BLE channel index of a radio channel: the data channels are 0 to
/// 36 and the advertising channels 37 to 39.
pub open spec fn channel_index(channel: RadioChannel) -> u32 {
    match channel {
        RadioChannel::DataChannel0 => 0,
        RadioChannel::DataChannel1 => 1,
        RadioChannel::DataChannel2 => 2,
        RadioChannel::DataChannel3 => 3,
        RadioChannel::DataChannel4 => 4,
        RadioChannel::DataChannel5 => 5,
        RadioChannel::DataChannel6 => 6,
        RadioChannel::DataChannel7 => 7,
        RadioChannel::DataChannel8 => 8,
        RadioChannel::DataChannel9 => 9,
        RadioChannel::DataChannel10 => 10,
        RadioChannel::DataChannel11 => 11,
        RadioChannel::DataChannel12 => 12,
        RadioChannel::DataChannel13 => 13,
        RadioChannel::DataChannel14 => 14,
        RadioChannel::DataChannel15 => 15,
        RadioChannel::DataChannel16 => 16,
        RadioChannel::DataChannel17 => 17,
        RadioChannel::DataChannel18 => 18,
        RadioChannel::DataChannel19 => 19,
        RadioChannel::DataChannel20 => 20,
        RadioChannel::DataChannel21 => 21,
        RadioChannel::DataChannel22 => 22,
        RadioChannel::DataChannel23 => 23,
        RadioChannel::DataChannel24 => 24,
        RadioChannel::DataChannel25 => 25,
        RadioChannel::DataChannel26 => 26,
        RadioChannel::DataChannel27 => 27,
        RadioChannel::DataChannel28 => 28,
        RadioChannel::DataChannel29 => 29,
        RadioChannel::DataChannel30 => 30,
        RadioChannel::DataChannel31 => 31,
        RadioChannel::DataChannel32 => 32,
        RadioChannel::DataChannel33 => 33,
        RadioChannel::DataChannel34 => 34,
        RadioChannel::DataChannel35 => 35,
        RadioChannel::DataChannel36 => 36,
        RadioChannel::AdvertisingChannel37 => 37,
        RadioChannel::AdvertisingChannel38 => 38,
        RadioChannel::AdvertisingChannel39 => 39,
    }
}

/// The value a radio channel stands for: its centre frequency minus
/// 2400 MHz (so channel 37 at 2402 MHz is 2).
pub open spec fn channel_frequency(channel: RadioChannel) -> u8 {
    match channel {
        RadioChannel::DataChannel0 => 4,
        RadioChannel::DataChannel1 => 6,
        RadioChannel::DataChannel2 => 8,
        RadioChannel::DataChannel3 => 10,
        RadioChannel::DataChannel4 => 12,
        RadioChannel::DataChannel5 => 14,
        RadioChannel::DataChannel6 => 16,
        RadioChannel::DataChannel7 => 18,
        RadioChannel::DataChannel8 => 20,
        RadioChannel::DataChannel9 => 22,
        RadioChannel::DataChannel10 => 24,
        RadioChannel::DataChannel11 => 28,
        RadioChannel::DataChannel12 => 30,
        RadioChannel::DataChannel13 => 32,
        RadioChannel::DataChannel14 => 34,
        RadioChannel::DataChannel15 => 36,
        RadioChannel::DataChannel16 => 38,
        RadioChannel::DataChannel17 => 40,
        RadioChannel::DataChannel18 => 42,
        RadioChannel::DataChannel19 => 44,
        RadioChannel::DataChannel20 => 46,
        RadioChannel::DataChannel21 => 48,
        RadioChannel::DataChannel22 => 50,
        RadioChannel::DataChannel23 => 52,
        RadioChannel::DataChannel24 => 54,
        RadioChannel::DataChannel25 => 56,
        RadioChannel::DataChannel26 => 58,
        RadioChannel::DataChannel27 => 60,
        RadioChannel::DataChannel28 => 62,
        RadioChannel::DataChannel29 => 64,
        RadioChannel::DataChannel30 => 66,
        RadioChannel::DataChannel31 => 68,
        RadioChannel::DataChannel32 => 70,
        RadioChannel::DataChannel33 => 72,
        RadioChannel::DataChannel34 => 74,
        RadioChannel::DataChannel35 => 76,
        RadioChannel::DataChannel36 => 78,
        RadioChannel::AdvertisingChannel37 => 2,
        RadioChannel::AdvertisingChannel38 => 26,
        RadioChannel::AdvertisingChannel39 => 80,
    }
}

/// The channels lie 2 MHz apart, in order of index: data channels 0 to 10
/// from 2404 MHz, data channels 11 to 36 from 2428 MHz (skipping 2426 MHz,
/// which advertising channel 38 takes), and advertising channels 37, 38 and
/// 39 at 2402, 2426 and 2480 MHz. No two channels share an index or a
/// frequency.
pub proof fn law_channel_frequencies(a: RadioChannel, b: RadioChannel)
    ensures
        channel_index(a) <= 39,
        channel_index(a) <= 10 ==> channel_frequency(a) == 4 + 2 * channel_index(a),
        11 <= channel_index(a) <= 36 ==> channel_frequency(a) == 6 + 2 * channel_index(a),
        channel_index(a) == 37 ==> channel_frequency(a) == 2,
        channel_index(a) == 38 ==> channel_frequency(a) == 26,
        channel_index(a) == 39 ==> channel_frequency(a) == 80,
        channel_index(a) == channel_index(b) ==> a == b,
        channel_frequency(a) == channel_frequency(b) ==> a == b,
{
}

impl RadioChannel {
    /// The channel's centre frequency minus 2400 MHz.
    pub fn get_channel_frequency(&self) -> (r: u8)
        ensures
            r == channel_frequency(*self),
    {
        match self {
            RadioChannel::DataChannel0 => 4,
            RadioChannel::DataChannel1 => 6,
            RadioChannel::DataChannel2 => 8,
            RadioChannel::DataChannel3 => 10,
            RadioChannel::DataChannel4 => 12,
            RadioChannel::DataChannel5 => 14,
            RadioChannel::DataChannel6 => 16,
            RadioChannel::DataChannel7 => 18,
            RadioChannel::DataChannel8 => 20,
            RadioChannel::DataChannel9 => 22,
            RadioChannel::DataChannel10 => 24,
            RadioChannel::DataChannel11 => 28,
            RadioChannel::DataChannel12 => 30,
            RadioChannel::DataChannel13 => 32,
            RadioChannel::DataChannel14 => 34,
            RadioChannel::DataChannel15 => 36,
            RadioChannel::DataChannel16 => 38,
            RadioChannel::DataChannel17 => 40,
            RadioChannel::DataChannel18 => 42,
            RadioChannel::DataChannel19 => 44,
            RadioChannel::DataChannel20 => 46,
            RadioChannel::DataChannel21 => 48,
            RadioChannel::DataChannel22 => 50,
            RadioChannel::DataChannel23 => 52,
            RadioChannel::DataChannel24 => 54,
            RadioChannel::DataChannel25 => 56,
            RadioChannel::DataChannel26 => 58,
            RadioChannel::DataChannel27 => 60,
            RadioChannel::DataChannel28 => 62,
            RadioChannel::DataChannel29 => 64,
            RadioChannel::DataChannel30 => 66,
            RadioChannel::DataChannel31 => 68,
            RadioChannel::DataChannel32 => 70,
            RadioChannel::DataChannel33 => 72,
            RadioChannel::DataChannel34 => 74,
            RadioChannel::DataChannel35 => 76,
            RadioChannel::DataChannel36 => 78,
            RadioChannel::AdvertisingChannel37 => 2,
            RadioChannel::AdvertisingChannel38 => 26,
            RadioChannel::AdvertisingChannel39 => 80,
        }
    }

    /// Returns the channel index of the radio channel.
    pub fn get_channel_index(&self) -> (r: u32)
        ensures
            r == channel_index(*self),
    {
        match *self {
            RadioChannel::DataChannel0 => 0,
            RadioChannel::DataChannel1 => 1,
            RadioChannel::DataChannel2 => 2,
            RadioChannel::DataChannel3 => 3,
            RadioChannel::DataChannel4 => 4,
            RadioChannel::DataChannel5 => 5,
            RadioChannel::DataChannel6 => 6,
            RadioChannel::DataChannel7 => 7,
            RadioChannel::DataChannel8 => 8,
            RadioChannel::DataChannel9 => 9,
            RadioChannel::DataChannel10 => 10,
            RadioChannel::DataChannel11 => 11,
            RadioChannel::DataChannel12 => 12,
            RadioChannel::DataChannel13 => 13,
            RadioChannel::DataChannel14 => 14,
            RadioChannel::DataChannel15 => 15,
            RadioChannel::DataChannel16 => 16,
            RadioChannel::DataChannel17 => 17,
            RadioChannel::DataChannel18 => 18,
            RadioChannel::DataChannel19 => 19,
            RadioChannel::DataChannel20 => 20,
            RadioChannel::DataChannel21 => 21,
            RadioChannel::DataChannel22 => 22,
            RadioChannel::DataChannel23 => 23,
            RadioChannel::DataChannel24 => 24,
            RadioChannel::DataChannel25 => 25,
            RadioChannel::DataChannel26 => 26,
            RadioChannel::DataChannel27 => 27,
            RadioChannel::DataChannel28 => 28,
            RadioChannel::DataChannel29 => 29,
            RadioChannel::DataChannel30 => 30,
            RadioChannel::DataChannel31 => 31,
            RadioChannel::DataChannel32 => 32,
            RadioChannel::DataChannel33 => 33,
            RadioChannel::DataChannel34 => 34,
            RadioChannel::DataChannel35 => 35,
            RadioChannel::DataChannel36 => 36,
            RadioChannel::AdvertisingChannel37 => 37,
            RadioChannel::AdvertisingChannel38 => 38,
            RadioChannel::AdvertisingChannel39 => 39,
        }
    }
}

} // verus!
