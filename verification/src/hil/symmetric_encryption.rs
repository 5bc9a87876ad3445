//! Interface for symmetric encryption.

use vstd::prelude::*;
use crate::returncode::ReturnCode;

verus! {

pub trait Client<'a> {
    fn crypt_done(&'a self, source: Option<&'a mut [u8]>,
                  dest: &'a mut [u8]);
}
pub const AES128_BLOCK_SIZE: usize = 16;
pub const AES128_KEY_SIZE: usize = 16;
pub trait AES128<'a> {
    fn enable(&self);
    fn disable(&self);
    fn set_client(&'a self, client: &'a dyn Client<'a>);
    fn set_key(&self, key: &[u8]) -> ReturnCode;
    fn set_iv(&self, iv: &[u8]) -> ReturnCode;
    fn start_message(&self);
    fn crypt(&'a self, source: Option<&'a mut [u8]>,
             dest: &'a mut [u8], start_index: usize,
             stop_index: usize) -> Option<(ReturnCode, Option<&'a mut [u8]>, &'a mut [u8])>;
}
pub trait AES128Ctr {
    fn set_mode_aes128ctr(&self, encrypting: bool);
}
pub trait AES128CBC {
    fn set_mode_aes128cbc(&self, encrypting: bool);
}
pub trait CCMClient {
    fn crypt_done(&self, buf: &'static mut [u8], res: ReturnCode,
                  tag_is_valid: bool);
}
pub const CCM_NONCE_LENGTH: usize = 13;
pub trait AES128CCM<'a> {
    fn set_client(&'a self, client: &'a dyn CCMClient);
    fn set_key(&self, key: &[u8]) -> ReturnCode;
    fn set_nonce(&self, nonce: &[u8]) -> ReturnCode;
    fn crypt(&self, buf: &'static mut [u8], a_off: usize,
             m_off: usize, m_len: usize, mic_len: usize,
             confidential: bool, encrypting: bool) -> (ReturnCode, Option<&'static mut [u8]>);
}

} // verus!
