//! Interface for sensors.

use vstd::prelude::*;
use crate::returncode::ReturnCode;

verus! {

pub trait TemperatureDriver {
    fn set_client(&self, client: &'static dyn TemperatureClient);
    fn read_temperature(&self) -> ReturnCode;
}
pub trait TemperatureClient {
    fn callback(&self, value: usize);
}
pub trait HumidityDriver {
    fn set_client(&self, client: &'static dyn HumidityClient);
    fn read_humidity(&self) -> ReturnCode;
}
pub trait HumidityClient {
    fn callback(&self, value: usize);
}
pub trait AmbientLight {
    fn set_client(&self, client: &'static dyn AmbientLightClient);
    fn read_light_intensity(&self) -> (r: ReturnCode)
        default_ensures
            r == ReturnCode::ENODEVICE,
    {
        ReturnCode::ENODEVICE
    }
}
pub trait AmbientLightClient {
    fn callback(&self, lux: usize);
}
pub trait NineDof {
    fn set_client(&self, client: &'static dyn NineDofClient);
    fn read_accelerometer(&self) -> (r: ReturnCode)
        default_ensures
            r == ReturnCode::ENODEVICE,
    {
        ReturnCode::ENODEVICE
    }
    fn read_magnetometer(&self) -> (r: ReturnCode)
        default_ensures
            r == ReturnCode::ENODEVICE,
    {
        ReturnCode::ENODEVICE
    }
    fn read_gyroscope(&self) -> (r: ReturnCode)
        default_ensures
            r == ReturnCode::ENODEVICE,
    {
        ReturnCode::ENODEVICE
    }
}
pub trait NineDofClient {
    fn callback(&self, arg1: usize, arg2: usize, arg3: usize);
}

} // verus!
