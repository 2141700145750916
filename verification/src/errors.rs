//! Error taxonomy of the driver.

use vstd::prelude::*;

verus! {

/// Failure of a driver operation.
///
/// `BusError` stands for any transport-level failure (transmission, NACK,
/// bus busy); `DeviceNotFound` is raised only by construction, when the
/// identity register does not answer with the expected device id;
/// `OverflowError` reports that a channel count reached saturation for the
/// current integration time, so no lux value can be derived.  Overflow is a
/// normal, recoverable condition, kept distinct from hardware failures.
#[derive(Clone, Copy, Debug, PartialEq, Eq, Structural)]
pub enum TSL2591Error {
    /// A bus transaction failed.
    BusError,
    /// The device identity check failed at construction.
    DeviceNotFound,
    /// A channel count reached saturation; lux is undefined.
    OverflowError,
}

impl TSL2591Error {
    /// Human-readable description of the error.
    pub fn describe(&self) -> (r: &'static str)
        ensures
            *self == TSL2591Error::BusError ==> r@ == "i2c bus error"@,
            *self == TSL2591Error::DeviceNotFound ==> r@ == "Unable to find device TSL2591"@,
            *self == TSL2591Error::OverflowError ==> r@ == "Overflow reading light channels"@,
    {
        match *self {
            TSL2591Error::BusError => "i2c bus error",
            TSL2591Error::DeviceNotFound => "Unable to find device TSL2591",
            TSL2591Error::OverflowError => "Overflow reading light channels",
        }
    }
}

} // verus!
