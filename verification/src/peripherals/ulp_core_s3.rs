//! The peripherals of the ESP32-S3 ULP RISC-V core.

use vstd::prelude::*;
use esp32s3_ulp::{RTC_IO, RTC_CNTL, RTC_I2C, SENS};

verus! {

#[verifier::external_type_specification]
#[verifier::external_body]
pub struct ExRtcIo(esp32s3_ulp::RTC_IO);

#[verifier::external_type_specification]
#[verifier::external_body]
pub struct ExRtcCntl(esp32s3_ulp::RTC_CNTL);

#[verifier::external_type_specification]
#[verifier::external_body]
pub struct ExRtcI2c(esp32s3_ulp::RTC_I2C);

#[verifier::external_type_specification]
#[verifier::external_body]
pub struct ExSens(esp32s3_ulp::SENS);

/// All the peripherals.
pub struct Peripherals {
    /// RTC_IO
    pub RTC_IO: RTC_IO,
    /// RTC_CNTL
    pub RTC_CNTL: RTC_CNTL,
    /// RTC_I2C
    pub RTC_I2C: RTC_I2C,
    /// SENS
    pub SENS: SENS,
}

impl Peripherals {
    /// Returns all the peripherals *once*: the first call, on a device whose
    /// peripherals were not handed out (`device_peripherals` false), gets them
    /// from `make` and marks them handed out; every later call gets `None`.
    pub fn take<F: FnOnce() -> Peripherals>(device_peripherals: &mut bool, make: F) -> (r: Option<
        Peripherals,
    >)
        requires
            !*old(device_peripherals) ==> make.requires(()),
        ensures
            *final(device_peripherals),
            r is Some <==> !*old(device_peripherals),
            r matches Some(p) ==> make.ensures((), p),
    {
        if *device_peripherals {
            return None;
        }
        Some(Peripherals::steal(device_peripherals, make))
    }

    /// Unchecked version of `Peripherals::take`: marks the peripherals handed
    /// out and returns what `make` builds, whether or not they were handed out
    /// before. Each of the returned peripherals must be used at most once.
    pub fn steal<F: FnOnce() -> Peripherals>(device_peripherals: &mut bool, make: F) -> (r:
        Peripherals)
        requires
            make.requires(()),
        ensures
            *final(device_peripherals),
            make.ensures((), r),
    {
        *device_peripherals = true;
        make()
    }
}

} // verus!
