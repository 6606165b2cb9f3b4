//! The peripherals of the ESP32-C6 LP core.

use vstd::prelude::*;
use esp32c6_lp::{LP_I2C0, LP_PERI, LP_ANA, LP_AON, LP_APM, LP_CLKRST, LP_I2C_ANA_MST, LP_IO, LP_TEE, LP_TIMER, LP_UART, LP_WDT, PMU};

verus! {

#[verifier::external_type_specification]
#[verifier::external_body]
pub struct ExLpI2c0(esp32c6_lp::LP_I2C0);

#[verifier::external_type_specification]
#[verifier::external_body]
pub struct ExLpPeri(esp32c6_lp::LP_PERI);

#[verifier::external_type_specification]
#[verifier::external_body]
pub struct ExLpAna(esp32c6_lp::LP_ANA);

#[verifier::external_type_specification]
#[verifier::external_body]
pub struct ExLpAon(esp32c6_lp::LP_AON);

#[verifier::external_type_specification]
#[verifier::external_body]
pub struct ExLpApm(esp32c6_lp::LP_APM);

#[verifier::external_type_specification]
#[verifier::external_body]
pub struct ExLpClkrst(esp32c6_lp::LP_CLKRST);

#[verifier::external_type_specification]
#[verifier::external_body]
pub struct ExLpI2cAnaMst(esp32c6_lp::LP_I2C_ANA_MST);

#[verifier::external_type_specification]
#[verifier::external_body]
pub struct ExLpIo(esp32c6_lp::LP_IO);

#[verifier::external_type_specification]
#[verifier::external_body]
pub struct ExLpTee(esp32c6_lp::LP_TEE);

#[verifier::external_type_specification]
#[verifier::external_body]
pub struct ExLpTimer(esp32c6_lp::LP_TIMER);

#[verifier::external_type_specification]
#[verifier::external_body]
pub struct ExLpUart(esp32c6_lp::LP_UART);

#[verifier::external_type_specification]
#[verifier::external_body]
pub struct ExLpWdt(esp32c6_lp::LP_WDT);

#[verifier::external_type_specification]
#[verifier::external_body]
pub struct ExPmu(esp32c6_lp::PMU);

/// All the peripherals.
pub struct Peripherals {
    /// LP_I2C0
    pub LP_I2C0: LP_I2C0,
    /// LP_PERI
    pub LP_PERI: LP_PERI,
    /// LP_ANA
    pub LP_ANA: LP_ANA,
    /// LP_AON
    pub LP_AON: LP_AON,
    /// LP_APM
    pub LP_APM: LP_APM,
    /// LP_CLKRST
    pub LP_CLKRST: LP_CLKRST,
    /// LP_I2C_ANA_MST
    pub LP_I2C_ANA_MST: LP_I2C_ANA_MST,
    /// LP_IO
    pub LP_IO: LP_IO,
    /// LP_TEE
    pub LP_TEE: LP_TEE,
    /// LP_TIMER
    pub LP_TIMER: LP_TIMER,
    /// LP_UART
    pub LP_UART: LP_UART,
    /// LP_WDT
    pub LP_WDT: LP_WDT,
    /// PMU
    pub PMU: PMU,
}

impl Peripherals {
    /// Returns all the peripherals *once*: the first call, on a device whose
    /// peripherals were not handed out (`device_peripherals` false), gets them
    /// from `make` and marks them handed out; every later call gets `None`.
    pub fn take<F: FnOnce() -> Peripherals>(device_peripherals: &mut bool, make: F) -> (r: Option<
        Peripherals,
    >)
        requires
            !*old(device_peripherals) ==> make.requires(()),
        ensures
            *final(device_peripherals),
            r is Some <==> !*old(device_peripherals),
            r matches Some(p) ==> make.ensures((), p),
    {
        if *device_peripherals {
            return None;
        }
        Some(Peripherals::steal(device_peripherals, make))
    }

    /// Unchecked version of `Peripherals::take`: marks the peripherals handed
    /// out and returns what `make` builds, whether or not they were handed out
    /// before. Each of the returned peripherals must be used at most once.
    pub fn steal<F: FnOnce() -> Peripherals>(device_peripherals: &mut bool, make: F) -> (r:
        Peripherals)
        requires
            make.requires(()),
        ensures
            *final(device_peripherals),
            make.ensures((), r),
    {
        *device_peripherals = true;
        make()
    }
}

} // verus!
