//! Low-power and ultra-low-power core support for Espressif devices: the
//! interrupt and trap decoding of the ULP RISC-V cores, the interrupt mask
//! register and its critical sections, the one-time hand-out of the
//! peripherals, and the core clock chosen at start-up.
#![allow(non_snake_case)]

pub mod interrupt;
pub mod peripherals;

use crate::interrupt::ulp_core::{external_enabled, IrqMask, IRQ_MASK_ALL};
use vstd::prelude::*;

verus! {

/// The Espressif devices whose low-power core this library runs on.
#[derive(Copy, Clone, Debug, PartialEq, Eq, Structural)]
pub enum Chip {
    /// ESP32-C6 and its LP core.
    Esp32c6,
    /// ESP32-S2 and its ULP RISC-V core.
    Esp32s2,
    /// ESP32-S3 and its ULP RISC-V core.
    Esp32s3,
}

/// ESP32-C6: LP_FAST_CLK is not very accurate, this is a rough estimate.
pub const ESP32C6_LP_FAST_CLK_HZ: u32 = 16_000_000;

/// ESP32-C6: the crystal clock divided by two.
pub const ESP32C6_XTAL_D2_CLK_HZ: u32 = 20_000_000;

/// ESP32-S2: the fast low-power clock.
pub const ESP32S2_LP_FAST_CLK_HZ: u32 = 8_000_000;

/// ESP32-S3: the fast low-power clock.
pub const ESP32S3_LP_FAST_CLK_HZ: u32 = 17_500_000;

/// The fast low-power clock of a chip, in Hz.
pub open spec fn lp_fast_clk(chip: Chip) -> u32 {
    match chip {
        Chip::Esp32c6 => ESP32C6_LP_FAST_CLK_HZ,
        Chip::Esp32s2 => ESP32S2_LP_FAST_CLK_HZ,
        Chip::Esp32s3 => ESP32S3_LP_FAST_CLK_HZ,
    }
}

/// The core clock after start-up: the ESP32-C6 LP core runs from the
/// crystal divided by two when its fast clock select bit is set; otherwise,
/// and on the other chips, the core runs from the fast low-power clock.
pub open spec fn startup_cpu_clock(chip: Chip, fast_clk_sel_set: bool) -> u32 {
    if chip is Esp32c6 && fast_clk_sel_set {
        ESP32C6_XTAL_D2_CLK_HZ
    } else {
        lp_fast_clk(chip)
    }
}

/// The fast low-power clock of a chip, in Hz (the core clock before
/// start-up changes it).
pub fn lp_fast_clk_hz(chip: Chip) -> (r: u32)
    ensures
        r == lp_fast_clk(chip),
        chip is Esp32c6 ==> r == 16_000_000,
        chip is Esp32s2 ==> r == 8_000_000,
        chip is Esp32s3 ==> r == 17_500_000,
{
    match chip {
        Chip::Esp32c6 => ESP32C6_LP_FAST_CLK_HZ,
        Chip::Esp32s2 => ESP32S2_LP_FAST_CLK_HZ,
        Chip::Esp32s3 => ESP32S3_LP_FAST_CLK_HZ,
    }
}

/// The core clock that the LP core start-up settles on, given whether the
/// ESP32-C6 clock register has its fast clock select bit set (the bit is
/// read on the ESP32-C6 only).
pub fn startup_cpu_clock_hz(chip: Chip, fast_clk_sel_set: bool) -> (r: u32)
    ensures
        r == startup_cpu_clock(chip, fast_clk_sel_set),
        chip is Esp32c6 && fast_clk_sel_set ==> r == 20_000_000,
        chip is Esp32c6 && !fast_clk_sel_set ==> r == 16_000_000,
        chip is Esp32s2 ==> r == 8_000_000,
        chip is Esp32s3 ==> r == 17_500_000,
        !(chip is Esp32c6) ==> r == lp_fast_clk(chip),
{
    let mut cpu_clock = lp_fast_clk_hz(chip);
    match chip {
        Chip::Esp32c6 => {
            if fast_clk_sel_set {
                cpu_clock = ESP32C6_XTAL_D2_CLK_HZ;
            }
        },
        _ => {},
    }
    cpu_clock
}

/// The core clock after start-up, per chip: the ESP32-C6 runs at 20 MHz
/// when its fast clock select bit is set and at 16 MHz otherwise; the
/// ESP32-S2 at 8 MHz and the ESP32-S3 at 17.5 MHz, whatever the flag, since
/// off the ESP32-C6 start-up leaves the fast low-power clock in place.
pub proof fn lemma_startup_clock(chip: Chip, fast_clk_sel_set: bool)
    ensures
        lp_fast_clk(Chip::Esp32c6) == 16_000_000,
        lp_fast_clk(Chip::Esp32s2) == 8_000_000,
        lp_fast_clk(Chip::Esp32s3) == 17_500_000,
        startup_cpu_clock(Chip::Esp32c6, true) == 20_000_000,
        startup_cpu_clock(Chip::Esp32c6, false) == 16_000_000,
        startup_cpu_clock(Chip::Esp32s2, fast_clk_sel_set) == 8_000_000,
        startup_cpu_clock(Chip::Esp32s3, fast_clk_sel_set) == 17_500_000,
        !(chip is Esp32c6) ==> startup_cpu_clock(chip, fast_clk_sel_set) == lp_fast_clk(chip)
            && startup_cpu_clock(chip, true) == startup_cpu_clock(chip, false),
{
}

/// Enter a critical section (disable interrupts): every IRQ source of the
/// ULP core is masked.
pub fn ulp_disable_interrupts(mask: &mut IrqMask)
    ensures
        final(mask).bits == IRQ_MASK_ALL,
        final(mask).bits == 0x8000_0007,
{
    mask.maskirq(IRQ_MASK_ALL);
}

/// Exit a critical section (re-enable interrupts): no IRQ source of the ULP
/// core is masked.
pub fn ulp_enable_interrupts(mask: &mut IrqMask)
    ensures
        final(mask).bits == 0,
{
    mask.maskirq(0);
}

/// Disabling all interrupts masks the external interrupt and each internal
/// one; enabling them unmasks every one.
pub proof fn lemma_disable_enable_all(bit: u32)
    requires
        bit == 0x1 || bit == 0x2 || bit == 0x4 || bit == 0x8000_0000,
    ensures
        !external_enabled(IRQ_MASK_ALL),
        (IRQ_MASK_ALL & bit) == bit,
        external_enabled(0),
        (0u32 & bit) == 0,
{
    assert((0x8000_0007u32 & 0x8000_0000u32) != 0) by (bit_vector);
    assert((0u32 & 0x8000_0000u32) == 0) by (bit_vector);
    assert((bit == 0x1u32 || bit == 0x2u32 || bit == 0x4u32 || bit == 0x8000_0000u32) ==> (
    0x8000_0007u32 & bit) == bit && (0u32 & bit) == 0) by (bit_vector);
}

} // verus!
