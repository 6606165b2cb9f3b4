use esp_lp_hal::interrupt::IrqMask;
use esp_lp_hal::peripherals::{lp_core_c6, ulp_core_s3};
use esp_lp_hal::{
    lp_fast_clk_hz, startup_cpu_clock_hz, ulp_disable_interrupts, ulp_enable_interrupts, Chip,
    ESP32C6_LP_FAST_CLK_HZ, ESP32C6_XTAL_D2_CLK_HZ,
};

#[test]
fn lp_fast_clocks() {
    assert_eq!(lp_fast_clk_hz(Chip::Esp32c6), 16_000_000);
    assert_eq!(lp_fast_clk_hz(Chip::Esp32s2), 8_000_000);
    assert_eq!(lp_fast_clk_hz(Chip::Esp32s3), 17_500_000);
}

#[test]
fn startup_clock_c6_follows_fast_clk_sel() {
    assert_eq!(startup_cpu_clock_hz(Chip::Esp32c6, false), ESP32C6_LP_FAST_CLK_HZ);
    assert_eq!(startup_cpu_clock_hz(Chip::Esp32c6, true), ESP32C6_XTAL_D2_CLK_HZ);
    assert_eq!(startup_cpu_clock_hz(Chip::Esp32c6, true), 20_000_000);
}

#[test]
fn startup_clock_ulp_is_lp_fast() {
    assert_eq!(startup_cpu_clock_hz(Chip::Esp32s2, true), 8_000_000);
    assert_eq!(startup_cpu_clock_hz(Chip::Esp32s2, false), 8_000_000);
    assert_eq!(startup_cpu_clock_hz(Chip::Esp32s3, true), 17_500_000);
}

#[test]
fn disable_then_enable_all_interrupts() {
    let mut mask = IrqMask { bits: 0 };
    ulp_disable_interrupts(&mut mask);
    assert_eq!(mask.bits, 0x8000_0007);
    ulp_enable_interrupts(&mut mask);
    assert_eq!(mask.bits, 0);
}

#[test]
fn c6_peripherals_not_handed_out_twice() {
    let mut taken = true;
    let r = lp_core_c6::Peripherals::take(&mut taken, || -> lp_core_c6::Peripherals {
        unreachable!()
    });
    assert!(r.is_none());
    assert!(taken);
}

#[test]
fn s3_peripherals_not_handed_out_twice() {
    let mut taken = true;
    let r = ulp_core_s3::Peripherals::take(&mut taken, || -> ulp_core_s3::Peripherals {
        unreachable!()
    });
    assert!(r.is_none());
    assert!(taken);
}
