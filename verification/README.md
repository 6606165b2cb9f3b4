# esp_lp_hal

Support for the low-power (ESP32-C6 LP) and ultra-low-power (ESP32-S2/S3 ULP
RISC-V) cores of Espressif devices.

- `src/` is verified with Verus: decoding of the ULP IRQ status word into
  RISC-V trap causes, the external interrupt numbering, the interrupt mask
  register with `mie_impl` and the critical sections built on it, the
  one-time hand-out of the peripherals, and the core clock chosen at start-up.
- `app/` holds what only runs on the device: the `maskirq`/`waitirq`
  instructions, the start-up and trap assembly, register writes through the
  peripheral access crates, and the `critical-section` and `riscv` trait
  impls, each calling into the verified library for its decisions.
- `tests/` runs the library on concrete values.
