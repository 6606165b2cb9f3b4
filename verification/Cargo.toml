[package]
name = "esp_lp_hal"
version = "0.1.0"
edition = "2021"
publish = false

[dependencies]
riscv = "=0.16.1"
riscv-rt = "=0.18.0"
critical-section = { version = "=1.2.0", features = ["restore-state-bool"] }
esp32c6-lp = { version = "=0.3.0", default-features = false }
esp32s2-ulp = { version = "=0.3.0", default-features = false }
esp32s3-ulp = { version = "=0.3.0", default-features = false }
esp-hal-procmacros = { version = "=0.23.0", default-features = false, features = ["is-ulp-core"] }
