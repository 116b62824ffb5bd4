[package]
name = "nrf_play"
version = "0.1.0"
edition = "2021"
publish = false

[dependencies]
cortex-m = "0.7"
cortex-m-rtic = "1"
defmt = "0.3"
dwt-systick-monotonic = "1"
embedded-hal = "0.2"
embedded-sdmmc = "0.3"
fugit = "0.3"
nb = "1"
nrf52840-hal = "0.16"
rtic-monotonic = "1"
