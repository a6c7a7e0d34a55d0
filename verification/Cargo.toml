[package]
name = "slcan_bridge"
version = "0.1.0"
edition = "2021"
publish = false

[dependencies]
bxcan = "=0.7.0"
embedded-hal = "=0.2.7"
heapless = "=0.7.17"
cortex-m = "=0.7.9"
cortex-m-rt = "=0.7.7"
cortex-m-semihosting = "=0.5.0"
defmt = "=0.3.100"
