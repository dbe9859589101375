[package]
name = "camera"
version = "0.1.0"
edition = "2021"
publish = false

[dependencies]
cortex-m = "0.7"
cortex-m-rt = "0.7"
defmt = "0.3"
embedded-alloc = "0.6"
smoltcp = { version = "0.11", default-features = false, features = ["alloc", "medium-ethernet", "proto-ipv4", "socket-tcp"] }
stm32h7xx-hal = { version = "0.16", features = ["stm32h747cm7", "ethernet"] }
