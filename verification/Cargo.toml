[package]
name = "rnfc"
version = "0.1.0"
edition = "2021"
publish = false

[dependencies]
heapless = "0.8"
embassy-time = { version = "*", features = ["std"] }
embassy-futures = "0.1"
embedded-hal = "1.0"
embedded-hal-async = "1.0"
cortex-m = "0.7"
log = "0.4"
nusb = "0.1"
