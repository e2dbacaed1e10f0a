[package]
name = "obd_bridge"
version = "0.1.0"
edition = "2021"
publish = false

[dependencies]
bme280-rs = "*"
embassy-sync = "*"
embassy-time = "*"
embedded-can = "=0.4.1"
embedded-hal-async = "*"
heapless = "=0.8.0"
