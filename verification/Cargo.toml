[package]
name = "hpm-hal"
version = "0.1.0"
edition = "2021"
publish = false

[dependencies]
critical-section = { version = "=1.2.0", features = ["std"] }
embassy-sync = "=0.8.0"
embassy-hal-internal = "=0.5.0"
embassy-usb-driver = "=0.2.2"
embedded-hal = "=1.0.0"
embedded-hal-nb = "=1.0.0"
embedded-io = "=0.7.1"
embedded-io-async = "=0.7.0"
futures-util = { version = "=0.3.34", default-features = false }
hpm-metapac = { version = "=0.0.5", features = ["hpm6750"] }
nb = "=1.1.0"
