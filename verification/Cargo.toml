[package]
name = "key_ripper"
version = "0.1.0"
edition = "2021"
publish = false

[dependencies]
usb-device = "0.3"
embedded-hal = "1"
critical-section = "1"
