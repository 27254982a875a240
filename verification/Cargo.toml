[package]
name = "mac_usb"
version = "0.1.0"
edition = "2021"
publish = false

[dependencies]
io-kit-sys = "0.4"
libc = "0.2"
log = "0.4"
