[package]
name = "token_runtime"
version = "0.1.0"
edition = "2021"
publish = false

[dependencies]
apdu-dispatch = "*"
embedded-time = "*"
usb-device = "*"
usbd-ccid = "*"
usbd-ctaphid = "*"
