[package]
name = "ftdi_host"
version = "0.1.0"
edition = "2021"
publish = false

[dependencies]
embassy-sync = "*"
embassy-usb-driver = "*"
embedded-io-async = "*"
