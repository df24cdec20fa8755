[package]
name = "synopsys_otg"
version = "0.1.0"
edition = "2021"
publish = false

[dependencies]
critical-section = "1"
embassy-sync = "0.7"
embassy-usb-driver = "0.2"
