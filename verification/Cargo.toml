[package]
name = "polybius"
version = "0.1.0"
edition = "2021"
publish = false

[dependencies]
embedded-hal = { version = "=0.2.7", features = ["unproven"] }
fullhouse = "=0.2.0"
lock_api = "=0.4.14"
parking_lot = "=0.12.5"
usb-device = "=0.2.9"
usbd-hid = "=0.6.2"
