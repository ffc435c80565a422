[package]
name = "hid_keystrokes"
version = "0.1.0"
edition = "2021"
publish = false

[dependencies]
cortex-m = "=0.7.10"
cortex-m-rt = "=0.7.7"
critical-section = "=1.2.0"
rp-pico = "=0.8.0"
usb-device = "=0.2.9"
usbd-hid = "=0.6.2"
