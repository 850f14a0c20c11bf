[package]
name = "pico"
version = "0.1.0"
edition = "2021"
publish = false

[dependencies]
cortex-m-rt = "=0.7.7"
rp-pico = "=0.9.0"
usb-device = "=0.3.2"
usbd-human-interface-device = "=0.6.1"
fugit = "=0.3.9"
embedded-hal = "=0.2.7"
defmt = "=1.1.1"
defmt-rtt = "=1.3.0"
panic-halt = "=1.0.0"
