[package]
name = "flysky_i6x"
version = "0.1.0"
edition = "2021"
publish = false

[dependencies]
cortex-m = { version = "=0.7.10", features = ["critical-section-single-core"] }
cortex-m-rt = "=0.7.7"
panic-halt = "=1.0.0"
stm32f0xx-hal = { version = "=0.18.0", features = ["stm32f072", "rt"] }
embedded-graphics = "=0.8.2"
embedded-icon = "*"
embedded-storage-async = "=0.4.2"
sequential-storage = "=8.0.2"
usb-device = "=0.3.2"
usbd-hid = "=0.10.2"
usbd-serial = "=0.2.2"
stm32-usbd = "=0.8.0"
