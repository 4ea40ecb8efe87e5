[package]
name = "fido2_ctaphid"
version = "0.1.0"
edition = "2021"
publish = false

[dependencies]
build-time = "0.1"
byteorder = { version = "=1.3.4", default-features = false }
cortex-m = "=0.7.10"
cortex-m-rt = "=0.7.7"
embedded-hal = "=0.2.7"
fugit = "=0.3.9"
nb = "=1.1.0"
stm32f1xx-hal = { version = "=0.9.0", features = ["stm32f103", "rt", "medium", "stm32-usbd"] }
usb-device = "=0.2.9"
usbd-hid = "=0.6.2"
