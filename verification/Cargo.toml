[package]
name = "stm32_usb"
version = "0.1.0"
edition = "2021"
publish = false

[dependencies]
bare-metal = "=0.2.5"
cortex-m = "0.6"
cortex-m-rtfm = "0.5"
stm32f103xx = "=0.11.0"
vcell = "=0.1.3"
