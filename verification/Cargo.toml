[package]
name = "stm32l4x6_hal"
version = "0.1.0"
edition = "2021"
publish = false

[dependencies]
stm32l4 = { version = "*", features = ["stm32l4x5"] }
cortex-m = "*"
embedded-hal = "0.2"
nb = "0.1"
void = "*"
cast = "*"
