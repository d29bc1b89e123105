[package]
name = "embassy_stm32"
version = "0.1.0"
edition = "2021"
publish = false

[dependencies]
atomic-polyfill = "=1.0.3"
stm32-metapac = { version = "=21.0.0", default-features = false, features = ["pac", "stm32l073rz"] }
