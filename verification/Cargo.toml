[package]
name = "daisy_bsp"
version = "0.1.0"
edition = "2021"
publish = false

[dependencies]
stm32h7xx-hal = { version = "*", features = ["stm32h750v"] }
cortex-m = "0.7"
