[package]
name = "f4"
version = "0.1.0"
edition = "2021"
publish = false

[dependencies]
heapless = "0.8"
stm32f429 = "*"
cortex-m = "*"
