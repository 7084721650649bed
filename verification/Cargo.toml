[package]
name = "binary_watch"
version = "0.1.0"
edition = "2021"
publish = false

[dependencies]
cortex-m = "*"
cortex-m-rt = "*"
irq = "*"
stm32f0xx-hal = { version = "*", features = ["stm32f030x4", "rt"] }
