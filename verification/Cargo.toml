[package]
name = "lpc11uxx_hal"
version = "0.1.0"
edition = "2021"
publish = false

[dependencies]
lpc11uxx = "*"
cortex-m = "0.7"
embedded-hal = "0.2"
nb = "0.1"
