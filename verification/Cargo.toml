[package]
name = "bootloader"
version = "0.1.0"
edition = "2021"
publish = false

[dependencies]
either = { version = "=1.19.0", default-features = false }
x86 = "=0.52.0"
