[package]
name = "sculk"
version = "0.1.0"
edition = "2021"
publish = false

[dependencies]
fastnbt = "=2.6.3"
