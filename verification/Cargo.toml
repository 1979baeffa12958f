[package]
name = "trapcore"
version = "0.1.0"
edition = "2021"
publish = false

[dependencies]
pc-keyboard = "*"
x86_64 = "*"
spin = "*"
lazy_static = "*"
