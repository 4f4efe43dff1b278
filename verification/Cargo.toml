[package]
name = "libde265_rs"
version = "0.1.0"
edition = "2021"
publish = false

[dependencies]
libde265-sys = "*"
