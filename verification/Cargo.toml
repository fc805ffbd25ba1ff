[package]
name = "clr_host"
version = "0.1.0"
edition = "2021"
publish = false

[dependencies]
com-rs = "0.2"
libloading = "0.5"
winapi = "0.2"
