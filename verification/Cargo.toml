[package]
name = "micvol"
version = "0.1.0"
edition = "2021"
publish = false

[dependencies]
coreaudio-sys = "0.2"
log = "0.4"
thiserror = "2"
