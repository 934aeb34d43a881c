[package]
name = "hyperlight_vcpu"
version = "0.1.0"
edition = "2021"
publish = false

[dependencies]
libc = "0.2"
log = "0.4"
metrics = "0.24"
