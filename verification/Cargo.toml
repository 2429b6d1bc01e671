[package]
name = "kernel"
version = "0.1.0"
edition = "2021"
publish = false

[dependencies]
spin = "=0.12.3"
uefi = "=0.41.0"
x86 = "=0.52.0"
x86_64 = { version = "=0.15.5", default-features = false, features = ["instructions"] }
lazy_static = "=1.5.1"
thiserror = "=2.0.21"
