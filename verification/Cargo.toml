[package]
name = "hv"
version = "0.1.0"
edition = "2021"
publish = false

[dependencies]
x86 = "0.52"
bitfield = "*"
spin = "0.9"
log = "0.4"
derive_more = { version = "*", features = ["debug"] }
derive_deref = "*"
wdk-sys = "*"
