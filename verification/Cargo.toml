[package]
name = "mvp_math"
version = "0.1.0"
edition = "2021"
publish = false

[dependencies]
rustc_apfloat = "=0.2.3"

[dev-dependencies]
cgmath = "=0.18.0"
