[package]
name = "minterpolate"
version = "0.1.0"
edition = "2021"
publish = false

[dependencies]
const_soft_float = "=0.1.4"
mint = "=0.5.9"
rustc_apfloat = "=0.2.3"
serde = { version = "=1.0.229", features = ["derive"] }
