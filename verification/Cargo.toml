[package]
name = "cas"
version = "0.1.0"
edition = "2021"
publish = false

[dependencies]
num-bigint = "=0.4.8"
rug = { version = "=1.19.2", default-features = false, features = ["integer"] }
gmp-mpfr-sys = { version = "1.5", default-features = false, features = ["use-system-libs"] }
pyo3 = { version = "=0.22.6", features = ["extension-module", "num-bigint"] }
