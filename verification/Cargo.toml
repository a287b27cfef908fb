[package]
name = "zcash-pasta-accel"
version = "0.1.0"
edition = "2021"
publish = false

[dependencies]
pasta_curves = { version = "=0.5.2", features = ["alloc"] }
thiserror = "=1.0.69"
libfuzzer-sys = "=0.4.13"

[dev-dependencies]
rand = "=0.8.8"
rand_chacha = "=0.3.1"
