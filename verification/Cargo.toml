[package]
name = "linreg"
version = "0.1.0"
edition = "2021"
publish = false

[dependencies]
nalgebra = { version = "0.32", default-features = false, features = ["std"] }

[dev-dependencies]
float-cmp = "0.9"
