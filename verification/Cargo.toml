[package]
name = "simple_mnist"
version = "0.1.0"
edition = "2021"
publish = false

[dependencies]
burn = "=0.5.0"
burn-autodiff = "=0.5.0"
burn-ndarray = "=0.5.0"
serde = { version = "1", features = ["derive"] }
