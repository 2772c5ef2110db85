[package]
name = "std_reference_basic"
version = "0.1.0"
edition = "2021"
publish = false

[dependencies]
frame-support = "49.0.0"
frame-system = "49.0.0"
parity-scale-codec = { version = "3", features = ["derive"] }
scale-info = { version = "2", features = ["derive"] }
