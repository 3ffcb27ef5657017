[package]
name = "sailboat_simulator"
version = "0.1.0"
edition = "2021"
publish = false

[dependencies]
serde = { version = "=1.0.229", features = ["derive"] }
serde_json = "=1.0.151"
nalgebra = { version = "=0.35.0", features = ["serde-serialize"] }
dialoguer = "=0.12.0"
