[package]
name = "sensor_serde"
version = "0.1.0"
edition = "2021"
publish = false

[dependencies]
carla = "*"
ndarray = "*"
serde = { version = "*", features = ["derive"] }
