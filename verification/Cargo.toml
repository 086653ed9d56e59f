[package]
name = "valensas_actuator"
version = "0.2.0"
edition = "2021"
publish = false

[dependencies]
rocket = { version = "=0.5.1", features = ["json"] }
futures = "=0.3.34"
async-trait = "=0.1.92"
serde = { version = "=1.0.229", features = ["derive"] }
r2d2 = "=0.8.10"
tonic = { version = "0.11", default-features = false }
tower = "0.4"
