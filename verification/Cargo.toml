[package]
name = "nova_scotia"
version = "0.1.0"
edition = "2021"
publish = false

[dependencies]
ff = "0.13"
nova-snark = "=0.76.0"
num-bigint = "=0.4.8"
num-traits = "=0.2.19"
serde = { version = "=1.0.229", features = ["derive"] }
serde_json = "=1.0.154"

[dev-dependencies]
pasta_curves = "0.5"
