[package]
name = "trench"
version = "0.1.0"
edition = "2021"
publish = false

[dependencies]
chrono = "=0.4.45"
serde = { version = "=1.0.229", features = ["derive"] }
dirs = "=7.0.0"
nucleo = "=0.5.0"
quick-xml = "0.37"
