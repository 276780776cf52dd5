[package]
name = "ecran"
version = "0.1.0"
edition = "2021"
publish = false

[dependencies]
rppal = "=0.22.1"
tokio = { version = "=1.53.2", features = ["rt-multi-thread", "macros", "time", "net", "signal", "io-util"] }
flume = "=0.12.0"
log = "=0.4.34"
serde = { version = "=1.0.229", features = ["derive"] }
serde_json = "=1.0.151"
chrono = { version = "=0.4.45", features = ["serde"] }
rust_decimal = "=1.43.0"
