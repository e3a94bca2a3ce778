[package]
name = "slippi_rust_extensions"
version = "0.1.0"
edition = "2021"
publish = false

[dependencies]
anyhow = "1"
chksum = "0.2"
fastrand = "1"
flate2 = "1"
hps_decode = "0.1"
process-memory = "0.5"
rodio = { version = "0.17", default-features = false }
serde = { version = "1", features = ["derive"] }
serde_json = "1"
serde_repr = "0.1"
time = { version = "0.3", features = ["local-offset"] }
tracing = "0.1"
tracing-subscriber = "0.3"
ureq = { version = "2", features = ["json"] }
