[package]
name = "synesthesia"
version = "0.1.0"
edition = "2021"
publish = false

[dependencies]
chrono = "=0.4.45"
parking_lot = "=0.12.5"
crossbeam-channel = "=0.5.17"
rustfft = "=6.4.1"
num-complex = "=0.4.6"
serde = { version = "=1.0.229", features = ["derive"] }
serde_json = "=1.0.154"
rand = "=0.9.5"
anyhow = "=1.0.104"
ratatui = "=0.29.0"
crossterm = "=0.28.1"
qdrant-client = { version = "1", default-features = false }
