[package]
name = "eeg_pipeline"
version = "0.1.0"
edition = "2021"
publish = false

[dependencies]
lsl = "0.1"
rand = "0.8"
rustfft = "6"
serde = { version = "1", features = ["derive"] }
tokio = { version = "1", features = ["rt", "rt-multi-thread", "sync", "time"] }
