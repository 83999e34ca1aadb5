[package]
name = "stable_diffusion"
version = "0.1.0"
edition = "2021"
publish = false

[dependencies]
candle-core = "=0.4.1"
candle-transformers = "=0.4.1"
tokenizers = "=0.15.2"
hf-hub = "=0.3.2"
half = "=2.3.1"
anyhow = "1"
image = { version = "=0.24.9", default-features = false, features = ["png", "jpeg"] }
clap = { version = "=4.5.61", features = ["derive"] }
serde = { version = "1", features = ["derive"] }
serde_json = "1"
directories = "5"
