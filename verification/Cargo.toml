[package]
name = "smart_bench"
version = "0.1.0"
edition = "2021"
publish = false

[dependencies]
parity-scale-codec = "3"
subxt = "0.44"
subxt-signer = "0.44"
futures = "0.3"
color-eyre = "0.6"
tokio = { version = "1", features = ["rt-multi-thread", "macros"] }
