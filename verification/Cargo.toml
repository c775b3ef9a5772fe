[package]
name = "chopper_runtime"
version = "0.1.0"
edition = "2021"
publish = false

[dependencies]
bincode = "=1.3.3"
tokio = { version = "=1.53.2", features = ["rt", "rt-multi-thread", "sync"] }
rublas = "=0.1.45"
