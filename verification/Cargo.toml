[package]
name = "ayysee"
version = "0.1.0"
edition = "2021"
publish = false

[dependencies]
anyhow = "1"
clap = { version = "4", features = ["derive"] }
lalrpop-util = "0.20"
thiserror = "1"
tokio = { version = "1", features = ["fs", "macros", "rt-multi-thread"] }
tracing-subscriber = "0.3"
wasm-bindgen = "0.2"
