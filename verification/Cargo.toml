[package]
name = "rust_tour"
version = "0.1.0"
edition = "2021"
publish = false

[dependencies]
ferris-says = "0.2"
rand = "0.8"
tokio = { version = "1", features = ["rt-multi-thread", "macros", "time", "net"] }
axum = "0.7"
