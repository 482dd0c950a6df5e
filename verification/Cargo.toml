[package]
name = "rustlib"
version = "0.1.0"
edition = "2021"
publish = false

[dependencies]
reqwest = "0.12"
tokio = { version = "1", features = ["macros", "rt-multi-thread"] }
