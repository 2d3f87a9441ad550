[package]
name = "fastsearch"
version = "0.1.0"
edition = "2021"
publish = false

[dependencies]
anyhow = "1"
serde = "1"
serde_derive = "1"
serde_json = "1"
tokio = { version = "1", default-features = false, features = ["macros", "rt-multi-thread"] }
