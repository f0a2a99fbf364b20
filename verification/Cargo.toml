[package]
name = "pit"
version = "0.1.0"
edition = "2021"
publish = false

[dependencies]
sha1_smol = "*"
reqwest = { version = "*", default-features = false }
tokio = { version = "*", features = ["rt-multi-thread", "fs", "io-util", "time", "macros"] }
serde = { version = "*", features = ["derive"] }
serde_json = "*"
