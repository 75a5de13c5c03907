[package]
name = "realm_core"
version = "0.1.0"
edition = "2021"
publish = false

[dependencies]
tokio = { version = "1", features = ["net", "sync", "rt", "rt-multi-thread", "io-util", "time", "macros"] }
futures = "0.3"
serde = { version = "1", features = ["derive"] }
serde_json = "1"
serde_yaml = "0.9"
serde-xml-rs = "*"
toml = "*"
