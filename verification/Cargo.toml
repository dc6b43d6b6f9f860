[package]
name = "wechaty"
version = "0.1.0"
edition = "2021"
publish = false

[dependencies]
lru = "=0.18.5"
regex = "=1.13.1"
serde = { version = "*", features = ["derive"] }
reqwest = { version = "*", default-features = false, features = ["json"] }
tokio = { version = "*", features = ["rt", "macros", "signal"] }
futures = "*"
