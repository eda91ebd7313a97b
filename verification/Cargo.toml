[package]
name = "rosesong"
version = "0.1.0"
edition = "2021"
publish = false

[dependencies]
rand = "=0.10.3"
colored = "=3.1.1"
tokio = { version = "*", features = ["rt-multi-thread", "macros", "sync", "time", "fs", "io-util"] }
zbus = "*"
serde = { version = "*", features = ["derive"] }
serde_json = "*"
toml = "*"
reqwest = { version = "*", default-features = false, features = ["json"] }
futures-util = "*"
