[package]
name = "redmond_pool"
version = "0.1.0"
edition = "2021"
publish = false

[dependencies]
tokio = { version = "*", features = ["rt", "net", "time", "sync"] }
tokio-util = { version = "*", features = ["compat"] }
tiberius = "*"
napi = { version = "*", features = ["napi4", "tokio_rt", "compat-mode"] }
napi-derive = { version = "*", features = ["compat-mode"] }
