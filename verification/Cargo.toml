[package]
name = "bias_core"
version = "0.1.0"
edition = "2021"
publish = false

[dependencies]
ahash = { version = "=0.8.12", features = ["serde"] }
bincode = "=1.3.3"
fugue = { version = "=0.2.10", default-features = false, features = ["bigint-malachite"] }
once_cell = "=1.21.4"
ouroboros = "=0.18.5"
regex = "=1.13.1"
serde = { version = "=1.0.229", features = ["derive", "rc"] }
thiserror = "=1.0.69"
tracing = "=0.1.44"
ustr = { version = "=0.9.0", features = ["serialization"] }
