[package]
name = "clog"
version = "0.1.0"
edition = "2021"
publish = false

[dependencies]
anyhow = "*"
cln-plugin = "*"
cln-rpc = "*"
log = "*"
moka = { version = "*", features = ["sync"] }
serde_json = "*"
tokio = { version = "*", features = ["io-std", "macros", "rt-multi-thread"] }
