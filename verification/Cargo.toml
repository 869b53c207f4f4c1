[package]
name = "mimic_shrimp"
version = "0.1.0"
edition = "2021"
publish = false

[dependencies]
aes = "0.8"
base64 = "0.22"
md5 = "0.7"
qrcodegen = "1.8"
serde_json = "1"
urlencoding = "2"
uuid = { version = "1", features = ["v4"] }
serde = { version = "1", features = ["derive"] }
anyhow = "1"
async-trait = "0.1"
dotenvy = "0.15"
tracing = "0.1"
tokio = { version = "1", features = ["rt-multi-thread", "macros", "sync", "time", "process"] }
reqwest = { version = "0.12", default-features = false, features = ["json"] }
salvo = { version = "*", default-features = false, features = ["server", "http1"] }
adk-rust = { version = "*", default-features = false }
schemars = "1"
