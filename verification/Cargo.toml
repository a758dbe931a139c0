[package]
name = "sm2_co_sign_core"
version = "0.1.0"
edition = "2021"
publish = false

[dependencies]
libsm = "0.6"
num-bigint = "0.4"
base64 = "0.22"
rand = "0.8"
hex = "0.4"
serde = { version = "1", features = ["derive"] }
serde_json = "1"
reqwest = { version = "0.12", default-features = false, features = ["json"] }
tokio = { version = "1", features = ["rt-multi-thread", "macros", "sync"] }
tracing = "0.1"
clap = { version = "4", features = ["derive"] }
anyhow = "1"
thiserror = "1"
