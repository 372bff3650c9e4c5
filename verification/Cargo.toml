[package]
name = "sanctifier_core"
version = "0.1.0"
edition = "2021"
publish = false

[dependencies]
regex = "1"
md5 = "0.7"
syn = { version = "2", features = ["full", "visit", "extra-traits"] }
quote = "1"
proc-macro2 = { version = "1", features = ["span-locations"] }
serde = { version = "1", features = ["derive"] }
serde_json = "1"
thiserror = "1"
anyhow = "1"
clap = { version = "4", features = ["derive"] }
tokio = { version = "1", features = ["rt-multi-thread", "fs", "io-util", "macros"] }
warp = { version = "0.3", default-features = false, features = ["multipart"] }
futures-util = "0.3"
bytes = "1"
tempfile = "3"
soroban-sdk = "22"
