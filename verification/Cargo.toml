[package]
name = "ncm_parser"
version = "0.4.0"
edition = "2021"
publish = false

[dependencies]
aes = "0.8"
cipher = { version = "0.4", features = ["block-padding", "alloc"] }
base64 = "0.22"
serde_json = "1"
thiserror = "1"
anyhow = "1"
clap = { version = "4", features = ["derive"] }
encoding_rs = "0.8"
walkdir = "2"
rusty_pool = "0.7"
