[package]
name = "rsc_lsp"
version = "0.1.0"
edition = "2021"
publish = false

[dependencies]
tower-lsp = "0.20"
tokio = { version = "1", features = ["rt-multi-thread", "io-std", "sync", "macros"] }
serde_json = "1"
thiserror = "1"
