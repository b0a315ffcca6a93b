[package]
name = "editor_core"
version = "0.1.0"
edition = "2021"
publish = false

[dependencies]
ropey = "=1.6.1"
tokio = { version = "1", features = ["rt", "sync", "time", "fs", "macros"] }
futures = "0.3"
tokio-stream = "0.1"
lsp-types = "0.94"
async-lsp = { version = "0.1", default-features = false, features = ["omni-trait"] }
rfd = { version = "0.15", default-features = false, features = ["xdg-portal", "tokio"] }
