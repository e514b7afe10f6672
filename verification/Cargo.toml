[package]
name = "pkgbuild_manager"
version = "2.0.0"
edition = "2021"
publish = false

[dependencies]
anyhow = "1"
gettext-rs = { version = "0.7", features = ["gettext-system"] }
serde = { version = "1", features = ["derive"] }
serde_json = "1"
dirs = "5"
async-channel = "2"
