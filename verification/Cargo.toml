[package]
name = "woofer"
version = "0.1.0"
edition = "2021"
publish = false

[dependencies]
serde = { version = "1", features = ["derive"] }
serde_json = "1"
urlencoding = "2"
any_ascii = "0.3"
sha1 = "0.10"
anyhow = "1"
image = { version = "0.25", default-features = false, features = ["png", "jpeg"] }
