[package]
name = "zarrs_jpeg"
version = "0.1.0"
edition = "2021"
publish = false

[dependencies]
turbojpeg = "1"
serde = { version = "1", features = ["derive"] }
serde_json = "1"
thiserror = "2"
log = "0.4"
inventory = "0.3"
zarrs = { version = "*", default-features = false }
