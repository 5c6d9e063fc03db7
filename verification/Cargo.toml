[package]
name = "nmd_core"
version = "0.1.0"
edition = "2021"
publish = false

[dependencies]
regex = "=1.13.1"
indexmap = "=2.14.2"
serde = { version = "=1.0.229", features = ["derive"] }
thiserror = "=1.0.69"
build_html = "2"
