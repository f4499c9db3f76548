[package]
name = "retis"
version = "0.1.0"
edition = "2021"
publish = false

[dependencies]
anyhow = "1"
chrono = "0.4"
libbpf-rs = "*"
log = "0.4"
nix = { version = "*", features = ["time"] }
once_cell = "1"
serde = { version = "1", features = ["derive"] }
serde_json = { version = "1", features = ["preserve_order"] }
