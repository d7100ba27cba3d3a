[package]
name = "promptline"
version = "0.1.0"
edition = "2021"
publish = false

[dependencies]
argh = "0.1"
chrono = { version = "0.4", default-features = false, features = ["clock"] }
dirs = "*"
git2 = { version = "*", default-features = false }
hostname = "*"
libc = "0.2"
serde = { version = "1", features = ["derive"] }
serde_json = "1"
serde_yaml = "*"
thiserror = "1"
