[package]
name = "hyprland_ipc"
version = "0.1.0"
edition = "2021"
publish = false

[dependencies]
anyhow = "1"
nix = { version = "0.29", default-features = false, features = ["user"] }
serde_json = "1"
tokio = { version = "1", default-features = false, features = ["io-util", "net", "rt"] }
