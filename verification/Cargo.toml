[package]
name = "bngtester"
version = "0.1.0"
edition = "2021"
publish = false

[dependencies]
clap = { version = "4", features = ["derive"] }
libc = "0.2"
nix = { version = "0.29", features = ["time"] }
serde = { version = "1", features = ["derive"] }
serde_json = "1"
serde_yml = "*"
socket2 = { version = "0.5", features = ["all"] }
tokio = { version = "1", features = ["full"] }
tokio-util = "0.7"
