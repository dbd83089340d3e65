[package]
name = "codex_terminal"
version = "0.1.0"
edition = "2021"
publish = false

[dependencies]
serde_json = "1"
shellexpand = "3"
uuid = { version = "1", features = ["v4"] }
agent-client-protocol = { version = "*", features = ["unstable"] }
alacritty_terminal = "*"
anyhow = "1"
futures = "0.3"
log = "0.4"
parking_lot = "*"
portable-pty = "*"
schemars = "1"
serde = { version = "1", features = ["derive"] }
