[package]
name = "atelier"
version = "0.1.0"
edition = "2021"
publish = false

[dependencies]
anyhow = "1"
crossterm = "0.28"
image = { version = "0.25", default-features = false, features = ["png"] }
portable-pty = "0.8"
ratatui = "0.29"
ratatui-image = "8"
serde = { version = "1", features = ["derive"] }
toml = "0.8"
vt100 = "0.15"
