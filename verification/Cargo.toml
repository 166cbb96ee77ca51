[package]
name = "testlist"
version = "0.1.0"
edition = "2021"
publish = false

[dependencies]
vt100 = "*"
chrono = "*"
portable-pty = "*"
ron = "*"
serde = { version = "*", features = ["derive"] }
clap = { version = "*", features = ["derive"] }
crossterm = "*"
ratatui = "*"
thiserror = "*"
