[package]
name = "ptymux"
version = "0.1.0"
edition = "2021"

[dependencies]
portable-pty = "*"
uuid = { version = "*", features = ["v4"] }
serde = { version = "*", features = ["derive"] }
sysinfo = "*"
