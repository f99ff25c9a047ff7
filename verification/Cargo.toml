[package]
name = "rusty_d3d12"
version = "0.1.0"
edition = "2021"
publish = false

[dependencies]
widestring = "0.4"
hassle-rs = "*"
winapi = { version = "0.3", features = ["winerror", "winbase"] }
serde = { version = "1", features = ["derive"] }
log = "0.4"
