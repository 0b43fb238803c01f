[package]
name = "dse"
version = "0.1.0"
edition = "2021"
publish = false

[dependencies]
ash = "0.37"
serde = { version = "1", features = ["derive"] }
toml = "*"
walkdir = "2"
winapi = { version = "0.3", features = ["winuser", "libloaderapi", "wingdi", "minwindef", "windef"] }
winsafe = { version = "*", features = ["user"] }
