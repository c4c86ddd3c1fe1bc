[package]
name = "stella_record"
version = "0.1.0"
edition = "2021"
publish = false

[dependencies]
regex = "1"
chrono = "0.4"
rusqlite = { version = "0.38", features = ["bundled"] }
zstd = "0.13"
tar = "0.4"
base64 = "0.22"
winreg = "0.52"
