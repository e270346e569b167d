[package]
name = "fskind"
version = "0.1.0"
edition = "2021"
publish = false

[dependencies]
rustix = { version = "*", features = ["fs"] }
winapi = { version = "*", features = ["fileapi", "minwindef"] }
