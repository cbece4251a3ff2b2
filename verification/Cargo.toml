[package]
name = "hud_core"
version = "0.1.0"
edition = "2021"
publish = false

[dependencies]
chrono = "*"
dirs = "*"
fs-err = "*"
libc = "*"
md5 = "*"
rand = "*"
serde = { version = "*", features = ["derive"] }
serde_json = "*"
tempfile = "*"
