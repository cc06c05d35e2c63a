[package]
name = "light"
version = "0.1.0"
edition = "2021"
publish = false

[dependencies]
serde = { version = "1", features = ["derive"] }
serde_json = "1"
dirs = "*"
tao = "*"
wry = "*"
objc2 = "*"
objc2-app-kit = "*"
objc2-foundation = "*"
