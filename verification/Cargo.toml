[package]
name = "glide_wm"
version = "0.2.15"
edition = "2021"
publish = false

[dependencies]
anyhow = "1"
bitflags = "2"
core-graphics = "*"
livesplit-hotkey = "*"
objc2 = "0.6"
objc2-app-kit = "0.3"
objc2-core-foundation = "0.3"
objc2-core-graphics = "0.3"
objc2-foundation = "0.3"
objc2-quartz-core = "0.3"
serde = { version = "1", features = ["derive"] }
tracing = "0.1"
