[package]
name = "textgo"
version = "0.1.0"
edition = "2021"
publish = false

[dependencies]
global-hotkey = "*"
keyboard-types = "*"
enigo = "*"
rdev = "*"
serde = { version = "1", features = ["derive"] }
serde_json = "1"
tokio = { version = "1", features = ["time", "rt", "macros"] }
log = "*"
plist = "*"
core-foundation = "*"
