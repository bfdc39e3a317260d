[package]
name = "linux_media"
version = "0.1.0"
edition = "2021"
publish = false

[dependencies]
libc = "*"
linux-media-sys = "*"
serde = { version = "*", features = ["derive"] }
serde_json = "*"
bitflags = "*"
derive_more = { version = "*", features = ["from", "into", "display"] }
