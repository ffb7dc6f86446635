[package]
name = "zlink_unix"
version = "0.1.0"
edition = "2021"
publish = false

[dependencies]
async-io = "2"
libc = "0.2"
rustix = { version = "1", features = ["fs", "net", "process"] }
tokio = { version = "1", features = ["net", "rt"] }
