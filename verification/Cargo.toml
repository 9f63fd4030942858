[package]
name = "leucite"
version = "0.1.0"
edition = "2021"
publish = false

[dependencies]
landlock = "0.4"
libc = "0.2"
thiserror = "1"
tokio = { version = "1", default-features = false, features = ["process"] }
