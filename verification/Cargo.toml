[package]
name = "ptrace"
version = "0.1.0"
edition = "2021"
publish = false

[dependencies]
libc = { version = "0.2", features = ["extra_traits"] }
