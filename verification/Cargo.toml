[package]
name = "async_trampoline"
version = "0.1.0"
edition = "2021"
publish = false

[dependencies]
bencher = "*"
cfg-if = "*"
libc = "*"
printtable = "*"
serde = { version = "1", features = ["derive"] }
serde_json = "1"
