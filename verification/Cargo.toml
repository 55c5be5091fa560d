[package]
name = "word_waker"
version = "0.1.0"
edition = "2021"
publish = false

[dependencies]
anyhow = "1"
crossbeam = "0.8"
crossbeam-channel = "0.5"
ctrlc = "3"
libc = "0.2"
tracing = "0.1"
tracing-subscriber = { version = "0.3", features = ["env-filter"] }
