[package]
name = "asimov"
version = "0.1.0"
edition = "2021"
publish = false

[dependencies]
bytes = "=1.12.1"
memchr = "=2.8.3"
url = "=2.5.8"
tokio = { version = "=1.54.1", features = ["process", "io-util", "io-std", "macros", "rt", "sync", "time"] }
futures-lite = "=2.6.1"
async-stream = "=0.3.6"
async-trait = "=0.1.92"
